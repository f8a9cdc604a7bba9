//! The driver: it walks one execution through the phase table, dispatching
//! every hook through the registry, jumping to the designated recovery
//! phase on error, consulting the retry strategy at the two decision
//! points, and surfacing the final modeled response.
//!
//! The spec functions here are the functional model of the whole protocol;
//! [`run_execution`]'s contract pins its result to that model on every
//! path.
use vstd::prelude::*;

use crate::config_bag::ConfigBag;
use crate::context::initial_context;
use crate::context::with_failure;
use crate::context::InterceptorContext;
use crate::hook::Hook;
use crate::interceptors::dispatch_result;
use crate::interceptors::lemma_run_hook_keeps_fields;
use crate::interceptors::DispatchState;
use crate::interceptors::Interceptor;
use crate::interceptors::Interceptors;
use crate::payload::OperationError;
use crate::payload::Payload;
use crate::payload::Response;
use crate::retry::RetryStrategy;
use crate::transport::Transport;

verus! {

/// A dispatch state with the recorded error written into the context as
/// the modeled response: what the designated recovery phase receives after
/// a failed dispatch.
pub open spec fn jumped(s: DispatchState) -> DispatchState {
    DispatchState { ctx: with_failure(s.ctx, s.err->0), bag: s.bag, err: s.err }
}

/// The once-per-execution phases before the retry loop: `before_execution`,
/// the serialization phases, and `before_retry_loop`. A recorded error
/// means the driver jumps to execution completion with the error as the
/// modeled response (already written into the context here).
pub open spec fn preloop_spec<I: Interceptor, T: Transport>(
    cs: Seq<I>,
    os: Seq<I>,
    tr: T,
    ctx0: InterceptorContext,
    bag0: Map<u64, u64>,
) -> DispatchState {
    let s1 = dispatch_result(Hook::ReadBeforeExecution, cs, os, ctx0, bag0);
    if s1.err is Some {
        jumped(s1)
    } else {
        let s2 = dispatch_result(Hook::ModifyBeforeSerialization, cs, os, s1.ctx, s1.bag);
        if s2.err is Some {
            jumped(s2)
        } else {
            let s3 = dispatch_result(Hook::ReadBeforeSerialization, cs, os, s2.ctx, s2.bag);
            if s3.err is Some {
                jumped(s3)
            } else {
                let c4 = InterceptorContext {
                    tx_request: Some(tr.serialize_model(s3.ctx.modeled_request)),
                    ..s3.ctx
                };
                let s4 = dispatch_result(Hook::ReadAfterSerialization, cs, os, c4, s3.bag);
                if s4.err is Some {
                    jumped(s4)
                } else {
                    let s5 = dispatch_result(Hook::ModifyBeforeRetryLoop, cs, os, s4.ctx, s4.bag);
                    if s5.err is Some {
                        jumped(s5)
                    } else {
                        s5
                    }
                }
            }
        }
    }
}

/// What one attempt leaves behind. `halt` reports that the `after_attempt`
/// dispatch itself failed: the driver then ends the retry loop without
/// consulting the strategy and proceeds to execution completion.
pub struct AttemptOutcome {
    pub ctx: InterceptorContext,
    pub bag: Map<u64, u64>,
    pub halt: bool,
}

/// The tail of every attempt: `modify_before_attempt_completion`, whose
/// error continues into `read_after_attempt` as the modeled response, then
/// `read_after_attempt` itself.
pub open spec fn finish_attempt_spec<I: Interceptor>(
    cs: Seq<I>,
    os: Seq<I>,
    ctx: InterceptorContext,
    bag: Map<u64, u64>,
) -> AttemptOutcome {
    let s = dispatch_result(Hook::ModifyBeforeAttemptCompletion, cs, os, ctx, bag);
    let c2 = if s.err is Some {
        with_failure(s.ctx, s.err->0)
    } else {
        s.ctx
    };
    let s2 = dispatch_result(Hook::ReadAfterAttempt, cs, os, c2, s.bag);
    if s2.err is Some {
        AttemptOutcome { ctx: with_failure(s2.ctx, s2.err->0), bag: s2.bag, halt: true }
    } else {
        AttemptOutcome { ctx: s2.ctx, bag: s2.bag, halt: false }
    }
}

/// One whole attempt, started from the pre-loop snapshot `base`: the
/// attempt phases in table order, with a failed dispatch jumping to
/// `modify_before_attempt_completion` carrying the error as the modeled
/// response.
pub open spec fn attempt_spec<I: Interceptor, T: Transport>(
    cs: Seq<I>,
    os: Seq<I>,
    tr: T,
    base: InterceptorContext,
    bag: Map<u64, u64>,
    attempt: u64,
) -> AttemptOutcome {
    let s1 = dispatch_result(Hook::ReadBeforeAttempt, cs, os, base, bag);
    if s1.err is Some {
        finish_attempt_spec(cs, os, with_failure(s1.ctx, s1.err->0), s1.bag)
    } else {
        let s2 = dispatch_result(Hook::ModifyBeforeSigning, cs, os, s1.ctx, s1.bag);
        if s2.err is Some {
            finish_attempt_spec(cs, os, with_failure(s2.ctx, s2.err->0), s2.bag)
        } else {
            let s3 = dispatch_result(Hook::ReadBeforeSigning, cs, os, s2.ctx, s2.bag);
            if s3.err is Some {
                finish_attempt_spec(cs, os, with_failure(s3.ctx, s3.err->0), s3.bag)
            } else {
                let c4 = InterceptorContext {
                    tx_request: Some(tr.sign_model(s3.ctx.tx_request->0)),
                    ..s3.ctx
                };
                let s4 = dispatch_result(Hook::ReadAfterSigning, cs, os, c4, s3.bag);
                if s4.err is Some {
                    finish_attempt_spec(cs, os, with_failure(s4.ctx, s4.err->0), s4.bag)
                } else {
                    let s5 = dispatch_result(Hook::ModifyBeforeTransmit, cs, os, s4.ctx, s4.bag);
                    if s5.err is Some {
                        finish_attempt_spec(cs, os, with_failure(s5.ctx, s5.err->0), s5.bag)
                    } else {
                        let s6 = dispatch_result(Hook::ReadBeforeTransmit, cs, os, s5.ctx, s5.bag);
                        if s6.err is Some {
                            finish_attempt_spec(cs, os, with_failure(s6.ctx, s6.err->0), s6.bag)
                        } else {
                            let c7 = InterceptorContext {
                                tx_response: Some(
                                    tr.transmit_model(attempt, s6.ctx.tx_request->0),
                                ),
                                ..s6.ctx
                            };
                            let s7 = dispatch_result(Hook::ReadAfterTransmit, cs, os, c7, s6.bag);
                            if s7.err is Some {
                                finish_attempt_spec(
                                    cs,
                                    os,
                                    with_failure(s7.ctx, s7.err->0),
                                    s7.bag,
                                )
                            } else {
                                let s8 = dispatch_result(
                                    Hook::ModifyBeforeDeserialization,
                                    cs,
                                    os,
                                    s7.ctx,
                                    s7.bag,
                                );
                                if s8.err is Some {
                                    finish_attempt_spec(
                                        cs,
                                        os,
                                        with_failure(s8.ctx, s8.err->0),
                                        s8.bag,
                                    )
                                } else {
                                    let s9 = dispatch_result(
                                        Hook::ReadBeforeDeserialization,
                                        cs,
                                        os,
                                        s8.ctx,
                                        s8.bag,
                                    );
                                    if s9.err is Some {
                                        finish_attempt_spec(
                                            cs,
                                            os,
                                            with_failure(s9.ctx, s9.err->0),
                                            s9.bag,
                                        )
                                    } else {
                                        let c10 = InterceptorContext {
                                            modeled_response: Some(
                                                tr.deserialize_model(s9.ctx.tx_response->0),
                                            ),
                                            ..s9.ctx
                                        };
                                        let s10 = dispatch_result(
                                            Hook::ReadAfterDeserialization,
                                            cs,
                                            os,
                                            c10,
                                            s9.bag,
                                        );
                                        if s10.err is Some {
                                            finish_attempt_spec(
                                                cs,
                                                os,
                                                with_failure(s10.ctx, s10.err->0),
                                                s10.bag,
                                            )
                                        } else {
                                            finish_attempt_spec(cs, os, s10.ctx, s10.bag)
                                        }
                                    }
                                }
                            }
                        }
                    }
                }
            }
        }
    }
}

/// The context the `read_after_execution` dispatch observes: the result of
/// `modify_before_completion`, with that phase's error, if any, recorded as
/// the modeled response.
pub open spec fn completion_entry_ctx<I: Interceptor>(
    cs: Seq<I>,
    os: Seq<I>,
    ctx: InterceptorContext,
    bag: Map<u64, u64>,
) -> InterceptorContext {
    let s = dispatch_result(Hook::ModifyBeforeCompletion, cs, os, ctx, bag);
    if s.err is Some {
        with_failure(s.ctx, s.err->0)
    } else {
        s.ctx
    }
}

/// Execution completion: `modify_before_completion`, then
/// `read_after_execution`; an error of the latter becomes the surfaced
/// outcome. Returns the response surfaced to the caller and the final bag.
pub open spec fn completion_spec<I: Interceptor>(
    cs: Seq<I>,
    os: Seq<I>,
    ctx: InterceptorContext,
    bag: Map<u64, u64>,
) -> (Response, Map<u64, u64>) {
    let s = dispatch_result(Hook::ModifyBeforeCompletion, cs, os, ctx, bag);
    let c2 = completion_entry_ctx(cs, os, ctx, bag);
    let s2 = dispatch_result(Hook::ReadAfterExecution, cs, os, c2, s.bag);
    let c3 = if s2.err is Some {
        with_failure(s2.ctx, s2.err->0)
    } else {
        s2.ctx
    };
    (c3.modeled_response->0, s2.bag)
}

/// Everything the retry loop's behaviour is a function of: the registered
/// interceptors, the collaborators, the pre-loop context snapshot `base`
/// every attempt starts from, the bag as the loop is entered, and the
/// attempt cap.
pub struct RetryLoopModel<I, T, S> {
    pub clients: Seq<I>,
    pub operations: Seq<I>,
    pub transport: T,
    pub strategy: S,
    pub max_attempts: u64,
    pub base: InterceptorContext,
    pub bag0: Map<u64, u64>,
}

/// The bag as attempt `k` begins: the loop's starting bag for the first
/// attempt, afterwards whatever the strategy consultation after attempt
/// `k - 1` left behind.
pub open spec fn bag_before_attempt<I: Interceptor, T: Transport, S: RetryStrategy>(
    lm: RetryLoopModel<I, T, S>,
    k: u64,
) -> Map<u64, u64>
    decreases k,
{
    if k <= 1 {
        lm.bag0
    } else {
        let prev = attempt_spec(
            lm.clients,
            lm.operations,
            lm.transport,
            lm.base,
            bag_before_attempt(lm, (k - 1) as u64),
            (k - 1) as u64,
        );
        lm.strategy.retry_model(prev.ctx.modeled_response->0, prev.bag).0
    }
}

/// Attempt `k` of the loop. Every attempt starts from the same pre-loop
/// snapshot `lm.base`: transport-level state mutated by an earlier
/// attempt's hooks is not part of it.
pub open spec fn attempt_at<I: Interceptor, T: Transport, S: RetryStrategy>(
    lm: RetryLoopModel<I, T, S>,
    k: u64,
) -> AttemptOutcome {
    attempt_spec(lm.clients, lm.operations, lm.transport, lm.base, bag_before_attempt(lm, k), k)
}

/// The strategy consultation after attempt `k`: the bag it leaves behind
/// and its verdict.
pub open spec fn consult_at<I: Interceptor, T: Transport, S: RetryStrategy>(
    lm: RetryLoopModel<I, T, S>,
    k: u64,
) -> (Map<u64, u64>, Result<bool, Payload>) {
    let a = attempt_at(lm, k);
    lm.strategy.retry_model(a.ctx.modeled_response->0, a.bag)
}

/// Whether the loop goes on to attempt `k + 1`: attempt `k`'s
/// `after_attempt` dispatch succeeded, the cap is not reached, and the
/// strategy granted a retry.
pub open spec fn continues<I: Interceptor, T: Transport, S: RetryStrategy>(
    lm: RetryLoopModel<I, T, S>,
    k: u64,
) -> bool {
    &&& !attempt_at(lm, k).halt
    &&& k < lm.max_attempts
    &&& consult_at(lm, k).1 == Ok::<bool, Payload>(true)
}

/// The `modify_before_attempt_completion` / `read_after_attempt` tail
/// always leaves a populated modeled response behind.
pub proof fn lemma_finish_populates<I: Interceptor>(
    cs: Seq<I>,
    os: Seq<I>,
    ctx: InterceptorContext,
    bag: Map<u64, u64>,
)
    requires
        ctx.modeled_response is Some,
    ensures
        finish_attempt_spec(cs, os, ctx, bag).ctx.modeled_response is Some,
{
    let s = dispatch_result(Hook::ModifyBeforeAttemptCompletion, cs, os, ctx, bag);
    lemma_run_hook_keeps_fields(
        Hook::ModifyBeforeAttemptCompletion,
        cs + os,
        DispatchState { ctx, bag, err: None },
    );
    let c2 = if s.err is Some {
        with_failure(s.ctx, s.err->0)
    } else {
        s.ctx
    };
    lemma_run_hook_keeps_fields(
        Hook::ReadAfterAttempt,
        cs + os,
        DispatchState { ctx: c2, bag: s.bag, err: None },
    );
}

/// Every attempt leaves a populated modeled response behind, wherever in
/// the attempt a failure struck.
pub proof fn lemma_attempt_populates<I: Interceptor, T: Transport>(
    cs: Seq<I>,
    os: Seq<I>,
    tr: T,
    base: InterceptorContext,
    bag: Map<u64, u64>,
    attempt: u64,
)
    ensures
        attempt_spec(cs, os, tr, base, bag, attempt).ctx.modeled_response is Some,
{
    let s1 = dispatch_result(Hook::ReadBeforeAttempt, cs, os, base, bag);
    if s1.err is Some {
        lemma_finish_populates(cs, os, with_failure(s1.ctx, s1.err->0), s1.bag);
    } else {
        let s2 = dispatch_result(Hook::ModifyBeforeSigning, cs, os, s1.ctx, s1.bag);
        if s2.err is Some {
            lemma_finish_populates(cs, os, with_failure(s2.ctx, s2.err->0), s2.bag);
        } else {
            let s3 = dispatch_result(Hook::ReadBeforeSigning, cs, os, s2.ctx, s2.bag);
            if s3.err is Some {
                lemma_finish_populates(cs, os, with_failure(s3.ctx, s3.err->0), s3.bag);
            } else {
                let c4 = InterceptorContext {
                    tx_request: Some(tr.sign_model(s3.ctx.tx_request->0)),
                    ..s3.ctx
                };
                let s4 = dispatch_result(Hook::ReadAfterSigning, cs, os, c4, s3.bag);
                if s4.err is Some {
                    lemma_finish_populates(cs, os, with_failure(s4.ctx, s4.err->0), s4.bag);
                } else {
                    let s5 = dispatch_result(Hook::ModifyBeforeTransmit, cs, os, s4.ctx, s4.bag);
                    if s5.err is Some {
                        lemma_finish_populates(cs, os, with_failure(s5.ctx, s5.err->0), s5.bag);
                    } else {
                        let s6 = dispatch_result(Hook::ReadBeforeTransmit, cs, os, s5.ctx, s5.bag);
                        if s6.err is Some {
                            lemma_finish_populates(cs, os, with_failure(s6.ctx, s6.err->0), s6.bag);
                        } else {
                            let c7 = InterceptorContext {
                                tx_response: Some(
                                    tr.transmit_model(attempt, s6.ctx.tx_request->0),
                                ),
                                ..s6.ctx
                            };
                            let s7 = dispatch_result(Hook::ReadAfterTransmit, cs, os, c7, s6.bag);
                            if s7.err is Some {
                                lemma_finish_populates(
                                    cs,
                                    os,
                                    with_failure(s7.ctx, s7.err->0),
                                    s7.bag,
                                );
                            } else {
                                let s8 = dispatch_result(
                                    Hook::ModifyBeforeDeserialization,
                                    cs,
                                    os,
                                    s7.ctx,
                                    s7.bag,
                                );
                                if s8.err is Some {
                                    lemma_finish_populates(
                                        cs,
                                        os,
                                        with_failure(s8.ctx, s8.err->0),
                                        s8.bag,
                                    );
                                } else {
                                    let s9 = dispatch_result(
                                        Hook::ReadBeforeDeserialization,
                                        cs,
                                        os,
                                        s8.ctx,
                                        s8.bag,
                                    );
                                    if s9.err is Some {
                                        lemma_finish_populates(
                                            cs,
                                            os,
                                            with_failure(s9.ctx, s9.err->0),
                                            s9.bag,
                                        );
                                    } else {
                                        let c10 = InterceptorContext {
                                            modeled_response: Some(
                                                tr.deserialize_model(s9.ctx.tx_response->0),
                                            ),
                                            ..s9.ctx
                                        };
                                        let s10 = dispatch_result(
                                            Hook::ReadAfterDeserialization,
                                            cs,
                                            os,
                                            c10,
                                            s9.bag,
                                        );
                                        lemma_run_hook_keeps_fields(
                                            Hook::ReadAfterDeserialization,
                                            cs + os,
                                            DispatchState { ctx: c10, bag: s9.bag, err: None },
                                        );
                                        if s10.err is Some {
                                            lemma_finish_populates(
                                                cs,
                                                os,
                                                with_failure(s10.ctx, s10.err->0),
                                                s10.bag,
                                            );
                                        } else {
                                            lemma_finish_populates(cs, os, s10.ctx, s10.bag);
                                        }
                                    }
                                }
                            }
                        }
                    }
                }
            }
        }
    }
}

/// Context and bag the loop hands to execution completion when attempt `k`
/// is its last. A strategy consultation that itself failed leaves its
/// error as the modeled response.
pub open spec fn loop_exit<I: Interceptor, T: Transport, S: RetryStrategy>(
    lm: RetryLoopModel<I, T, S>,
    k: u64,
) -> (InterceptorContext, Map<u64, u64>) {
    let a = attempt_at(lm, k);
    if a.halt || k >= lm.max_attempts {
        (a.ctx, a.bag)
    } else {
        let consult = consult_at(lm, k);
        match consult.1 {
            Ok(_) => (a.ctx, consult.0),
            Err(e) => (with_failure(a.ctx, OperationError::Strategy { error: e }), consult.0),
        }
    }
}

/// The context the loop hands to execution completion always carries a
/// populated modeled response.
pub proof fn lemma_exit_populates<I: Interceptor, T: Transport, S: RetryStrategy>(
    lm: RetryLoopModel<I, T, S>,
    k: u64,
)
    ensures
        loop_exit(lm, k).0.modeled_response is Some,
{
    lemma_attempt_populates(
        lm.clients,
        lm.operations,
        lm.transport,
        lm.base,
        bag_before_attempt(lm, k),
        k,
    );
}

/// Terminal visibility law: however early the execution failed, the
/// context observed by the `read_after_execution` dispatch carries a
/// populated modeled response (the modeled request is populated by
/// construction), and so does the context the surfaced outcome is read
/// from.
pub proof fn lemma_terminal_visibility<I: Interceptor>(
    cs: Seq<I>,
    os: Seq<I>,
    ctx: InterceptorContext,
    bag: Map<u64, u64>,
)
    requires
        ctx.modeled_response is Some,
    ensures
        completion_entry_ctx(cs, os, ctx, bag).modeled_response is Some,
        ({
            let s = dispatch_result(Hook::ModifyBeforeCompletion, cs, os, ctx, bag);
            let s2 = dispatch_result(
                Hook::ReadAfterExecution,
                cs,
                os,
                completion_entry_ctx(cs, os, ctx, bag),
                s.bag,
            );
            s2.ctx.modeled_response is Some
        }),
{
    lemma_run_hook_keeps_fields(
        Hook::ModifyBeforeCompletion,
        cs + os,
        DispatchState { ctx, bag, err: None },
    );
    let s = dispatch_result(Hook::ModifyBeforeCompletion, cs, os, ctx, bag);
    lemma_run_hook_keeps_fields(
        Hook::ReadAfterExecution,
        cs + os,
        DispatchState { ctx: completion_entry_ctx(cs, os, ctx, bag), bag: s.bag, err: None },
    );
}

/// Attempt isolation law: every attempt of the loop starts from the same
/// pre-loop snapshot `lm.base` — never from the context an earlier attempt
/// left behind. A transport-request mutation made by one attempt's hooks is
/// therefore not visible in the context a later attempt begins with; only
/// the bag is carried from attempt to attempt.
pub proof fn lemma_attempt_isolation<I: Interceptor, T: Transport, S: RetryStrategy>(
    lm: RetryLoopModel<I, T, S>,
    k: u64,
)
    ensures
        attempt_at(lm, k) == attempt_spec(
            lm.clients,
            lm.operations,
            lm.transport,
            lm.base,
            bag_before_attempt(lm, k),
            k,
        ),
{
}

/// Retry-loop law: when no `after_attempt` dispatch fails, the cap is out
/// of the way, and the strategy grants a retry after exactly the first
/// `granted` attempts, an execution satisfying [`run_execution`]'s
/// contract makes exactly `granted + 1` attempts — a strategy granting
/// exactly two retries yields exactly three attempts.
pub proof fn lemma_retry_loop<I: Interceptor, T: Transport, S: RetryStrategy>(
    lm: RetryLoopModel<I, T, S>,
    granted: u64,
    attempts: u64,
)
    requires
        granted < lm.max_attempts,
        forall|k: u64|
            1 <= k <= granted ==> !attempt_at(lm, k).halt && consult_at(lm, k).1 == Ok::<
                bool,
                Payload,
            >(true),
        consult_at(lm, (granted + 1) as u64).1 != Ok::<bool, Payload>(true),
        1 <= attempts <= lm.max_attempts,
        forall|j: u64| 1 <= j < attempts ==> continues(lm, j),
        !continues(lm, attempts),
    ensures
        attempts == granted + 1,
{
    if attempts <= granted {
        assert(!attempt_at(lm, attempts).halt && consult_at(lm, attempts).1 == Ok::<bool, Payload>(
            true,
        ));
        assert(continues(lm, attempts));
    }
    if attempts > granted + 1 {
        assert(continues(lm, (granted + 1) as u64));
    }
}

/// On a pre-loop run that recorded no error, the snapshot handed to the
/// retry loop carries a transport request.
pub proof fn lemma_preloop_ready<I: Interceptor, T: Transport>(
    cs: Seq<I>,
    os: Seq<I>,
    tr: T,
    ctx0: InterceptorContext,
    bag0: Map<u64, u64>,
)
    ensures
        preloop_spec(cs, os, tr, ctx0, bag0).err is None ==> preloop_spec(
            cs,
            os,
            tr,
            ctx0,
            bag0,
        ).ctx.tx_request is Some,
{
    let s1 = dispatch_result(Hook::ReadBeforeExecution, cs, os, ctx0, bag0);
    if s1.err is None {
        let s2 = dispatch_result(Hook::ModifyBeforeSerialization, cs, os, s1.ctx, s1.bag);
        if s2.err is None {
            let s3 = dispatch_result(Hook::ReadBeforeSerialization, cs, os, s2.ctx, s2.bag);
            if s3.err is None {
                let c4 = InterceptorContext {
                    tx_request: Some(tr.serialize_model(s3.ctx.modeled_request)),
                    ..s3.ctx
                };
                lemma_run_hook_keeps_fields(
                    Hook::ReadAfterSerialization,
                    cs + os,
                    DispatchState { ctx: c4, bag: s3.bag, err: None },
                );
                let s4 = dispatch_result(Hook::ReadAfterSerialization, cs, os, c4, s3.bag);
                if s4.err is None {
                    lemma_run_hook_keeps_fields(
                        Hook::ModifyBeforeRetryLoop,
                        cs + os,
                        DispatchState { ctx: s4.ctx, bag: s4.bag, err: None },
                    );
                }
            }
        }
    }
}

/// Runs the once-per-execution phases up to and including
/// `modify_before_retry_loop`. On a failed dispatch the error is recorded
/// as the modeled response and `false` comes back: the driver must jump to
/// execution completion.
fn run_preloop<I: Interceptor, T: Transport>(
    reg: &Interceptors<I>,
    transport: &T,
    ctx: &mut InterceptorContext,
    cfg: &mut ConfigBag,
) -> (ok: bool)
    ensures
        ({
            let p = preloop_spec(reg.clients(), reg.operations(), *transport, *old(ctx), old(cfg)@);
            *final(ctx) == p.ctx && final(cfg)@ == p.bag && (ok <==> p.err is None)
        }),
{
    match reg.dispatch(Hook::ReadBeforeExecution, ctx, cfg) {
        Err(e) => {
            ctx.record_failure(e);
            return false;
        },
        Ok(()) => {},
    }
    match reg.dispatch(Hook::ModifyBeforeSerialization, ctx, cfg) {
        Err(e) => {
            ctx.record_failure(e);
            return false;
        },
        Ok(()) => {},
    }
    match reg.dispatch(Hook::ReadBeforeSerialization, ctx, cfg) {
        Err(e) => {
            ctx.record_failure(e);
            return false;
        },
        Ok(()) => {},
    }
    let txq = transport.serialize(&ctx.modeled_request);
    ctx.tx_request = Some(txq);
    let ghost c4 = *ctx;
    let ghost b4 = cfg@;
    match reg.dispatch(Hook::ReadAfterSerialization, ctx, cfg) {
        Err(e) => {
            ctx.record_failure(e);
            return false;
        },
        Ok(()) => {},
    }
    proof {
        lemma_run_hook_keeps_fields(
            Hook::ReadAfterSerialization,
            reg.clients() + reg.operations(),
            DispatchState { ctx: c4, bag: b4, err: None },
        );
    }
    match reg.dispatch(Hook::ModifyBeforeRetryLoop, ctx, cfg) {
        Err(e) => {
            ctx.record_failure(e);
            return false;
        },
        Ok(()) => {},
    }
    true
}

/// Runs the tail every attempt ends with. `true` reports that the
/// `read_after_attempt` dispatch failed and the retry loop must end.
fn finish_attempt_exec<I: Interceptor>(
    reg: &Interceptors<I>,
    ctx: &mut InterceptorContext,
    cfg: &mut ConfigBag,
) -> (halt: bool)
    requires
        old(ctx).tx_request is Some,
        old(ctx).modeled_response is Some,
    ensures
        ({
            let a = finish_attempt_spec(reg.clients(), reg.operations(), *old(ctx), old(cfg)@);
            *final(ctx) == a.ctx && final(cfg)@ == a.bag && halt == a.halt
        }),
{
    let ghost c0 = *ctx;
    let ghost b0 = cfg@;
    match reg.dispatch(Hook::ModifyBeforeAttemptCompletion, ctx, cfg) {
        Err(e) => {
            ctx.record_failure(e);
        },
        Ok(()) => {},
    }
    proof {
        lemma_run_hook_keeps_fields(
            Hook::ModifyBeforeAttemptCompletion,
            reg.clients() + reg.operations(),
            DispatchState { ctx: c0, bag: b0, err: None },
        );
    }
    match reg.dispatch(Hook::ReadAfterAttempt, ctx, cfg) {
        Err(e) => {
            ctx.record_failure(e);
            true
        },
        Ok(()) => false,
    }
}

/// Runs one attempt from the pre-loop snapshot in `ctx`. `true` reports
/// that the `read_after_attempt` dispatch failed: the driver ends the loop
/// without consulting the strategy.
fn run_attempt<I: Interceptor, T: Transport>(
    reg: &Interceptors<I>,
    transport: &T,
    ctx: &mut InterceptorContext,
    cfg: &mut ConfigBag,
    attempt: u64,
) -> (halt: bool)
    requires
        old(ctx).tx_request is Some,
    ensures
        ({
            let a = attempt_spec(
                reg.clients(),
                reg.operations(),
                *transport,
                *old(ctx),
                old(cfg)@,
                attempt,
            );
            *final(ctx) == a.ctx && final(cfg)@ == a.bag && halt == a.halt
        }),
{
    let ghost c1 = *ctx;
    let ghost b1 = cfg@;
    match reg.dispatch(Hook::ReadBeforeAttempt, ctx, cfg) {
        Err(e) => {
            proof {
                lemma_run_hook_keeps_fields(
                    Hook::ReadBeforeAttempt,
                    reg.clients() + reg.operations(),
                    DispatchState { ctx: c1, bag: b1, err: None },
                );
            }
            ctx.record_failure(e);
            return finish_attempt_exec(reg, ctx, cfg);
        },
        Ok(()) => {},
    }
    proof {
        lemma_run_hook_keeps_fields(
            Hook::ReadBeforeAttempt,
            reg.clients() + reg.operations(),
            DispatchState { ctx: c1, bag: b1, err: None },
        );
    }
    let ghost c2 = *ctx;
    let ghost b2 = cfg@;
    match reg.dispatch(Hook::ModifyBeforeSigning, ctx, cfg) {
        Err(e) => {
            proof {
                lemma_run_hook_keeps_fields(
                    Hook::ModifyBeforeSigning,
                    reg.clients() + reg.operations(),
                    DispatchState { ctx: c2, bag: b2, err: None },
                );
            }
            ctx.record_failure(e);
            return finish_attempt_exec(reg, ctx, cfg);
        },
        Ok(()) => {},
    }
    proof {
        lemma_run_hook_keeps_fields(
            Hook::ModifyBeforeSigning,
            reg.clients() + reg.operations(),
            DispatchState { ctx: c2, bag: b2, err: None },
        );
    }
    let ghost c3 = *ctx;
    let ghost b3 = cfg@;
    match reg.dispatch(Hook::ReadBeforeSigning, ctx, cfg) {
        Err(e) => {
            proof {
                lemma_run_hook_keeps_fields(
                    Hook::ReadBeforeSigning,
                    reg.clients() + reg.operations(),
                    DispatchState { ctx: c3, bag: b3, err: None },
                );
            }
            ctx.record_failure(e);
            return finish_attempt_exec(reg, ctx, cfg);
        },
        Ok(()) => {},
    }
    proof {
        lemma_run_hook_keeps_fields(
            Hook::ReadBeforeSigning,
            reg.clients() + reg.operations(),
            DispatchState { ctx: c3, bag: b3, err: None },
        );
    }
    let signed = transport.sign(&ctx.tx_request.unwrap());
    ctx.tx_request = Some(signed);
    let ghost c5 = *ctx;
    let ghost b5 = cfg@;
    match reg.dispatch(Hook::ReadAfterSigning, ctx, cfg) {
        Err(e) => {
            proof {
                lemma_run_hook_keeps_fields(
                    Hook::ReadAfterSigning,
                    reg.clients() + reg.operations(),
                    DispatchState { ctx: c5, bag: b5, err: None },
                );
            }
            ctx.record_failure(e);
            return finish_attempt_exec(reg, ctx, cfg);
        },
        Ok(()) => {},
    }
    proof {
        lemma_run_hook_keeps_fields(
            Hook::ReadAfterSigning,
            reg.clients() + reg.operations(),
            DispatchState { ctx: c5, bag: b5, err: None },
        );
    }
    let ghost c6 = *ctx;
    let ghost b6 = cfg@;
    match reg.dispatch(Hook::ModifyBeforeTransmit, ctx, cfg) {
        Err(e) => {
            proof {
                lemma_run_hook_keeps_fields(
                    Hook::ModifyBeforeTransmit,
                    reg.clients() + reg.operations(),
                    DispatchState { ctx: c6, bag: b6, err: None },
                );
            }
            ctx.record_failure(e);
            return finish_attempt_exec(reg, ctx, cfg);
        },
        Ok(()) => {},
    }
    proof {
        lemma_run_hook_keeps_fields(
            Hook::ModifyBeforeTransmit,
            reg.clients() + reg.operations(),
            DispatchState { ctx: c6, bag: b6, err: None },
        );
    }
    let ghost c7 = *ctx;
    let ghost b7 = cfg@;
    match reg.dispatch(Hook::ReadBeforeTransmit, ctx, cfg) {
        Err(e) => {
            proof {
                lemma_run_hook_keeps_fields(
                    Hook::ReadBeforeTransmit,
                    reg.clients() + reg.operations(),
                    DispatchState { ctx: c7, bag: b7, err: None },
                );
            }
            ctx.record_failure(e);
            return finish_attempt_exec(reg, ctx, cfg);
        },
        Ok(()) => {},
    }
    proof {
        lemma_run_hook_keeps_fields(
            Hook::ReadBeforeTransmit,
            reg.clients() + reg.operations(),
            DispatchState { ctx: c7, bag: b7, err: None },
        );
    }
    let txr = transport.transmit(attempt, &ctx.tx_request.unwrap());
    ctx.tx_response = Some(txr);
    let ghost c8 = *ctx;
    let ghost b8 = cfg@;
    match reg.dispatch(Hook::ReadAfterTransmit, ctx, cfg) {
        Err(e) => {
            proof {
                lemma_run_hook_keeps_fields(
                    Hook::ReadAfterTransmit,
                    reg.clients() + reg.operations(),
                    DispatchState { ctx: c8, bag: b8, err: None },
                );
            }
            ctx.record_failure(e);
            return finish_attempt_exec(reg, ctx, cfg);
        },
        Ok(()) => {},
    }
    proof {
        lemma_run_hook_keeps_fields(
            Hook::ReadAfterTransmit,
            reg.clients() + reg.operations(),
            DispatchState { ctx: c8, bag: b8, err: None },
        );
    }
    let ghost c9 = *ctx;
    let ghost b9 = cfg@;
    match reg.dispatch(Hook::ModifyBeforeDeserialization, ctx, cfg) {
        Err(e) => {
            proof {
                lemma_run_hook_keeps_fields(
                    Hook::ModifyBeforeDeserialization,
                    reg.clients() + reg.operations(),
                    DispatchState { ctx: c9, bag: b9, err: None },
                );
            }
            ctx.record_failure(e);
            return finish_attempt_exec(reg, ctx, cfg);
        },
        Ok(()) => {},
    }
    proof {
        lemma_run_hook_keeps_fields(
            Hook::ModifyBeforeDeserialization,
            reg.clients() + reg.operations(),
            DispatchState { ctx: c9, bag: b9, err: None },
        );
    }
    let ghost c10 = *ctx;
    let ghost b10 = cfg@;
    match reg.dispatch(Hook::ReadBeforeDeserialization, ctx, cfg) {
        Err(e) => {
            proof {
                lemma_run_hook_keeps_fields(
                    Hook::ReadBeforeDeserialization,
                    reg.clients() + reg.operations(),
                    DispatchState { ctx: c10, bag: b10, err: None },
                );
            }
            ctx.record_failure(e);
            return finish_attempt_exec(reg, ctx, cfg);
        },
        Ok(()) => {},
    }
    proof {
        lemma_run_hook_keeps_fields(
            Hook::ReadBeforeDeserialization,
            reg.clients() + reg.operations(),
            DispatchState { ctx: c10, bag: b10, err: None },
        );
    }
    let outcome = transport.deserialize(&ctx.tx_response.unwrap());
    ctx.modeled_response = Some(outcome);
    let ghost c11 = *ctx;
    let ghost b11 = cfg@;
    match reg.dispatch(Hook::ReadAfterDeserialization, ctx, cfg) {
        Err(e) => {
            proof {
                lemma_run_hook_keeps_fields(
                    Hook::ReadAfterDeserialization,
                    reg.clients() + reg.operations(),
                    DispatchState { ctx: c11, bag: b11, err: None },
                );
            }
            ctx.record_failure(e);
            return finish_attempt_exec(reg, ctx, cfg);
        },
        Ok(()) => {},
    }
    proof {
        lemma_run_hook_keeps_fields(
            Hook::ReadAfterDeserialization,
            reg.clients() + reg.operations(),
            DispatchState { ctx: c11, bag: b11, err: None },
        );
    }
    finish_attempt_exec(reg, ctx, cfg)
}

/// Runs execution completion and surfaces the final modeled response: the
/// only outcome the caller of the execution ever sees.
fn run_completion<I: Interceptor>(
    reg: &Interceptors<I>,
    ctx: &mut InterceptorContext,
    cfg: &mut ConfigBag,
) -> (response: Response)
    requires
        old(ctx).modeled_response is Some,
    ensures
        ({
            let out = completion_spec(reg.clients(), reg.operations(), *old(ctx), old(cfg)@);
            response == out.0 && final(cfg)@ == out.1
        }),
{
    let ghost c0 = *ctx;
    let ghost b0 = cfg@;
    match reg.dispatch(Hook::ModifyBeforeCompletion, ctx, cfg) {
        Err(e) => {
            ctx.record_failure(e);
        },
        Ok(()) => {},
    }
    proof {
        lemma_run_hook_keeps_fields(
            Hook::ModifyBeforeCompletion,
            reg.clients() + reg.operations(),
            DispatchState { ctx: c0, bag: b0, err: None },
        );
    }
    let ghost c2 = *ctx;
    let ghost b2 = cfg@;
    match reg.dispatch(Hook::ReadAfterExecution, ctx, cfg) {
        Err(e) => {
            ctx.record_failure(e);
        },
        Ok(()) => {},
    }
    proof {
        lemma_run_hook_keeps_fields(
            Hook::ReadAfterExecution,
            reg.clients() + reg.operations(),
            DispatchState { ctx: c2, bag: b2, err: None },
        );
    }
    ctx.modeled_response.unwrap()
}

/// What one execution surfaces: the final modeled response, and how many
/// attempts were made (0 when the execution never entered the attempt
/// loop).
#[derive(Clone, Copy, PartialEq, Eq, Structural, Debug)]
pub struct ExecutionOutcome {
    pub response: Response,
    pub attempts: u64,
}

/// Drives one whole execution: the pre-loop phases, the initial retry
/// gate, the attempt loop with a strategy consultation after each
/// completed attempt (capped at `max_attempts` attempts), and execution
/// completion. The contract pins the result to the spec-level pipeline on
/// every path:
///
/// - a pre-loop dispatch error jumps to completion with that error as the
///   modeled response and no attempt made;
/// - a rejection at the initial gate proceeds directly to completion with
///   the rejection as the modeled response and no attempt-phase hook ever
///   invoked;
/// - otherwise attempts run from the pre-loop snapshot until the first
///   attempt after which the loop does not continue, and the surfaced
///   outcome is the completion fold over that attempt's exit state.
pub fn run_execution<I: Interceptor, T: Transport, S: RetryStrategy>(
    interceptors: &Interceptors<I>,
    transport: &T,
    strategy: &S,
    input: Payload,
    output_tag: u64,
    cfg: &mut ConfigBag,
    max_attempts: u64,
) -> (outcome: ExecutionOutcome)
    requires
        1 <= max_attempts,
    ensures
        ({
            let cs = interceptors.clients();
            let os = interceptors.operations();
            let p = preloop_spec(cs, os, *transport, initial_context(input, output_tag), old(cfg)@);
            let gate = strategy.initial_model(p.bag);
            let lm = RetryLoopModel {
                clients: cs,
                operations: os,
                transport: *transport,
                strategy: *strategy,
                max_attempts,
                base: p.ctx,
                bag0: gate.0,
            };
            if p.err is Some {
                outcome.attempts == 0 && (outcome.response, final(cfg)@) == completion_spec(
                    cs,
                    os,
                    p.ctx,
                    p.bag,
                )
            } else if gate.1 is Err {
                outcome.attempts == 0 && (outcome.response, final(cfg)@) == completion_spec(
                    cs,
                    os,
                    with_failure(p.ctx, OperationError::Strategy { error: gate.1->Err_0 }),
                    gate.0,
                )
            } else {
                &&& 1 <= outcome.attempts <= max_attempts
                &&& forall|j: u64| 1 <= j < outcome.attempts ==> continues(lm, j)
                &&& !continues(lm, outcome.attempts)
                &&& (outcome.response, final(cfg)@) == completion_spec(
                    cs,
                    os,
                    loop_exit(lm, outcome.attempts).0,
                    loop_exit(lm, outcome.attempts).1,
                )
            }
        }),
{
    let mut ctx = InterceptorContext::new(input, output_tag);
    let ok = run_preloop(interceptors, transport, &mut ctx, cfg);
    if !ok {
        let response = run_completion(interceptors, &mut ctx, cfg);
        return ExecutionOutcome { response, attempts: 0 };
    }
    proof {
        lemma_preloop_ready(
            interceptors.clients(),
            interceptors.operations(),
            *transport,
            initial_context(input, output_tag),
            old(cfg)@,
        );
    }
    match strategy.should_attempt_initial_request(cfg) {
        Err(e) => {
            ctx.record_failure(OperationError::Strategy { error: e });
            let response = run_completion(interceptors, &mut ctx, cfg);
            return ExecutionOutcome { response, attempts: 0 };
        },
        Ok(()) => {},
    }
    let base_ctx = ctx;
    let ghost lm = RetryLoopModel {
        clients: interceptors.clients(),
        operations: interceptors.operations(),
        transport: *transport,
        strategy: *strategy,
        max_attempts,
        base: base_ctx,
        bag0: cfg@,
    };
    let mut attempt: u64 = 1;
    loop
        invariant_except_break
            lm.clients == interceptors.clients(),
            lm.operations == interceptors.operations(),
            lm.transport == *transport,
            lm.strategy == *strategy,
            lm.max_attempts == max_attempts,
            lm.base == base_ctx,
            base_ctx.tx_request is Some,
            1 <= attempt <= max_attempts,
            cfg@ == bag_before_attempt(lm, attempt),
            forall|j: u64| 1 <= j < attempt ==> continues(lm, j),
        ensures
            1 <= attempt <= max_attempts,
            forall|j: u64| 1 <= j < attempt ==> continues(lm, j),
            !continues(lm, attempt),
            (ctx, cfg@) == loop_exit(lm, attempt),
        decreases max_attempts - attempt,
    {
        ctx = base_ctx;
        let halt = run_attempt(interceptors, transport, &mut ctx, cfg, attempt);
        if halt {
            break ;
        }
        if attempt == max_attempts {
            break ;
        }
        proof {
            lemma_attempt_populates(
                lm.clients,
                lm.operations,
                lm.transport,
                lm.base,
                bag_before_attempt(lm, attempt),
                attempt,
            );
        }
        let resp = ctx.modeled_response.unwrap();
        match strategy.should_attempt_retry(&resp, cfg) {
            Err(e) => {
                ctx.record_failure(OperationError::Strategy { error: e });
                break ;
            },
            Ok(true) => {
                attempt = attempt + 1;
            },
            Ok(false) => {
                break ;
            },
        }
    }
    proof {
        lemma_exit_populates(lm, attempt);
    }
    let response = run_completion(interceptors, &mut ctx, cfg);
    ExecutionOutcome { response, attempts: attempt }
}

} // verus!
