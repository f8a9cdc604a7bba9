//! The interceptor capability set and the two-tier registry that dispatches
//! a hook to every registered interceptor in order and aggregates outcomes
//! per the hook's error policy.
use vstd::prelude::*;

use crate::config_bag::ConfigBag;
use crate::context::target_present;
use crate::context::target_tag;
use crate::context::replace_target;
use crate::context::InterceptorContext;
use crate::context::phase_ready;
use crate::hook::hook_is_collect;
use crate::hook::hook_modify_target;
use crate::hook::is_collect_hook;
use crate::hook::modify_target;
use crate::hook::Hook;
use crate::hook::ModifyTarget;
use crate::payload::OperationError;
use crate::payload::Payload;
use crate::payload::Response;

verus! {

/// What one interceptor asks for when a hook reaches it.
#[derive(Clone, Copy, PartialEq, Eq, Structural, Debug)]
#[allow(inconsistent_fields)]
pub enum HookAction {
    /// Do nothing.
    Proceed,
    /// Write `value` under `key` in the configuration bag.
    PutConfig { key: u64, value: u64 },
    /// Raise an error; the phase's error policy decides what happens next.
    Fail { error: Payload },
    /// At a modify hook, replace the phase's field with `value`; the value
    /// must carry the same type tag as the field it replaces (for the
    /// modeled response: the operation's output tag). At a read hook the
    /// request is ignored.
    Replace { value: Payload },
    /// At a response-modify hook, replace the modeled response with a
    /// failure carrying `error`; any error type is admitted. At another
    /// modify hook this is a type violation; at a read hook it is ignored.
    InjectError { error: Payload },
}

/// An extension point of the pipeline. Implementations decide, per hook,
/// what to ask of the dispatcher; the exec method is pinned to the pure
/// model `on_hook`, so everything proved about a dispatch holds of every
/// implementation.
pub trait Interceptor: Sized {
    /// The pure model: what the interceptor asks for at `hook`, given the
    /// context and the bag it observes.
    spec fn on_hook(&self, hook: Hook, ctx: InterceptorContext, bag: Map<u64, u64>) -> HookAction;

    /// Invokes the hook.
    fn call_hook(&self, hook: Hook, ctx: &InterceptorContext, cfg: &ConfigBag) -> (action:
        HookAction)
        ensures
            action == self.on_hook(hook, *ctx, cfg@),
    ;
}

/// State a dispatch threads through the registered interceptors.
pub struct DispatchState {
    pub ctx: InterceptorContext,
    pub bag: Map<u64, u64>,
    pub err: Option<OperationError>,
}

/// Effect of one action on context and bag; the third component is the
/// error it raises, if any. A `Replace` whose value's tag differs from the
/// target field's tag is never accepted silently: it leaves the context
/// unchanged and raises a type violation.
pub open spec fn apply_action(
    hook: Hook,
    action: HookAction,
    ctx: InterceptorContext,
    bag: Map<u64, u64>,
) -> (InterceptorContext, Map<u64, u64>, Option<OperationError>) {
    match action {
        HookAction::Proceed => (ctx, bag, None),
        HookAction::PutConfig { key, value } => (ctx, bag.insert(key, value), None),
        HookAction::Fail { error } => (
            ctx,
            bag,
            Some(OperationError::Interceptor { hook, error }),
        ),
        HookAction::Replace { value } => match modify_target(hook) {
            None => (ctx, bag, None),
            Some(t) => {
                if target_present(t, ctx) && value.tag == target_tag(t, ctx) {
                    (replace_target(t, ctx, value), bag, None)
                } else {
                    (ctx, bag, Some(OperationError::TypeViolation { hook, offered: value }))
                }
            },
        },
        HookAction::InjectError { error } => match modify_target(hook) {
            None => (ctx, bag, None),
            Some(ModifyTarget::ModeledResponse) => (
                InterceptorContext {
                    modeled_response: Some(
                        Response::Failure(OperationError::Operation { error }),
                    ),
                    ..ctx
                },
                bag,
                None,
            ),
            Some(_) => (ctx, bag, Some(OperationError::TypeViolation { hook, offered: error })),
        },
    }
}

/// One interceptor's turn during a dispatch. At a fail-fast hook an earlier
/// error skips the interceptor; at a collect hook it still runs, and a new
/// error replaces the recorded one (last error wins).
pub open spec fn step_interceptor<I: Interceptor>(
    hook: Hook,
    icpt: I,
    st: DispatchState,
) -> DispatchState {
    if st.err is Some && !is_collect_hook(hook) {
        st
    } else {
        let action = icpt.on_hook(hook, st.ctx, st.bag);
        let (ctx, bag, e) = apply_action(hook, action, st.ctx, st.bag);
        DispatchState {
            ctx,
            bag,
            err: if e is Some {
                e
            } else {
                st.err
            },
        }
    }
}

/// The sequential fold of one hook over a list of interceptors, first to
/// last.
pub open spec fn run_hook<I: Interceptor>(hook: Hook, s: Seq<I>, st: DispatchState) -> DispatchState
    decreases s.len(),
{
    if s.len() == 0 {
        st
    } else {
        step_interceptor(hook, s.last(), run_hook(hook, s.drop_last(), st))
    }
}

/// What a dispatch of `hook` leaves behind: the fold over all client-scoped
/// interceptors followed by all operation-scoped ones.
pub open spec fn dispatch_result<I: Interceptor>(
    hook: Hook,
    clients: Seq<I>,
    operations: Seq<I>,
    ctx: InterceptorContext,
    bag: Map<u64, u64>,
) -> DispatchState {
    run_hook(hook, clients + operations, DispatchState { ctx, bag, err: None })
}

/// Ordering law: running a hook over two lists in sequence is running it
/// over the first list, then over the second from where the first left off.
/// In particular every dispatch invokes all client-scoped interceptors, in
/// registration order, before all operation-scoped ones.
pub proof fn lemma_run_hook_concat<I: Interceptor>(
    hook: Hook,
    s1: Seq<I>,
    s2: Seq<I>,
    st: DispatchState,
)
    ensures
        run_hook(hook, s1 + s2, st) == run_hook(hook, s2, run_hook(hook, s1, st)),
    decreases s2.len(),
{
    if s2.len() == 0 {
        assert(s1 + s2 =~= s1);
    } else {
        assert((s1 + s2).drop_last() =~= s1 + s2.drop_last());
        lemma_run_hook_concat(hook, s1, s2.drop_last(), st);
    }
}

/// Ordering law at the registry level: a dispatch is the client fold
/// followed by the operation fold.
pub proof fn lemma_dispatch_order<I: Interceptor>(
    hook: Hook,
    clients: Seq<I>,
    operations: Seq<I>,
    ctx: InterceptorContext,
    bag: Map<u64, u64>,
)
    ensures
        dispatch_result(hook, clients, operations, ctx, bag) == run_hook(
            hook,
            operations,
            run_hook(hook, clients, DispatchState { ctx, bag, err: None }),
        ),
{
    lemma_run_hook_concat(hook, clients, operations, DispatchState { ctx, bag, err: None });
}

/// Type preservation law: a modify hook offered a replacement of the wrong
/// type changes nothing and raises a type violation — never a silent
/// acceptance.
pub proof fn lemma_type_preservation(
    hook: Hook,
    t: ModifyTarget,
    value: Payload,
    ctx: InterceptorContext,
    bag: Map<u64, u64>,
)
    requires
        modify_target(hook) == Some(t),
        target_present(t, ctx),
        value.tag != target_tag(t, ctx),
    ensures
        apply_action(hook, HookAction::Replace { value }, ctx, bag) == (
            ctx,
            bag,
            Some(OperationError::TypeViolation { hook, offered: value }),
        ),
{
}

/// A dispatch never clears a populated context field, and never changes the
/// operation's output tag.
pub proof fn lemma_run_hook_keeps_fields<I: Interceptor>(hook: Hook, s: Seq<I>, st: DispatchState)
    ensures
        st.ctx.tx_request is Some ==> run_hook(hook, s, st).ctx.tx_request is Some,
        st.ctx.tx_response is Some ==> run_hook(hook, s, st).ctx.tx_response is Some,
        st.ctx.modeled_response is Some ==> run_hook(hook, s, st).ctx.modeled_response is Some,
        run_hook(hook, s, st).ctx.output_tag == st.ctx.output_tag,
    decreases s.len(),
{
    if s.len() > 0 {
        lemma_run_hook_keeps_fields(hook, s.drop_last(), st);
    }
}

/// Exec mirror of [`apply_action`].
fn apply_action_exec(
    hook: Hook,
    action: HookAction,
    ctx: &mut InterceptorContext,
    cfg: &mut ConfigBag,
) -> (err: Option<OperationError>)
    ensures
        ({
            let (c2, b2, e) = apply_action(hook, action, *old(ctx), old(cfg)@);
            *final(ctx) == c2 && final(cfg)@ == b2 && err == e
        }),
{
    match action {
        HookAction::Proceed => None,
        HookAction::PutConfig { key, value } => {
            cfg.insert(key, value);
            None
        },
        HookAction::Fail { error } => Some(OperationError::Interceptor { hook, error }),
        HookAction::Replace { value } => match hook_modify_target(hook) {
            None => None,
            Some(t) => {
                let (present, tag): (bool, u64) = match t {
                    ModifyTarget::ModeledRequest => (true, ctx.modeled_request.tag),
                    ModifyTarget::TxRequest => match &ctx.tx_request {
                        Some(p) => (true, p.tag),
                        None => (false, 0),
                    },
                    ModifyTarget::TxResponse => match &ctx.tx_response {
                        Some(p) => (true, p.tag),
                        None => (false, 0),
                    },
                    ModifyTarget::ModeledResponse => (true, ctx.output_tag),
                };
                if present && value.tag == tag {
                    match t {
                        ModifyTarget::ModeledRequest => {
                            ctx.modeled_request = value;
                        },
                        ModifyTarget::TxRequest => {
                            ctx.tx_request = Some(value);
                        },
                        ModifyTarget::TxResponse => {
                            ctx.tx_response = Some(value);
                        },
                        ModifyTarget::ModeledResponse => {
                            ctx.modeled_response = Some(Response::Output(value));
                        },
                    }
                    None
                } else {
                    Some(OperationError::TypeViolation { hook, offered: value })
                }
            },
        },
        HookAction::InjectError { error } => match hook_modify_target(hook) {
            None => None,
            Some(ModifyTarget::ModeledResponse) => {
                ctx.modeled_response = Some(Response::Failure(OperationError::Operation { error }));
                None
            },
            Some(_) => Some(OperationError::TypeViolation { hook, offered: error }),
        },
    }
}

/// How the recorded error leaves a dispatch.
pub open spec fn dispatch_verdict(err: Option<OperationError>) -> Result<(), OperationError> {
    match err {
        None => Ok(()),
        Some(e) => Err(e),
    }
}


/// Read phases cannot mutate the execution context: a hook with no modify
/// target leaves the context exactly as it found it, whatever the
/// registered interceptors ask for.
pub proof fn lemma_read_hook_ctx<I: Interceptor>(hook: Hook, s: Seq<I>, st: DispatchState)
    requires
        modify_target(hook) is None,
    ensures
        run_hook(hook, s, st).ctx == st.ctx,
    decreases s.len(),
{
    if s.len() > 0 {
        lemma_read_hook_ctx(hook, s.drop_last(), st);
    }
}

/// The two-tier interceptor registry: an insertion-ordered list of
/// client-scoped interceptors and one of operation-scoped interceptors. The
/// registry holds no per-execution state.
pub struct Interceptors<I> {
    client_interceptors: Vec<I>,
    operation_interceptors: Vec<I>,
}

impl<I: Interceptor> Default for Interceptors<I> {
    /// An empty registry.
    fn default() -> (r: Interceptors<I>)
        ensures
            r.clients() == Seq::<I>::empty(),
            r.operations() == Seq::<I>::empty(),
    {
        Interceptors { client_interceptors: Vec::new(), operation_interceptors: Vec::new() }
    }
}

impl<I: Interceptor> Interceptors<I> {
    /// The registered client-scoped interceptors, in registration order.
    pub closed spec fn clients(&self) -> Seq<I> {
        self.client_interceptors@
    }

    /// The registered operation-scoped interceptors, in registration order.
    pub closed spec fn operations(&self) -> Seq<I> {
        self.operation_interceptors@
    }

    /// An empty registry.
    pub fn new() -> (r: Interceptors<I>)
        ensures
            r.clients() == Seq::<I>::empty(),
            r.operations() == Seq::<I>::empty(),
    {
        Interceptors { client_interceptors: Vec::new(), operation_interceptors: Vec::new() }
    }

    /// Registers a client-scoped interceptor after all registered so far.
    pub fn with_client_interceptor(&mut self, interceptor: I)
        ensures
            final(self).clients() == old(self).clients().push(interceptor),
            final(self).operations() == old(self).operations(),
    {
        self.client_interceptors.push(interceptor);
    }

    /// Registers an operation-scoped interceptor after all registered so
    /// far.
    pub fn with_operation_interceptor(&mut self, interceptor: I)
        ensures
            final(self).operations() == old(self).operations().push(interceptor),
            final(self).clients() == old(self).clients(),
    {
        self.operation_interceptors.push(interceptor);
    }


    /// Dispatches the `read_before_execution` phase; a read phase leaves the context as
    /// it is.
    pub fn read_before_execution(&self, ctx: &InterceptorContext, cfg: &mut ConfigBag) -> (r: Result<
        (),
        OperationError,
    >)
        requires
            phase_ready(Hook::ReadBeforeExecution, *ctx),
        ensures
            ({
                let st = dispatch_result(
                    Hook::ReadBeforeExecution,
                    self.clients(),
                    self.operations(),
                    *ctx,
                    old(cfg)@,
                );
                final(cfg)@ == st.bag && r == dispatch_verdict(st.err) && st.ctx == *ctx
            }),
    {
        proof {
            lemma_read_hook_ctx(
                Hook::ReadBeforeExecution,
                self.clients() + self.operations(),
                DispatchState { ctx: *ctx, bag: cfg@, err: None },
            );
        }
        let mut scratch = *ctx;
        self.dispatch(Hook::ReadBeforeExecution, &mut scratch, cfg)
    }

    /// Dispatches the `modify_before_serialization` phase; interceptors may replace the
    /// phase's context field.
    pub fn modify_before_serialization(&self, ctx: &mut InterceptorContext, cfg: &mut ConfigBag) -> (r: Result<
        (),
        OperationError,
    >)
        requires
            phase_ready(Hook::ModifyBeforeSerialization, *old(ctx)),
        ensures
            ({
                let st = dispatch_result(
                    Hook::ModifyBeforeSerialization,
                    self.clients(),
                    self.operations(),
                    *old(ctx),
                    old(cfg)@,
                );
                *final(ctx) == st.ctx && final(cfg)@ == st.bag && r == dispatch_verdict(st.err)
            }),
    {
        self.dispatch(Hook::ModifyBeforeSerialization, ctx, cfg)
    }

    /// Dispatches the `read_before_serialization` phase; a read phase leaves the context as
    /// it is.
    pub fn read_before_serialization(&self, ctx: &InterceptorContext, cfg: &mut ConfigBag) -> (r: Result<
        (),
        OperationError,
    >)
        requires
            phase_ready(Hook::ReadBeforeSerialization, *ctx),
        ensures
            ({
                let st = dispatch_result(
                    Hook::ReadBeforeSerialization,
                    self.clients(),
                    self.operations(),
                    *ctx,
                    old(cfg)@,
                );
                final(cfg)@ == st.bag && r == dispatch_verdict(st.err) && st.ctx == *ctx
            }),
    {
        proof {
            lemma_read_hook_ctx(
                Hook::ReadBeforeSerialization,
                self.clients() + self.operations(),
                DispatchState { ctx: *ctx, bag: cfg@, err: None },
            );
        }
        let mut scratch = *ctx;
        self.dispatch(Hook::ReadBeforeSerialization, &mut scratch, cfg)
    }

    /// Dispatches the `read_after_serialization` phase; a read phase leaves the context as
    /// it is.
    pub fn read_after_serialization(&self, ctx: &InterceptorContext, cfg: &mut ConfigBag) -> (r: Result<
        (),
        OperationError,
    >)
        requires
            phase_ready(Hook::ReadAfterSerialization, *ctx),
        ensures
            ({
                let st = dispatch_result(
                    Hook::ReadAfterSerialization,
                    self.clients(),
                    self.operations(),
                    *ctx,
                    old(cfg)@,
                );
                final(cfg)@ == st.bag && r == dispatch_verdict(st.err) && st.ctx == *ctx
            }),
    {
        proof {
            lemma_read_hook_ctx(
                Hook::ReadAfterSerialization,
                self.clients() + self.operations(),
                DispatchState { ctx: *ctx, bag: cfg@, err: None },
            );
        }
        let mut scratch = *ctx;
        self.dispatch(Hook::ReadAfterSerialization, &mut scratch, cfg)
    }

    /// Dispatches the `modify_before_retry_loop` phase; interceptors may replace the
    /// phase's context field.
    pub fn modify_before_retry_loop(&self, ctx: &mut InterceptorContext, cfg: &mut ConfigBag) -> (r: Result<
        (),
        OperationError,
    >)
        requires
            phase_ready(Hook::ModifyBeforeRetryLoop, *old(ctx)),
        ensures
            ({
                let st = dispatch_result(
                    Hook::ModifyBeforeRetryLoop,
                    self.clients(),
                    self.operations(),
                    *old(ctx),
                    old(cfg)@,
                );
                *final(ctx) == st.ctx && final(cfg)@ == st.bag && r == dispatch_verdict(st.err)
            }),
    {
        self.dispatch(Hook::ModifyBeforeRetryLoop, ctx, cfg)
    }

    /// Dispatches the `read_before_attempt` phase; a read phase leaves the context as
    /// it is.
    pub fn read_before_attempt(&self, ctx: &InterceptorContext, cfg: &mut ConfigBag) -> (r: Result<
        (),
        OperationError,
    >)
        requires
            phase_ready(Hook::ReadBeforeAttempt, *ctx),
        ensures
            ({
                let st = dispatch_result(
                    Hook::ReadBeforeAttempt,
                    self.clients(),
                    self.operations(),
                    *ctx,
                    old(cfg)@,
                );
                final(cfg)@ == st.bag && r == dispatch_verdict(st.err) && st.ctx == *ctx
            }),
    {
        proof {
            lemma_read_hook_ctx(
                Hook::ReadBeforeAttempt,
                self.clients() + self.operations(),
                DispatchState { ctx: *ctx, bag: cfg@, err: None },
            );
        }
        let mut scratch = *ctx;
        self.dispatch(Hook::ReadBeforeAttempt, &mut scratch, cfg)
    }

    /// Dispatches the `modify_before_signing` phase; interceptors may replace the
    /// phase's context field.
    pub fn modify_before_signing(&self, ctx: &mut InterceptorContext, cfg: &mut ConfigBag) -> (r: Result<
        (),
        OperationError,
    >)
        requires
            phase_ready(Hook::ModifyBeforeSigning, *old(ctx)),
        ensures
            ({
                let st = dispatch_result(
                    Hook::ModifyBeforeSigning,
                    self.clients(),
                    self.operations(),
                    *old(ctx),
                    old(cfg)@,
                );
                *final(ctx) == st.ctx && final(cfg)@ == st.bag && r == dispatch_verdict(st.err)
            }),
    {
        self.dispatch(Hook::ModifyBeforeSigning, ctx, cfg)
    }

    /// Dispatches the `read_before_signing` phase; a read phase leaves the context as
    /// it is.
    pub fn read_before_signing(&self, ctx: &InterceptorContext, cfg: &mut ConfigBag) -> (r: Result<
        (),
        OperationError,
    >)
        requires
            phase_ready(Hook::ReadBeforeSigning, *ctx),
        ensures
            ({
                let st = dispatch_result(
                    Hook::ReadBeforeSigning,
                    self.clients(),
                    self.operations(),
                    *ctx,
                    old(cfg)@,
                );
                final(cfg)@ == st.bag && r == dispatch_verdict(st.err) && st.ctx == *ctx
            }),
    {
        proof {
            lemma_read_hook_ctx(
                Hook::ReadBeforeSigning,
                self.clients() + self.operations(),
                DispatchState { ctx: *ctx, bag: cfg@, err: None },
            );
        }
        let mut scratch = *ctx;
        self.dispatch(Hook::ReadBeforeSigning, &mut scratch, cfg)
    }

    /// Dispatches the `read_after_signing` phase; a read phase leaves the context as
    /// it is.
    pub fn read_after_signing(&self, ctx: &InterceptorContext, cfg: &mut ConfigBag) -> (r: Result<
        (),
        OperationError,
    >)
        requires
            phase_ready(Hook::ReadAfterSigning, *ctx),
        ensures
            ({
                let st = dispatch_result(
                    Hook::ReadAfterSigning,
                    self.clients(),
                    self.operations(),
                    *ctx,
                    old(cfg)@,
                );
                final(cfg)@ == st.bag && r == dispatch_verdict(st.err) && st.ctx == *ctx
            }),
    {
        proof {
            lemma_read_hook_ctx(
                Hook::ReadAfterSigning,
                self.clients() + self.operations(),
                DispatchState { ctx: *ctx, bag: cfg@, err: None },
            );
        }
        let mut scratch = *ctx;
        self.dispatch(Hook::ReadAfterSigning, &mut scratch, cfg)
    }

    /// Dispatches the `modify_before_transmit` phase; interceptors may replace the
    /// phase's context field.
    pub fn modify_before_transmit(&self, ctx: &mut InterceptorContext, cfg: &mut ConfigBag) -> (r: Result<
        (),
        OperationError,
    >)
        requires
            phase_ready(Hook::ModifyBeforeTransmit, *old(ctx)),
        ensures
            ({
                let st = dispatch_result(
                    Hook::ModifyBeforeTransmit,
                    self.clients(),
                    self.operations(),
                    *old(ctx),
                    old(cfg)@,
                );
                *final(ctx) == st.ctx && final(cfg)@ == st.bag && r == dispatch_verdict(st.err)
            }),
    {
        self.dispatch(Hook::ModifyBeforeTransmit, ctx, cfg)
    }

    /// Dispatches the `read_before_transmit` phase; a read phase leaves the context as
    /// it is.
    pub fn read_before_transmit(&self, ctx: &InterceptorContext, cfg: &mut ConfigBag) -> (r: Result<
        (),
        OperationError,
    >)
        requires
            phase_ready(Hook::ReadBeforeTransmit, *ctx),
        ensures
            ({
                let st = dispatch_result(
                    Hook::ReadBeforeTransmit,
                    self.clients(),
                    self.operations(),
                    *ctx,
                    old(cfg)@,
                );
                final(cfg)@ == st.bag && r == dispatch_verdict(st.err) && st.ctx == *ctx
            }),
    {
        proof {
            lemma_read_hook_ctx(
                Hook::ReadBeforeTransmit,
                self.clients() + self.operations(),
                DispatchState { ctx: *ctx, bag: cfg@, err: None },
            );
        }
        let mut scratch = *ctx;
        self.dispatch(Hook::ReadBeforeTransmit, &mut scratch, cfg)
    }

    /// Dispatches the `read_after_transmit` phase; a read phase leaves the context as
    /// it is.
    pub fn read_after_transmit(&self, ctx: &InterceptorContext, cfg: &mut ConfigBag) -> (r: Result<
        (),
        OperationError,
    >)
        requires
            phase_ready(Hook::ReadAfterTransmit, *ctx),
        ensures
            ({
                let st = dispatch_result(
                    Hook::ReadAfterTransmit,
                    self.clients(),
                    self.operations(),
                    *ctx,
                    old(cfg)@,
                );
                final(cfg)@ == st.bag && r == dispatch_verdict(st.err) && st.ctx == *ctx
            }),
    {
        proof {
            lemma_read_hook_ctx(
                Hook::ReadAfterTransmit,
                self.clients() + self.operations(),
                DispatchState { ctx: *ctx, bag: cfg@, err: None },
            );
        }
        let mut scratch = *ctx;
        self.dispatch(Hook::ReadAfterTransmit, &mut scratch, cfg)
    }

    /// Dispatches the `modify_before_deserialization` phase; interceptors may replace the
    /// phase's context field.
    pub fn modify_before_deserialization(&self, ctx: &mut InterceptorContext, cfg: &mut ConfigBag) -> (r: Result<
        (),
        OperationError,
    >)
        requires
            phase_ready(Hook::ModifyBeforeDeserialization, *old(ctx)),
        ensures
            ({
                let st = dispatch_result(
                    Hook::ModifyBeforeDeserialization,
                    self.clients(),
                    self.operations(),
                    *old(ctx),
                    old(cfg)@,
                );
                *final(ctx) == st.ctx && final(cfg)@ == st.bag && r == dispatch_verdict(st.err)
            }),
    {
        self.dispatch(Hook::ModifyBeforeDeserialization, ctx, cfg)
    }

    /// Dispatches the `read_before_deserialization` phase; a read phase leaves the context as
    /// it is.
    pub fn read_before_deserialization(&self, ctx: &InterceptorContext, cfg: &mut ConfigBag) -> (r: Result<
        (),
        OperationError,
    >)
        requires
            phase_ready(Hook::ReadBeforeDeserialization, *ctx),
        ensures
            ({
                let st = dispatch_result(
                    Hook::ReadBeforeDeserialization,
                    self.clients(),
                    self.operations(),
                    *ctx,
                    old(cfg)@,
                );
                final(cfg)@ == st.bag && r == dispatch_verdict(st.err) && st.ctx == *ctx
            }),
    {
        proof {
            lemma_read_hook_ctx(
                Hook::ReadBeforeDeserialization,
                self.clients() + self.operations(),
                DispatchState { ctx: *ctx, bag: cfg@, err: None },
            );
        }
        let mut scratch = *ctx;
        self.dispatch(Hook::ReadBeforeDeserialization, &mut scratch, cfg)
    }

    /// Dispatches the `read_after_deserialization` phase; a read phase leaves the context as
    /// it is.
    pub fn read_after_deserialization(&self, ctx: &InterceptorContext, cfg: &mut ConfigBag) -> (r: Result<
        (),
        OperationError,
    >)
        requires
            phase_ready(Hook::ReadAfterDeserialization, *ctx),
        ensures
            ({
                let st = dispatch_result(
                    Hook::ReadAfterDeserialization,
                    self.clients(),
                    self.operations(),
                    *ctx,
                    old(cfg)@,
                );
                final(cfg)@ == st.bag && r == dispatch_verdict(st.err) && st.ctx == *ctx
            }),
    {
        proof {
            lemma_read_hook_ctx(
                Hook::ReadAfterDeserialization,
                self.clients() + self.operations(),
                DispatchState { ctx: *ctx, bag: cfg@, err: None },
            );
        }
        let mut scratch = *ctx;
        self.dispatch(Hook::ReadAfterDeserialization, &mut scratch, cfg)
    }

    /// Dispatches the `modify_before_attempt_completion` phase; interceptors may replace the
    /// phase's context field.
    pub fn modify_before_attempt_completion(&self, ctx: &mut InterceptorContext, cfg: &mut ConfigBag) -> (r: Result<
        (),
        OperationError,
    >)
        requires
            phase_ready(Hook::ModifyBeforeAttemptCompletion, *old(ctx)),
        ensures
            ({
                let st = dispatch_result(
                    Hook::ModifyBeforeAttemptCompletion,
                    self.clients(),
                    self.operations(),
                    *old(ctx),
                    old(cfg)@,
                );
                *final(ctx) == st.ctx && final(cfg)@ == st.bag && r == dispatch_verdict(st.err)
            }),
    {
        self.dispatch(Hook::ModifyBeforeAttemptCompletion, ctx, cfg)
    }

    /// Dispatches the `read_after_attempt` phase; a read phase leaves the context as
    /// it is.
    pub fn read_after_attempt(&self, ctx: &InterceptorContext, cfg: &mut ConfigBag) -> (r: Result<
        (),
        OperationError,
    >)
        requires
            phase_ready(Hook::ReadAfterAttempt, *ctx),
        ensures
            ({
                let st = dispatch_result(
                    Hook::ReadAfterAttempt,
                    self.clients(),
                    self.operations(),
                    *ctx,
                    old(cfg)@,
                );
                final(cfg)@ == st.bag && r == dispatch_verdict(st.err) && st.ctx == *ctx
            }),
    {
        proof {
            lemma_read_hook_ctx(
                Hook::ReadAfterAttempt,
                self.clients() + self.operations(),
                DispatchState { ctx: *ctx, bag: cfg@, err: None },
            );
        }
        let mut scratch = *ctx;
        self.dispatch(Hook::ReadAfterAttempt, &mut scratch, cfg)
    }

    /// Dispatches the `modify_before_completion` phase; interceptors may replace the
    /// phase's context field.
    pub fn modify_before_completion(&self, ctx: &mut InterceptorContext, cfg: &mut ConfigBag) -> (r: Result<
        (),
        OperationError,
    >)
        requires
            phase_ready(Hook::ModifyBeforeCompletion, *old(ctx)),
        ensures
            ({
                let st = dispatch_result(
                    Hook::ModifyBeforeCompletion,
                    self.clients(),
                    self.operations(),
                    *old(ctx),
                    old(cfg)@,
                );
                *final(ctx) == st.ctx && final(cfg)@ == st.bag && r == dispatch_verdict(st.err)
            }),
    {
        self.dispatch(Hook::ModifyBeforeCompletion, ctx, cfg)
    }

    /// Dispatches the `read_after_execution` phase; a read phase leaves the context as
    /// it is.
    pub fn read_after_execution(&self, ctx: &InterceptorContext, cfg: &mut ConfigBag) -> (r: Result<
        (),
        OperationError,
    >)
        requires
            phase_ready(Hook::ReadAfterExecution, *ctx),
        ensures
            ({
                let st = dispatch_result(
                    Hook::ReadAfterExecution,
                    self.clients(),
                    self.operations(),
                    *ctx,
                    old(cfg)@,
                );
                final(cfg)@ == st.bag && r == dispatch_verdict(st.err) && st.ctx == *ctx
            }),
    {
        proof {
            lemma_read_hook_ctx(
                Hook::ReadAfterExecution,
                self.clients() + self.operations(),
                DispatchState { ctx: *ctx, bag: cfg@, err: None },
            );
        }
        let mut scratch = *ctx;
        self.dispatch(Hook::ReadAfterExecution, &mut scratch, cfg)
    }

    /// Dispatches `hook` to every registered interceptor: all client-scoped
    /// ones in registration order, then all operation-scoped ones. At a
    /// collect hook every interceptor runs and the last-raised error wins;
    /// at a fail-fast hook the first error skips the rest. Field
    /// replacements become visible to the interceptors that follow in the
    /// same dispatch.
    pub fn dispatch(&self, hook: Hook, ctx: &mut InterceptorContext, cfg: &mut ConfigBag) -> (r:
        Result<(), OperationError>)
        requires
            phase_ready(hook, *old(ctx)),
        ensures
            ({
                let st = dispatch_result(
                    hook,
                    self.clients(),
                    self.operations(),
                    *old(ctx),
                    old(cfg)@,
                );
                *final(ctx) == st.ctx && final(cfg)@ == st.bag && r == dispatch_verdict(st.err)
            }),
    {
        let ghost st0 = DispatchState { ctx: *ctx, bag: cfg@, err: None };
        let mut err: Option<OperationError> = None;
        let mut i: usize = 0;
        while i < self.client_interceptors.len()
            invariant
                i <= self.clients().len(),
                (DispatchState { ctx: *ctx, bag: cfg@, err }) == run_hook(
                    hook,
                    self.clients().take(i as int),
                    st0,
                ),
            decreases self.clients().len() - i,
        {
            proof {
                assert(self.clients().take(i + 1 as int).drop_last() =~= self.clients().take(
                    i as int,
                ));
                assert(self.clients().take(i + 1 as int).last() == self.clients()[i as int]);
            }
            let skip = err.is_some() && !hook_is_collect(hook);
            if !skip {
                let action = self.client_interceptors[i].call_hook(hook, ctx, cfg);
                let e = apply_action_exec(hook, action, ctx, cfg);
                if e.is_some() {
                    err = e;
                }
            }
            i = i + 1;
        }
        proof {
            assert(self.clients().take(self.clients().len() as int) =~= self.clients());
        }
        let ghost st1 = run_hook(hook, self.clients(), st0);
        let mut j: usize = 0;
        while j < self.operation_interceptors.len()
            invariant
                j <= self.operations().len(),
                (DispatchState { ctx: *ctx, bag: cfg@, err }) == run_hook(
                    hook,
                    self.operations().take(j as int),
                    st1,
                ),
            decreases self.operations().len() - j,
        {
            proof {
                assert(self.operations().take(j + 1 as int).drop_last() =~= self.operations().take(
                    j as int,
                ));
                assert(self.operations().take(j + 1 as int).last() == self.operations()[j as int]);
            }
            let skip = err.is_some() && !hook_is_collect(hook);
            if !skip {
                let action = self.operation_interceptors[j].call_hook(hook, ctx, cfg);
                let e = apply_action_exec(hook, action, ctx, cfg);
                if e.is_some() {
                    err = e;
                }
            }
            j = j + 1;
        }
        proof {
            assert(self.operations().take(self.operations().len() as int) =~= self.operations());
            lemma_run_hook_concat(hook, self.clients(), self.operations(), st0);
        }
        match err {
            None => Ok(()),
            Some(e) => Err(e),
        }
    }
}

} // verus!
