use interceptor_pipeline::config_bag::ConfigBag;
use interceptor_pipeline::hook::Hook;
use interceptor_pipeline::interceptors::HookAction;
use interceptor_pipeline::interceptors::Interceptors;
use interceptor_pipeline::orchestrator::run_execution;
use interceptor_pipeline::payload::OperationError;
use interceptor_pipeline::payload::Payload;
use interceptor_pipeline::payload::Response;
use interceptor_pipeline::retry::CircuitBreakerStrategy;
use interceptor_pipeline::retry::ErroringStrategy;
use interceptor_pipeline::retry::GetObjectRetryStrategy;
use interceptor_pipeline::scripted::Script;
use interceptor_pipeline::scripted::ScriptedInterceptor;
use interceptor_pipeline::transport::EchoTransport;

const REQ_TAG: u64 = 1;
const TX_TAG: u64 = 2;
const RES_TAG: u64 = 3;
const OUT_TAG: u64 = 4;
const ERR_TAG: u64 = 5;
const TRACE_KEY: u64 = 9;

fn transport(succeed_from: u64) -> EchoTransport {
    EchoTransport {
        tx_tag: TX_TAG,
        response_tag: RES_TAG,
        output_tag: OUT_TAG,
        error_tag: ERR_TAG,
        succeed_from,
    }
}

fn input() -> Payload {
    Payload { tag: REQ_TAG, data: 10 }
}

#[test]
fn happy_path_single_attempt() {
    let reg = Interceptors::<ScriptedInterceptor>::new();
    let strategy = GetObjectRetryStrategy::new();
    let mut cfg = ConfigBag::new();
    let out = run_execution(&reg, &transport(1), &strategy, input(), OUT_TAG, &mut cfg, 5);
    assert_eq!(out.attempts, 1);
    assert_eq!(out.response, Response::Output(Payload { tag: OUT_TAG, data: 10 }));
}

#[test]
fn retry_loop_three_attempts() {
    // the strategy grants a retry exactly twice: before_attempt runs three times
    let mut reg = Interceptors::<ScriptedInterceptor>::new();
    reg.with_client_interceptor(ScriptedInterceptor::new(Script::TraceTxRequest {
        at: Hook::ReadBeforeAttempt,
        key: TRACE_KEY,
    }));
    let strategy = GetObjectRetryStrategy::with_max_retries(2);
    let mut cfg = ConfigBag::new();
    let out = run_execution(&reg, &transport(100), &strategy, input(), OUT_TAG, &mut cfg, 10);
    assert_eq!(out.attempts, 3);
    assert_eq!(
        out.response,
        Response::Failure(OperationError::Operation { error: Payload { tag: ERR_TAG, data: 0 } })
    );
    // three marks of 10 mod 8 == 2: before_attempt saw the base request thrice
    assert_eq!(cfg.get(TRACE_KEY), Some(0o222));
}

#[test]
fn retry_then_success() {
    let reg = Interceptors::<ScriptedInterceptor>::new();
    let strategy = GetObjectRetryStrategy::new();
    let mut cfg = ConfigBag::new();
    let out = run_execution(&reg, &transport(2), &strategy, input(), OUT_TAG, &mut cfg, 5);
    assert_eq!(out.attempts, 2);
    assert_eq!(out.response, Response::Output(Payload { tag: OUT_TAG, data: 10 }));
}

#[test]
fn retry_gating_rejection_skips_attempts() {
    let rejection = Payload { tag: ERR_TAG, data: 7 };
    let mut reg = Interceptors::<ScriptedInterceptor>::new();
    reg.with_client_interceptor(ScriptedInterceptor::new(Script::TraceTxRequest {
        at: Hook::ReadBeforeAttempt,
        key: TRACE_KEY,
    }));
    let strategy = CircuitBreakerStrategy { rejection: Some(rejection) };
    let mut cfg = ConfigBag::new();
    let out = run_execution(&reg, &transport(1), &strategy, input(), OUT_TAG, &mut cfg, 5);
    assert_eq!(out.attempts, 0);
    assert_eq!(
        out.response,
        Response::Failure(OperationError::Strategy { error: rejection })
    );
    // no attempt-phase hook was ever invoked
    assert_eq!(cfg.get(TRACE_KEY), None);
}

#[test]
fn closed_circuit_breaker_admits() {
    let reg = Interceptors::<ScriptedInterceptor>::new();
    let strategy = CircuitBreakerStrategy { rejection: None };
    let mut cfg = ConfigBag::new();
    let out = run_execution(&reg, &transport(1), &strategy, input(), OUT_TAG, &mut cfg, 5);
    assert_eq!(out.attempts, 1);
    assert_eq!(out.response, Response::Output(Payload { tag: OUT_TAG, data: 10 }));
}

#[test]
fn attempt_isolation_across_retries() {
    // attempt 1's transport-request mutation is not visible at the start of
    // attempt 2: only the pre-loop request carries forward
    let mut reg = Interceptors::<ScriptedInterceptor>::new();
    reg.with_client_interceptor(ScriptedInterceptor::new(Script::TraceTxRequest {
        at: Hook::ReadBeforeAttempt,
        key: TRACE_KEY,
    }));
    reg.with_client_interceptor(ScriptedInterceptor::new(Script::ActAt {
        at: Hook::ModifyBeforeTransmit,
        action: HookAction::Replace { value: Payload { tag: TX_TAG, data: 7 } },
    }));
    let strategy = GetObjectRetryStrategy::new();
    let mut cfg = ConfigBag::new();
    let out = run_execution(&reg, &transport(2), &strategy, input(), OUT_TAG, &mut cfg, 5);
    assert_eq!(out.attempts, 2);
    // both attempts started from data 10 (mark 2), never from the mutated 7
    assert_eq!(cfg.get(TRACE_KEY), Some(0o22));
    // while within each attempt the mutation did reach the transport
    assert_eq!(out.response, Response::Output(Payload { tag: OUT_TAG, data: 7 }));
}

#[test]
fn strategy_error_is_fatal() {
    let e = Payload { tag: ERR_TAG, data: 9 };
    let reg = Interceptors::<ScriptedInterceptor>::new();
    let strategy = ErroringStrategy { error: e };
    let mut cfg = ConfigBag::new();
    let out = run_execution(&reg, &transport(100), &strategy, input(), OUT_TAG, &mut cfg, 5);
    assert_eq!(out.attempts, 1);
    assert_eq!(out.response, Response::Failure(OperationError::Strategy { error: e }));
}

#[test]
fn terminal_visibility_on_early_failure() {
    let e = Payload { tag: ERR_TAG, data: 4 };
    let mut reg = Interceptors::<ScriptedInterceptor>::new();
    reg.with_client_interceptor(ScriptedInterceptor::new(Script::ActAt {
        at: Hook::ReadBeforeExecution,
        action: HookAction::Fail { error: e },
    }));
    reg.with_client_interceptor(ScriptedInterceptor::new(Script::TraceResponsePresence {
        at: Hook::ReadAfterExecution,
        key: TRACE_KEY,
    }));
    let strategy = GetObjectRetryStrategy::new();
    let mut cfg = ConfigBag::new();
    let out = run_execution(&reg, &transport(1), &strategy, input(), OUT_TAG, &mut cfg, 5);
    assert_eq!(out.attempts, 0);
    // after_execution observed a populated modeled response
    assert_eq!(cfg.get(TRACE_KEY), Some(1));
    assert_eq!(
        out.response,
        Response::Failure(OperationError::Interceptor { hook: Hook::ReadBeforeExecution, error: e })
    );
}

#[test]
fn terminal_visibility_on_success() {
    let mut reg = Interceptors::<ScriptedInterceptor>::new();
    reg.with_client_interceptor(ScriptedInterceptor::new(Script::TraceResponsePresence {
        at: Hook::ReadAfterExecution,
        key: TRACE_KEY,
    }));
    let strategy = GetObjectRetryStrategy::new();
    let mut cfg = ConfigBag::new();
    let out = run_execution(&reg, &transport(1), &strategy, input(), OUT_TAG, &mut cfg, 5);
    assert_eq!(out.attempts, 1);
    assert_eq!(cfg.get(TRACE_KEY), Some(1));
    assert_eq!(out.response, Response::Output(Payload { tag: OUT_TAG, data: 10 }));
}

#[test]
fn preloop_failure_makes_no_attempt() {
    let e = Payload { tag: ERR_TAG, data: 6 };
    let mut reg = Interceptors::<ScriptedInterceptor>::new();
    reg.with_operation_interceptor(ScriptedInterceptor::new(Script::ActAt {
        at: Hook::ModifyBeforeRetryLoop,
        action: HookAction::Fail { error: e },
    }));
    let strategy = GetObjectRetryStrategy::new();
    let mut cfg = ConfigBag::new();
    let out = run_execution(&reg, &transport(1), &strategy, input(), OUT_TAG, &mut cfg, 5);
    assert_eq!(out.attempts, 0);
    assert_eq!(
        out.response,
        Response::Failure(OperationError::Interceptor {
            hook: Hook::ModifyBeforeRetryLoop,
            error: e
        })
    );
}

#[test]
fn before_attempt_failure_jumps_to_attempt_completion() {
    let e = Payload { tag: ERR_TAG, data: 2 };
    let mut reg = Interceptors::<ScriptedInterceptor>::new();
    reg.with_client_interceptor(ScriptedInterceptor::new(Script::ActAt {
        at: Hook::ReadBeforeAttempt,
        action: HookAction::Fail { error: e },
    }));
    reg.with_client_interceptor(ScriptedInterceptor::new(Script::TraceTxRequest {
        at: Hook::ModifyBeforeSigning,
        key: 11,
    }));
    reg.with_client_interceptor(ScriptedInterceptor::new(Script::TraceResponsePresence {
        at: Hook::ModifyBeforeAttemptCompletion,
        key: TRACE_KEY,
    }));
    let strategy = GetObjectRetryStrategy::with_max_retries(0);
    let mut cfg = ConfigBag::new();
    let out = run_execution(&reg, &transport(1), &strategy, input(), OUT_TAG, &mut cfg, 5);
    assert_eq!(out.attempts, 1);
    // the signing phase was skipped ...
    assert_eq!(cfg.get(11), None);
    // ... and attempt completion ran with the failure in place
    assert_eq!(cfg.get(TRACE_KEY), Some(1));
    assert_eq!(
        out.response,
        Response::Failure(OperationError::Interceptor { hook: Hook::ReadBeforeAttempt, error: e })
    );
}

#[test]
fn modify_before_serialization_end_to_end() {
    let mut reg = Interceptors::<ScriptedInterceptor>::new();
    reg.with_client_interceptor(ScriptedInterceptor::new(Script::ActAt {
        at: Hook::ModifyBeforeSerialization,
        action: HookAction::Replace { value: Payload { tag: REQ_TAG, data: 55 } },
    }));
    let strategy = GetObjectRetryStrategy::new();
    let mut cfg = ConfigBag::new();
    let out = run_execution(&reg, &transport(1), &strategy, input(), OUT_TAG, &mut cfg, 5);
    assert_eq!(out.response, Response::Output(Payload { tag: OUT_TAG, data: 55 }));
}

#[test]
fn attempt_cap_stops_retries() {
    let reg = Interceptors::<ScriptedInterceptor>::new();
    let strategy = GetObjectRetryStrategy::with_max_retries(100);
    let mut cfg = ConfigBag::new();
    let out = run_execution(&reg, &transport(100), &strategy, input(), OUT_TAG, &mut cfg, 2);
    assert_eq!(out.attempts, 2);
    assert_eq!(
        out.response,
        Response::Failure(OperationError::Operation { error: Payload { tag: ERR_TAG, data: 0 } })
    );
}

#[test]
fn attempt_completion_error_still_reaches_after_attempt() {
    let e = Payload { tag: ERR_TAG, data: 3 };
    let mut reg = Interceptors::<ScriptedInterceptor>::new();
    reg.with_client_interceptor(ScriptedInterceptor::new(Script::ActAt {
        at: Hook::ModifyBeforeAttemptCompletion,
        action: HookAction::Fail { error: e },
    }));
    reg.with_client_interceptor(ScriptedInterceptor::new(Script::TraceResponsePresence {
        at: Hook::ReadAfterAttempt,
        key: TRACE_KEY,
    }));
    let strategy = GetObjectRetryStrategy::with_max_retries(0);
    let mut cfg = ConfigBag::new();
    let out = run_execution(&reg, &transport(1), &strategy, input(), OUT_TAG, &mut cfg, 5);
    assert_eq!(out.attempts, 1);
    assert_eq!(cfg.get(TRACE_KEY), Some(1));
    assert_eq!(
        out.response,
        Response::Failure(OperationError::Interceptor {
            hook: Hook::ModifyBeforeAttemptCompletion,
            error: e
        })
    );
}

#[test]
fn type_violation_in_flight_becomes_outcome() {
    let wrong = Payload { tag: 77, data: 0 };
    let mut reg = Interceptors::<ScriptedInterceptor>::new();
    reg.with_client_interceptor(ScriptedInterceptor::new(Script::ActAt {
        at: Hook::ModifyBeforeTransmit,
        action: HookAction::Replace { value: wrong },
    }));
    let strategy = GetObjectRetryStrategy::with_max_retries(0);
    let mut cfg = ConfigBag::new();
    let out = run_execution(&reg, &transport(1), &strategy, input(), OUT_TAG, &mut cfg, 5);
    assert_eq!(out.attempts, 1);
    assert_eq!(
        out.response,
        Response::Failure(OperationError::TypeViolation {
            hook: Hook::ModifyBeforeTransmit,
            offered: wrong
        })
    );
}
