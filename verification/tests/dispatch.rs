use interceptor_pipeline::config_bag::ConfigBag;
use interceptor_pipeline::context::InterceptorContext;
use interceptor_pipeline::hook::Hook;
use interceptor_pipeline::interceptors::HookAction;
use interceptor_pipeline::interceptors::Interceptors;
use interceptor_pipeline::payload::OperationError;
use interceptor_pipeline::payload::Payload;
use interceptor_pipeline::payload::Response;
use interceptor_pipeline::scripted::Script;
use interceptor_pipeline::scripted::ScriptedInterceptor;

const REQ_TAG: u64 = 1;
const TX_TAG: u64 = 2;
const OUT_TAG: u64 = 4;
const ERR_TAG: u64 = 5;
const TRACE_KEY: u64 = 9;

fn ready_ctx() -> InterceptorContext {
    let mut ctx = InterceptorContext::new(Payload { tag: REQ_TAG, data: 10 }, OUT_TAG);
    ctx.tx_request = Some(Payload { tag: TX_TAG, data: 10 });
    ctx
}

#[test]
fn ordering_client_before_operation() {
    let mut reg = Interceptors::<ScriptedInterceptor>::new();
    reg.with_client_interceptor(ScriptedInterceptor::new(Script::Trace {
        key: TRACE_KEY,
        mark: 1,
    }));
    reg.with_client_interceptor(ScriptedInterceptor::new(Script::Trace {
        key: TRACE_KEY,
        mark: 2,
    }));
    reg.with_operation_interceptor(ScriptedInterceptor::new(Script::Trace {
        key: TRACE_KEY,
        mark: 3,
    }));
    let mut ctx = ready_ctx();
    let mut cfg = ConfigBag::new();
    let r = reg.dispatch(Hook::ReadBeforeExecution, &mut ctx, &mut cfg);
    assert!(r.is_ok());
    // marks read in base 8: client 1, client 2, then operation 3
    assert_eq!(cfg.get(TRACE_KEY), Some(0o123));
}

#[test]
fn ordering_interleaved_registration() {
    let mut reg = Interceptors::<ScriptedInterceptor>::new();
    reg.with_operation_interceptor(ScriptedInterceptor::new(Script::Trace {
        key: TRACE_KEY,
        mark: 7,
    }));
    reg.with_client_interceptor(ScriptedInterceptor::new(Script::Trace {
        key: TRACE_KEY,
        mark: 4,
    }));
    reg.with_client_interceptor(ScriptedInterceptor::new(Script::Trace {
        key: TRACE_KEY,
        mark: 5,
    }));
    let mut ctx = ready_ctx();
    let mut cfg = ConfigBag::new();
    let r = reg.dispatch(Hook::ReadBeforeAttempt, &mut ctx, &mut cfg);
    assert!(r.is_ok());
    // both clients run before the operation interceptor registered first
    assert_eq!(cfg.get(TRACE_KEY), Some(0o457));
}

#[test]
fn collect_runs_all_last_error_wins() {
    let e1 = Payload { tag: ERR_TAG, data: 1 };
    let e3 = Payload { tag: ERR_TAG, data: 3 };
    let mut reg = Interceptors::<ScriptedInterceptor>::new();
    reg.with_client_interceptor(ScriptedInterceptor::new(Script::ActAt {
        at: Hook::ReadBeforeExecution,
        action: HookAction::Fail { error: e1 },
    }));
    reg.with_client_interceptor(ScriptedInterceptor::new(Script::ActAt {
        at: Hook::ReadBeforeExecution,
        action: HookAction::PutConfig { key: 7, value: 42 },
    }));
    reg.with_client_interceptor(ScriptedInterceptor::new(Script::ActAt {
        at: Hook::ReadBeforeExecution,
        action: HookAction::Fail { error: e3 },
    }));
    let mut ctx = ready_ctx();
    let mut cfg = ConfigBag::new();
    let r = reg.dispatch(Hook::ReadBeforeExecution, &mut ctx, &mut cfg);
    // the last-raised error wins ...
    assert_eq!(
        r,
        Err(OperationError::Interceptor { hook: Hook::ReadBeforeExecution, error: e3 })
    );
    // ... and the middle interceptor ran although the first had failed
    assert_eq!(cfg.get(7), Some(42));
}

#[test]
fn fail_fast_skips_rest() {
    let e1 = Payload { tag: ERR_TAG, data: 1 };
    let mut reg = Interceptors::<ScriptedInterceptor>::new();
    reg.with_client_interceptor(ScriptedInterceptor::new(Script::ActAt {
        at: Hook::ModifyBeforeSigning,
        action: HookAction::Fail { error: e1 },
    }));
    reg.with_client_interceptor(ScriptedInterceptor::new(Script::Trace {
        key: TRACE_KEY,
        mark: 2,
    }));
    reg.with_operation_interceptor(ScriptedInterceptor::new(Script::Trace {
        key: TRACE_KEY,
        mark: 3,
    }));
    let mut ctx = ready_ctx();
    let mut cfg = ConfigBag::new();
    let r = reg.dispatch(Hook::ModifyBeforeSigning, &mut ctx, &mut cfg);
    assert_eq!(
        r,
        Err(OperationError::Interceptor { hook: Hook::ModifyBeforeSigning, error: e1 })
    );
    // the second and third interceptors were never invoked
    assert_eq!(cfg.get(TRACE_KEY), None);
}

#[test]
fn type_preservation_rejected() {
    let wrong = Payload { tag: 99, data: 5 };
    let mut reg = Interceptors::<ScriptedInterceptor>::new();
    reg.with_client_interceptor(ScriptedInterceptor::new(Script::ActAt {
        at: Hook::ModifyBeforeSigning,
        action: HookAction::Replace { value: wrong },
    }));
    let mut ctx = ready_ctx();
    let mut cfg = ConfigBag::new();
    let r = reg.dispatch(Hook::ModifyBeforeSigning, &mut ctx, &mut cfg);
    assert_eq!(
        r,
        Err(OperationError::TypeViolation { hook: Hook::ModifyBeforeSigning, offered: wrong })
    );
    // no silent acceptance: the transport request is unchanged
    assert_eq!(ctx.tx_request, Some(Payload { tag: TX_TAG, data: 10 }));
}

#[test]
fn replacement_visible_to_later_interceptors() {
    let mut reg = Interceptors::<ScriptedInterceptor>::new();
    reg.with_client_interceptor(ScriptedInterceptor::new(Script::ActAt {
        at: Hook::ModifyBeforeSigning,
        action: HookAction::Replace { value: Payload { tag: TX_TAG, data: 77 } },
    }));
    reg.with_operation_interceptor(ScriptedInterceptor::new(Script::TraceTxRequest {
        at: Hook::ModifyBeforeSigning,
        key: TRACE_KEY,
    }));
    let mut ctx = ready_ctx();
    let mut cfg = ConfigBag::new();
    let r = reg.dispatch(Hook::ModifyBeforeSigning, &mut ctx, &mut cfg);
    assert!(r.is_ok());
    assert_eq!(ctx.tx_request, Some(Payload { tag: TX_TAG, data: 77 }));
    // the later interceptor observed 77 (77 mod 8 == 5), not 10
    assert_eq!(cfg.get(TRACE_KEY), Some(5));
}

#[test]
fn read_hook_replace_is_ignored() {
    let mut reg = Interceptors::<ScriptedInterceptor>::new();
    reg.with_client_interceptor(ScriptedInterceptor::new(Script::ActAt {
        at: Hook::ReadBeforeSigning,
        action: HookAction::Replace { value: Payload { tag: TX_TAG, data: 123 } },
    }));
    let mut ctx = ready_ctx();
    let mut cfg = ConfigBag::new();
    let r = reg.dispatch(Hook::ReadBeforeSigning, &mut ctx, &mut cfg);
    assert!(r.is_ok());
    assert_eq!(ctx.tx_request, Some(Payload { tag: TX_TAG, data: 10 }));
}

#[test]
fn inject_error_outside_response_phase_is_violation() {
    let e = Payload { tag: ERR_TAG, data: 8 };
    let mut reg = Interceptors::<ScriptedInterceptor>::new();
    reg.with_client_interceptor(ScriptedInterceptor::new(Script::ActAt {
        at: Hook::ModifyBeforeTransmit,
        action: HookAction::InjectError { error: e },
    }));
    let mut ctx = ready_ctx();
    let mut cfg = ConfigBag::new();
    let r = reg.dispatch(Hook::ModifyBeforeTransmit, &mut ctx, &mut cfg);
    assert_eq!(
        r,
        Err(OperationError::TypeViolation { hook: Hook::ModifyBeforeTransmit, offered: e })
    );
}

#[test]
fn inject_error_at_attempt_completion() {
    let e = Payload { tag: ERR_TAG, data: 8 };
    let mut reg = Interceptors::<ScriptedInterceptor>::new();
    reg.with_client_interceptor(ScriptedInterceptor::new(Script::ActAt {
        at: Hook::ModifyBeforeAttemptCompletion,
        action: HookAction::InjectError { error: e },
    }));
    let mut ctx = ready_ctx();
    ctx.modeled_response = Some(Response::Output(Payload { tag: OUT_TAG, data: 10 }));
    let mut cfg = ConfigBag::new();
    let r = reg.dispatch(Hook::ModifyBeforeAttemptCompletion, &mut ctx, &mut cfg);
    assert!(r.is_ok());
    assert_eq!(
        ctx.modeled_response,
        Some(Response::Failure(OperationError::Operation { error: e }))
    );
}

#[test]
fn replace_output_checks_output_tag() {
    let mut reg = Interceptors::<ScriptedInterceptor>::new();
    reg.with_client_interceptor(ScriptedInterceptor::new(Script::ActAt {
        at: Hook::ModifyBeforeCompletion,
        action: HookAction::Replace { value: Payload { tag: OUT_TAG, data: 33 } },
    }));
    let mut ctx = ready_ctx();
    ctx.modeled_response = Some(Response::Failure(OperationError::Operation {
        error: Payload { tag: ERR_TAG, data: 0 },
    }));
    let mut cfg = ConfigBag::new();
    let r = reg.dispatch(Hook::ModifyBeforeCompletion, &mut ctx, &mut cfg);
    assert!(r.is_ok());
    assert_eq!(
        ctx.modeled_response,
        Some(Response::Output(Payload { tag: OUT_TAG, data: 33 }))
    );

    let wrong = Payload { tag: 77, data: 33 };
    let mut reg2 = Interceptors::<ScriptedInterceptor>::new();
    reg2.with_client_interceptor(ScriptedInterceptor::new(Script::ActAt {
        at: Hook::ModifyBeforeCompletion,
        action: HookAction::Replace { value: wrong },
    }));
    let mut ctx2 = ready_ctx();
    ctx2.modeled_response = Some(Response::Output(Payload { tag: OUT_TAG, data: 10 }));
    let mut cfg2 = ConfigBag::new();
    let r2 = reg2.dispatch(Hook::ModifyBeforeCompletion, &mut ctx2, &mut cfg2);
    assert_eq!(
        r2,
        Err(OperationError::TypeViolation { hook: Hook::ModifyBeforeCompletion, offered: wrong })
    );
    assert_eq!(
        ctx2.modeled_response,
        Some(Response::Output(Payload { tag: OUT_TAG, data: 10 }))
    );
}

#[test]
fn quiet_interceptor_changes_nothing() {
    let mut reg = Interceptors::<ScriptedInterceptor>::new();
    reg.with_client_interceptor(ScriptedInterceptor::new(Script::Quiet));
    let before = ready_ctx();
    let mut ctx = before;
    let mut cfg = ConfigBag::new();
    let r = reg.dispatch(Hook::ReadAfterSigning, &mut ctx, &mut cfg);
    assert!(r.is_ok());
    assert_eq!(ctx, before);
}

#[test]
fn named_phase_callables_dispatch() {
    let mut reg = Interceptors::<ScriptedInterceptor>::new();
    reg.with_client_interceptor(ScriptedInterceptor::new(Script::Trace {
        key: TRACE_KEY,
        mark: 1,
    }));
    let mut ctx = ready_ctx();
    let mut cfg = ConfigBag::new();
    assert!(reg.read_before_execution(&ctx, &mut cfg).is_ok());
    assert!(reg.modify_before_serialization(&mut ctx, &mut cfg).is_ok());
    assert!(reg.read_after_serialization(&ctx, &mut cfg).is_ok());
    // three hooks reached the tracing interceptor, in phase order
    assert_eq!(cfg.get(TRACE_KEY), Some(0o111));
}

#[test]
fn named_modify_callable_replaces_field() {
    let mut reg = Interceptors::<ScriptedInterceptor>::new();
    reg.with_client_interceptor(ScriptedInterceptor::new(Script::ActAt {
        at: Hook::ModifyBeforeSigning,
        action: HookAction::Replace { value: Payload { tag: TX_TAG, data: 44 } },
    }));
    let mut ctx = ready_ctx();
    let mut cfg = ConfigBag::new();
    assert!(reg.modify_before_signing(&mut ctx, &mut cfg).is_ok());
    assert_eq!(ctx.tx_request, Some(Payload { tag: TX_TAG, data: 44 }));
}
