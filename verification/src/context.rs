//! The execution context: the mutable state of one in-flight execution, with
//! phase-gated field availability.
use vstd::prelude::*;

use crate::hook::Hook;
use crate::hook::ModifyTarget;
use crate::payload::OperationError;
use crate::payload::Payload;
use crate::payload::Response;

verus! {

/// State of one in-flight execution.
///
/// `modeled_request` is present from the start; `tx_request` appears at
/// serialization, `tx_response` after a transmit, `modeled_response` after
/// deserialization, an early failure, or a hook-injected outcome. Within one
/// attempt a populated field is never cleared. `output_tag` is the type
/// identity a replacement output must carry.
#[derive(Clone, Copy, PartialEq, Eq, Debug)]
pub struct InterceptorContext {
    pub modeled_request: Payload,
    pub tx_request: Option<Payload>,
    pub tx_response: Option<Payload>,
    pub modeled_response: Option<Response>,
    pub output_tag: u64,
}

/// The context an execution starts from: only the modeled request.
pub open spec fn initial_context(input: Payload, output_tag: u64) -> InterceptorContext {
    InterceptorContext {
        modeled_request: input,
        tx_request: None,
        tx_response: None,
        modeled_response: None,
        output_tag,
    }
}

/// The context with a failure recorded as its modeled response.
pub open spec fn with_failure(ctx: InterceptorContext, e: OperationError) -> InterceptorContext {
    InterceptorContext { modeled_response: Some(Response::Failure(e)), ..ctx }
}

/// The lower bound of the phase table: which fields are guaranteed present
/// when `hook` is dispatched. The driver establishes this at every dispatch.
pub open spec fn phase_ready(hook: Hook, ctx: InterceptorContext) -> bool {
    match hook {
        Hook::ReadBeforeExecution => true,
        Hook::ModifyBeforeSerialization => true,
        Hook::ReadBeforeSerialization => true,
        Hook::ReadAfterSerialization => ctx.tx_request is Some,
        Hook::ModifyBeforeRetryLoop => ctx.tx_request is Some,
        Hook::ReadBeforeAttempt => ctx.tx_request is Some,
        Hook::ModifyBeforeSigning => ctx.tx_request is Some,
        Hook::ReadBeforeSigning => ctx.tx_request is Some,
        Hook::ReadAfterSigning => ctx.tx_request is Some,
        Hook::ModifyBeforeTransmit => ctx.tx_request is Some,
        Hook::ReadBeforeTransmit => ctx.tx_request is Some,
        Hook::ReadAfterTransmit => ctx.tx_request is Some && ctx.tx_response is Some,
        Hook::ModifyBeforeDeserialization => ctx.tx_request is Some && ctx.tx_response is Some,
        Hook::ReadBeforeDeserialization => ctx.tx_request is Some && ctx.tx_response is Some,
        Hook::ReadAfterDeserialization => ctx.tx_request is Some && ctx.tx_response is Some
            && ctx.modeled_response is Some,
        Hook::ModifyBeforeAttemptCompletion => ctx.tx_request is Some
            && ctx.modeled_response is Some,
        Hook::ReadAfterAttempt => ctx.tx_request is Some && ctx.modeled_response is Some,
        Hook::ModifyBeforeCompletion => ctx.modeled_response is Some,
        Hook::ReadAfterExecution => ctx.modeled_response is Some,
    }
}

/// Whether the field a modify target names is populated.
pub open spec fn target_present(t: ModifyTarget, ctx: InterceptorContext) -> bool {
    match t {
        ModifyTarget::ModeledRequest => true,
        ModifyTarget::TxRequest => ctx.tx_request is Some,
        ModifyTarget::TxResponse => ctx.tx_response is Some,
        ModifyTarget::ModeledResponse => true,
    }
}

/// The type identity a replacement for the target must carry. For the
/// modeled response that is the operation's output tag: an output must
/// conform to the operation, while an injected error may be of any type.
pub open spec fn target_tag(t: ModifyTarget, ctx: InterceptorContext) -> u64 {
    match t {
        ModifyTarget::ModeledRequest => ctx.modeled_request.tag,
        ModifyTarget::TxRequest => ctx.tx_request->0.tag,
        ModifyTarget::TxResponse => ctx.tx_response->0.tag,
        ModifyTarget::ModeledResponse => ctx.output_tag,
    }
}

/// The context with the target's field replaced by `value`.
pub open spec fn replace_target(
    t: ModifyTarget,
    ctx: InterceptorContext,
    value: Payload,
) -> InterceptorContext {
    match t {
        ModifyTarget::ModeledRequest => InterceptorContext { modeled_request: value, ..ctx },
        ModifyTarget::TxRequest => InterceptorContext { tx_request: Some(value), ..ctx },
        ModifyTarget::TxResponse => InterceptorContext { tx_response: Some(value), ..ctx },
        ModifyTarget::ModeledResponse => InterceptorContext {
            modeled_response: Some(Response::Output(value)),
            ..ctx
        },
    }
}

impl InterceptorContext {
    /// The context an execution starts from.
    pub fn new(input: Payload, output_tag: u64) -> (r: InterceptorContext)
        ensures
            r == initial_context(input, output_tag),
    {
        InterceptorContext {
            modeled_request: input,
            tx_request: None,
            tx_response: None,
            modeled_response: None,
            output_tag,
        }
    }

    /// Records a failure as the modeled response.
    pub fn record_failure(&mut self, e: OperationError)
        ensures
            *final(self) == with_failure(*old(self), e),
    {
        self.modeled_response = Some(Response::Failure(e));
    }
}

} // verus!
