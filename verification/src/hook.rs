//! The named extension points of the execution lifecycle, and their
//! classification: error policy, and which context field a modify hook may
//! replace.
use vstd::prelude::*;

verus! {

/// One named extension point in the execution lifecycle, in phase order.
///
/// `Read*` hooks observe; `Modify*` hooks may additionally replace one
/// context field with a value of the same type.
#[derive(Clone, Copy, PartialEq, Eq, Structural, Debug)]
pub enum Hook {
    ReadBeforeExecution,
    ModifyBeforeSerialization,
    ReadBeforeSerialization,
    ReadAfterSerialization,
    ModifyBeforeRetryLoop,
    ReadBeforeAttempt,
    ModifyBeforeSigning,
    ReadBeforeSigning,
    ReadAfterSigning,
    ModifyBeforeTransmit,
    ReadBeforeTransmit,
    ReadAfterTransmit,
    ModifyBeforeDeserialization,
    ReadBeforeDeserialization,
    ReadAfterDeserialization,
    ModifyBeforeAttemptCompletion,
    ReadAfterAttempt,
    ModifyBeforeCompletion,
    ReadAfterExecution,
}

/// The context field a modify hook is permitted to replace.
#[derive(Clone, Copy, PartialEq, Eq, Structural, Debug)]
pub enum ModifyTarget {
    ModeledRequest,
    TxRequest,
    TxResponse,
    ModeledResponse,
}

/// Hooks that collect errors: every registered interceptor is invoked even
/// after an earlier one failed, and the last-raised error wins. All other
/// hooks fail fast: the first error aborts the dispatch.
pub open spec fn is_collect_hook(hook: Hook) -> bool {
    match hook {
        Hook::ReadBeforeExecution => true,
        Hook::ReadBeforeAttempt => true,
        Hook::ReadAfterAttempt => true,
        _ => false,
    }
}

/// Exec mirror of [`is_collect_hook`].
pub fn hook_is_collect(hook: Hook) -> (r: bool)
    ensures
        r == is_collect_hook(hook),
{
    match hook {
        Hook::ReadBeforeExecution => true,
        Hook::ReadBeforeAttempt => true,
        Hook::ReadAfterAttempt => true,
        _ => false,
    }
}

/// Which context field, if any, the hook may replace. `None` for read hooks.
pub open spec fn modify_target(hook: Hook) -> Option<ModifyTarget> {
    match hook {
        Hook::ModifyBeforeSerialization => Some(ModifyTarget::ModeledRequest),
        Hook::ModifyBeforeRetryLoop => Some(ModifyTarget::TxRequest),
        Hook::ModifyBeforeSigning => Some(ModifyTarget::TxRequest),
        Hook::ModifyBeforeTransmit => Some(ModifyTarget::TxRequest),
        Hook::ModifyBeforeDeserialization => Some(ModifyTarget::TxResponse),
        Hook::ModifyBeforeAttemptCompletion => Some(ModifyTarget::ModeledResponse),
        Hook::ModifyBeforeCompletion => Some(ModifyTarget::ModeledResponse),
        _ => None,
    }
}

/// Exec mirror of [`modify_target`].
pub fn hook_modify_target(hook: Hook) -> (r: Option<ModifyTarget>)
    ensures
        r == modify_target(hook),
{
    match hook {
        Hook::ModifyBeforeSerialization => Some(ModifyTarget::ModeledRequest),
        Hook::ModifyBeforeRetryLoop => Some(ModifyTarget::TxRequest),
        Hook::ModifyBeforeSigning => Some(ModifyTarget::TxRequest),
        Hook::ModifyBeforeTransmit => Some(ModifyTarget::TxRequest),
        Hook::ModifyBeforeDeserialization => Some(ModifyTarget::TxResponse),
        Hook::ModifyBeforeAttemptCompletion => Some(ModifyTarget::ModeledResponse),
        Hook::ModifyBeforeCompletion => Some(ModifyTarget::ModeledResponse),
        _ => None,
    }
}

} // verus!
