//! Opaque typed values, operation outcomes, and the error taxonomy.
//!
//! Transport requests, transport responses, modeled requests, operation
//! outputs and interceptor errors are all opaque to this core: each is a
//! [`Payload`] carrying a type identity (`tag`) and an uninterpreted value
//! (`data`). The type-preservation contract of modify hooks is checked over
//! the tags.
use vstd::prelude::*;

use crate::hook::Hook;

verus! {

/// An opaque typed value. `tag` is the type identity, `data` the value
/// itself; the core never interprets `data`.
#[derive(Clone, Copy, PartialEq, Eq, Structural, Debug)]
pub struct Payload {
    pub tag: u64,
    pub data: u64,
}

/// Why an execution failed.
#[derive(Clone, Copy, PartialEq, Eq, Structural, Debug)]
pub enum OperationError {
    /// An interceptor hook raised an error; `hook` names the phase.
    Interceptor { hook: Hook, error: Payload },
    /// A modify hook returned a value of a different type than the field it
    /// was asked to replace; `offered` is the rejected value.
    TypeViolation { hook: Hook, offered: Payload },
    /// The retry strategy's own decision call failed; always fatal.
    Strategy { error: Payload },
    /// A failure outcome of the modeled operation itself, produced by
    /// deserialization or injected by a modify hook.
    Operation { error: Payload },
}

/// The modeled response: a success or failure outcome of the operation.
#[derive(Clone, Copy, PartialEq, Eq, Structural, Debug)]
pub enum Response {
    Output(Payload),
    Failure(OperationError),
}

} // verus!
