//! An ordered, typed pipeline of request-execution hooks.
//!
//! One *execution* of an operation runs through a fixed sequence of lifecycle
//! phases — serialization, signing, transmission, deserialization — possibly
//! spanning several *attempts* when a retry strategy asks for another try.
//! At every phase the registered interceptors are consulted, client-scoped
//! ones before operation-scoped ones, and may observe the execution context,
//! write to the shared configuration bag, or (at modify phases) replace one
//! context field with a value of the same type.
//!
//! The contracts of the dispatch engine and of the driver pin the whole
//! protocol down: which interceptors run, in what order, which error wins at
//! a phase, where the driver jumps on failure, and what the caller finally
//! observes.
pub mod config_bag;
pub mod context;
pub mod hook;
pub mod interceptors;
pub mod orchestrator;
pub mod payload;
pub mod retry;
pub mod scripted;
pub mod transport;
