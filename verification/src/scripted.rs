//! A concrete interceptor whose behaviour is plain data: it can stay quiet,
//! record its invocations in the configuration bag, or perform one fixed
//! action at one chosen hook. It is the library's own implementation of the
//! [`Interceptor`] extension point.
use vstd::prelude::*;

use crate::config_bag::bag_lookup;
use crate::config_bag::ConfigBag;
use crate::context::InterceptorContext;
use crate::hook::Hook;
use crate::interceptors::HookAction;
use crate::interceptors::Interceptor;

verus! {

/// Bound under which a trace still appends a mark; beyond it the trace is
/// left as it is, so that appending can never overflow.
pub const TRACE_FULL: u64 = 0x1000_0000_0000_0000;

/// A trace word with `mark` (reduced to three bits) appended. Reading the
/// word in base 8 gives the marks in the order they were appended.
pub open spec fn stamp(prev: u64, mark: u64) -> u64 {
    if prev < TRACE_FULL {
        (prev * 8 + mark % 8) as u64
    } else {
        prev
    }
}

/// Exec mirror of [`stamp`].
pub fn next_stamp(prev: u64, mark: u64) -> (r: u64)
    ensures
        r == stamp(prev, mark),
{
    if prev < TRACE_FULL {
        prev * 8 + mark % 8
    } else {
        prev
    }
}

/// What a [`ScriptedInterceptor`] does.
#[derive(Clone, Copy, PartialEq, Eq, Structural, Debug)]
pub enum Script {
    /// Proceed at every hook.
    Quiet,
    /// At every hook, append `mark` to the trace word under `key`.
    Trace { key: u64, mark: u64 },
    /// At hook `at`, ask for `action`; proceed everywhere else.
    ActAt { at: Hook, action: HookAction },
    /// At hook `at`, append the transport request's data word (reduced to
    /// three bits) to the trace under `key`; proceed when no transport
    /// request is populated.
    TraceTxRequest { at: Hook, key: u64 },
    /// At hook `at`, record under `key` whether a modeled response is
    /// populated: 1 when present, 2 when absent.
    TraceResponsePresence { at: Hook, key: u64 },
}

/// An interceptor driven by a [`Script`].
#[derive(Clone, Copy, PartialEq, Eq, Structural, Debug)]
pub struct ScriptedInterceptor {
    pub script: Script,
}

impl ScriptedInterceptor {
    /// An interceptor that runs `script`.
    pub fn new(script: Script) -> (r: ScriptedInterceptor)
        ensures
            r.script == script,
    {
        ScriptedInterceptor { script }
    }
}

impl Interceptor for ScriptedInterceptor {
    open spec fn on_hook(&self, hook: Hook, ctx: InterceptorContext, bag: Map<u64, u64>) -> HookAction {
        match self.script {
            Script::Quiet => HookAction::Proceed,
            Script::Trace { key, mark } => HookAction::PutConfig {
                key,
                value: stamp(bag_lookup(bag, key), mark),
            },
            Script::ActAt { at, action } => if hook == at {
                action
            } else {
                HookAction::Proceed
            },
            Script::TraceTxRequest { at, key } => if hook == at && ctx.tx_request is Some {
                HookAction::PutConfig {
                    key,
                    value: stamp(bag_lookup(bag, key), ctx.tx_request->0.data),
                }
            } else {
                HookAction::Proceed
            },
            Script::TraceResponsePresence { at, key } => if hook == at {
                HookAction::PutConfig {
                    key,
                    value: if ctx.modeled_response is Some {
                        1
                    } else {
                        2
                    },
                }
            } else {
                HookAction::Proceed
            },
        }
    }

    fn call_hook(&self, hook: Hook, ctx: &InterceptorContext, cfg: &ConfigBag) -> (action:
        HookAction) {
        match self.script {
            Script::Quiet => HookAction::Proceed,
            Script::Trace { key, mark } => {
                let prev = cfg.get_or_zero(key);
                HookAction::PutConfig { key, value: next_stamp(prev, mark) }
            },
            Script::ActAt { at, action } => if hook == at {
                action
            } else {
                HookAction::Proceed
            },
            Script::TraceTxRequest { at, key } => match &ctx.tx_request {
                Some(p) if hook == at => {
                    let prev = cfg.get_or_zero(key);
                    HookAction::PutConfig { key, value: next_stamp(prev, p.data) }
                },
                _ => HookAction::Proceed,
            },
            Script::TraceResponsePresence { at, key } => if hook == at {
                HookAction::PutConfig {
                    key,
                    value: if ctx.modeled_response.is_some() {
                        1
                    } else {
                        2
                    },
                }
            } else {
                HookAction::Proceed
            },
        }
    }
}

} // verus!
