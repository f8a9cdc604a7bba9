//! The retry-strategy extension contract and the library's own strategies.
//!
//! A strategy is consulted at exactly two points: once before the first
//! attempt (it may reject the execution outright) and once after each
//! completed attempt (it decides whether the driver loops back for another
//! attempt). A strategy keeps whatever state it needs in the configuration
//! bag, which it receives with exclusive access at each decision point.
use vstd::prelude::*;

use crate::config_bag::bag_lookup;
use crate::config_bag::ConfigBag;
use crate::payload::Payload;
use crate::payload::Response;

verus! {

/// The key under which [`GetObjectRetryStrategy`] keeps its count of
/// retries granted so far.
pub const RETRY_COUNTER_KEY: u64 = 0x7265_7472_79;

/// The retry budget a [`GetObjectRetryStrategy::new`] strategy starts with.
pub const DEFAULT_MAX_RETRIES: u64 = 3;

/// The pluggable retry decision contract. Each exec method agrees with its
/// pure model, so the driver's contract holds of every implementation; a
/// strategy whose own call fails aborts the execution.
pub trait RetryStrategy: Sized {
    /// The admission decision before the first attempt, as a pure function:
    /// the bag it leaves behind, and `Ok` exactly when the execution may
    /// proceed.
    spec fn initial_model(&self, bag: Map<u64, u64>) -> (Map<u64, u64>, Result<(), Payload>);

    /// Model of the decision after a completed attempt: the bag it leaves
    /// behind, and `Ok(true)` exactly when another attempt is granted.
    spec fn retry_model(&self, res: Response, bag: Map<u64, u64>) -> (
        Map<u64, u64>,
        Result<bool, Payload>,
    );

    /// Gates entry into the attempt loop; `Err` rejects the execution
    /// before any attempt is made.
    fn should_attempt_initial_request(&self, cfg: &mut ConfigBag) -> (r: Result<(), Payload>)
        ensures
            final(cfg)@ == self.initial_model(old(cfg)@).0,
            r == self.initial_model(old(cfg)@).1,
    ;

    /// Decides, after a completed attempt with outcome `res`, whether the
    /// driver loops back for another attempt.
    fn should_attempt_retry(&self, res: &Response, cfg: &mut ConfigBag) -> (r: Result<
        bool,
        Payload,
    >)
        ensures
            final(cfg)@ == self.retry_model(*res, old(cfg)@).0,
            r == self.retry_model(*res, old(cfg)@).1,
    ;
}

/// A budgeted strategy: it admits every execution, counts the retries it
/// grants under [`RETRY_COUNTER_KEY`], and grants another attempt exactly
/// while the last outcome was a failure and the budget is not exhausted.
#[derive(Clone, Copy, PartialEq, Eq, Structural, Debug)]
pub struct GetObjectRetryStrategy {
    pub max_retries: u64,
}

impl GetObjectRetryStrategy {
    /// A strategy with the default retry budget.
    pub fn new() -> (r: GetObjectRetryStrategy)
        ensures
            r.max_retries == DEFAULT_MAX_RETRIES,
    {
        GetObjectRetryStrategy { max_retries: DEFAULT_MAX_RETRIES }
    }

    /// A strategy granting at most `max_retries` retries.
    pub fn with_max_retries(max_retries: u64) -> (r: GetObjectRetryStrategy)
        ensures
            r.max_retries == max_retries,
    {
        GetObjectRetryStrategy { max_retries }
    }
}

impl RetryStrategy for GetObjectRetryStrategy {
    open spec fn initial_model(&self, bag: Map<u64, u64>) -> (Map<u64, u64>, Result<(), Payload>) {
        (bag.insert(RETRY_COUNTER_KEY, 0), Ok(()))
    }

    open spec fn retry_model(&self, res: Response, bag: Map<u64, u64>) -> (
        Map<u64, u64>,
        Result<bool, Payload>,
    ) {
        let used = bag_lookup(bag, RETRY_COUNTER_KEY);
        if res is Failure && used < self.max_retries {
            (bag.insert(RETRY_COUNTER_KEY, (used + 1) as u64), Ok(true))
        } else {
            (bag, Ok(false))
        }
    }

    fn should_attempt_initial_request(&self, cfg: &mut ConfigBag) -> (r: Result<(), Payload>) {
        cfg.insert(RETRY_COUNTER_KEY, 0);
        Ok(())
    }

    fn should_attempt_retry(&self, res: &Response, cfg: &mut ConfigBag) -> (r: Result<
        bool,
        Payload,
    >) {
        let used = cfg.get_or_zero(RETRY_COUNTER_KEY);
        let failed = matches!(res, Response::Failure(_));
        if failed && used < self.max_retries {
            cfg.insert(RETRY_COUNTER_KEY, used + 1);
            Ok(true)
        } else {
            Ok(false)
        }
    }
}

/// A circuit-breaking strategy: while tripped it rejects every execution at
/// the initial gate, and it never grants a retry.
#[derive(Clone, Copy, PartialEq, Eq, Structural, Debug)]
pub struct CircuitBreakerStrategy {
    /// The rejection handed out while the breaker is tripped.
    pub rejection: Option<Payload>,
}

impl RetryStrategy for CircuitBreakerStrategy {
    open spec fn initial_model(&self, bag: Map<u64, u64>) -> (Map<u64, u64>, Result<(), Payload>) {
        match self.rejection {
            Some(e) => (bag, Err(e)),
            None => (bag, Ok(())),
        }
    }

    open spec fn retry_model(&self, res: Response, bag: Map<u64, u64>) -> (
        Map<u64, u64>,
        Result<bool, Payload>,
    ) {
        (bag, Ok(false))
    }

    fn should_attempt_initial_request(&self, cfg: &mut ConfigBag) -> (r: Result<(), Payload>) {
        match self.rejection {
            Some(e) => Err(e),
            None => Ok(()),
        }
    }

    fn should_attempt_retry(&self, res: &Response, cfg: &mut ConfigBag) -> (r: Result<
        bool,
        Payload,
    >) {
        Ok(false)
    }
}

/// A strategy whose retry decision itself fails: it admits the execution,
/// then errors at the first retry consultation. A strategy error is always
/// fatal to the execution.
#[derive(Clone, Copy, PartialEq, Eq, Structural, Debug)]
pub struct ErroringStrategy {
    pub error: Payload,
}

impl RetryStrategy for ErroringStrategy {
    open spec fn initial_model(&self, bag: Map<u64, u64>) -> (Map<u64, u64>, Result<(), Payload>) {
        (bag, Ok(()))
    }

    open spec fn retry_model(&self, res: Response, bag: Map<u64, u64>) -> (
        Map<u64, u64>,
        Result<bool, Payload>,
    ) {
        (bag, Err(self.error))
    }

    fn should_attempt_initial_request(&self, cfg: &mut ConfigBag) -> (r: Result<(), Payload>) {
        Ok(())
    }

    fn should_attempt_retry(&self, res: &Response, cfg: &mut ConfigBag) -> (r: Result<
        bool,
        Payload,
    >) {
        Err(self.error)
    }
}

} // verus!
