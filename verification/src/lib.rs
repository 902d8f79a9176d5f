//! Retry support for fallible asynchronous operations.
//!
//! The heart of the crate is [`RetryDriver`], a state machine that decides,
//! after each failed attempt, whether to retry, how long to wait first, and
//! when to give up.  Delay strategies such as [`strategy::FixedInterval`]
//! supply the wait durations; an optional [`RetryCondition`] decides whether a
//! given failure is worth retrying at all.  The driver itself never blocks or
//! sleeps: a host adapter performs the waiting and the operation attempts and
//! reports their outcomes back to the driver.

mod delay;
mod future;
pub mod strategy;

pub use delay::Delay;
pub use future::AlwaysRetry;
pub use future::BelowThreshold;
pub use future::RetryCondition;
pub use future::RetryDriver;
pub use future::RetryError;
pub use future::RetryPhase;
pub use future::RetryStep;
pub use future::campaign;
pub use future::lemma_empty_sequence_stops_after_one_attempt;
pub use future::lemma_exhaustion_surfaces_last_failure;
pub use future::lemma_rejected_failure_stops_after_one_attempt;
pub use future::lemma_success_ends_campaign;
pub use future::retry_ruling;
