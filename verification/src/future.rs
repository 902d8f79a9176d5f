//! The retry driver: a state machine that turns a delay strategy, an optional
//! retry condition, and a stream of attempt outcomes into a terminal verdict.

use vstd::prelude::*;
use vstd::std_specs::cmp::PartialEqSpec;
use crate::delay::Delay;
use crate::strategy::DelaySequence;

verus! {

/// The terminal failure of a retry campaign.
///
/// `OperationError` carries the last failure of the retried operation, either
/// because the delay strategy was exhausted or because the retry condition
/// rejected the failure.  `TimerError` carries a failure of the host's timer;
/// such failures are never retried.
#[derive(Debug)]
pub enum RetryError<OE, TE> {
    OperationError(OE),
    TimerError(TE),
}

impl<OE: PartialEq, TE> PartialEq for RetryError<OE, TE> {
    /// Two errors are equal only when both are `OperationError`s with equal
    /// payloads; a `TimerError` compares unequal to everything, itself
    /// included, since timer failures carry no comparable identity.
    fn eq(&self, other: &Self) -> (r: bool) {
        match (self, other) {
            (RetryError::OperationError(left), RetryError::OperationError(right)) => left.eq(
                right,
            ),
            _ => false,
        }
    }
}

impl<OE: PartialEq, TE> vstd::std_specs::cmp::PartialEqSpecImpl for RetryError<OE, TE> {
    open spec fn obeys_eq_spec() -> bool {
        <OE as PartialEqSpec>::obeys_eq_spec()
    }

    open spec fn eq_spec(&self, other: &Self) -> bool {
        match (self, other) {
            (
                RetryError::OperationError(left),
                RetryError::OperationError(right),
            ) => <OE as PartialEqSpec>::eq_spec(left, right),
            _ => false,
        }
    }
}

/// Decides whether a given operation failure is worth retrying.
///
/// The condition must be pure: the verdict is a function of the condition and
/// the failure value alone, stated by [`RetryCondition::retryable`].
pub trait RetryCondition<OE>: Sized {
    /// Whether a failure with value `error` should be retried.
    spec fn retryable(&self, error: OE) -> bool;

    /// Evaluates the condition on one failure value.
    fn should_retry(&self, error: &OE) -> (r: bool)
        ensures
            r == self.retryable(*error),
    ;
}

/// The condition that retries every failure; composing the driver with it
/// makes the delay strategy alone decide when to give up.
pub struct AlwaysRetry;

impl<OE> RetryCondition<OE> for AlwaysRetry {
    open spec fn retryable(&self, error: OE) -> bool {
        true
    }

    fn should_retry(&self, error: &OE) -> (r: bool) {
        true
    }
}

/// A condition over integer failure values that retries a failure only while
/// its value is below a fixed bound.
pub struct BelowThreshold {
    pub bound: u64,
}

impl RetryCondition<u64> for BelowThreshold {
    open spec fn retryable(&self, error: u64) -> bool {
        error < self.bound
    }

    fn should_retry(&self, error: &u64) -> (r: bool) {
        *error < self.bound
    }
}

/// Which sub-computation the driver is waiting on, if any.
pub enum RetryPhase {
    /// An operation attempt is in flight; the driver expects
    /// [`RetryDriver::on_operation_result`] next.
    Running,
    /// A delay is pending; the driver expects [`RetryDriver::on_timer_elapsed`]
    /// or [`RetryDriver::on_timer_failure`] next.
    Sleeping,
    /// The campaign has produced its terminal verdict; the driver is spent.
    Done,
}

/// What the host must do next, as decided by the driver.
pub enum RetryStep<I, OE, TE> {
    /// Start the timer for the given delay, then report how the wait ended.
    StartSleep(Delay),
    /// The campaign is over with this verdict; no further attempts or waits.
    Finished(Result<I, RetryError<OE, TE>>),
}

/// What a retryable failure leads to: `None` means the campaign stops with
/// that failure (the condition rejected it, or `strategy` is exhausted);
/// `Some((d, s))` means the driver sleeps for `d` and goes on with the
/// strategy cursor at `s`.
pub open spec fn retry_ruling<S: DelaySequence, C: RetryCondition<OE>, OE>(
    strategy: S,
    condition: C,
    error: OE,
) -> Option<(Delay, S)> {
    if !condition.retryable(error) {
        None
    } else {
        strategy.next_spec()
    }
}

/// The retry state machine driving one campaign of attempts.
///
/// The driver owns the delay strategy and the retry condition, but not the
/// operation or the timer: the host starts the first attempt right after
/// [`RetryDriver::spawn`], reports each outcome through the `on_*` methods,
/// and obeys the [`RetryStep`] each report returns.  `attempts` counts the
/// operation invocations the host has been asked to make so far.
pub struct RetryDriver<S, C> {
    pub strategy: S,
    pub condition: C,
    pub phase: RetryPhase,
    pub attempts: Ghost<nat>,
}

impl<S: DelaySequence, C> RetryDriver<S, C> {
    /// Starts a campaign gated by `condition`.  The host must invoke the
    /// operation once, immediately: the first attempt is never gated by the
    /// strategy, only retries are.
    pub fn spawn_conditionally(strategy: S, condition: C) -> (d: RetryDriver<S, C>)
        ensures
            d.strategy == strategy,
            d.condition == condition,
            d.phase is Running,
            d.attempts@ == 1,
    {
        RetryDriver { strategy, condition, phase: RetryPhase::Running, attempts: Ghost(1nat) }
    }

    /// Reports how the in-flight operation attempt ended.
    ///
    /// On success the campaign finishes with the success value.  On failure
    /// the condition is consulted exactly once; if it rejects the failure, or
    /// otherwise if the strategy is exhausted, the campaign finishes with
    /// `OperationError` carrying that failure.  Otherwise the driver asks the
    /// host to sleep for the next delay of the strategy.
    pub fn on_operation_result<I, OE, TE>(&mut self, outcome: Result<I, OE>) -> (step: RetryStep<
        I,
        OE,
        TE,
    >) where C: RetryCondition<OE>
        requires
            old(self).phase is Running,
        ensures
            final(self).condition == old(self).condition,
            final(self).attempts == old(self).attempts,
            match outcome {
                Ok(v) => {
                    &&& step == RetryStep::<I, OE, TE>::Finished(Ok(v))
                    &&& final(self).phase is Done
                    &&& final(self).strategy == old(self).strategy
                },
                Err(e) => match retry_ruling(old(self).strategy, old(self).condition, e) {
                    None => {
                        &&& step == RetryStep::<I, OE, TE>::Finished(
                            Err(RetryError::OperationError(e)),
                        )
                        &&& final(self).phase is Done
                        &&& final(self).strategy == old(self).strategy
                    },
                    Some((d, s)) => {
                        &&& step == RetryStep::<I, OE, TE>::StartSleep(d)
                        &&& final(self).phase is Sleeping
                        &&& final(self).strategy == s
                    },
                },
            },
    {
        match outcome {
            Ok(v) => {
                self.phase = RetryPhase::Done;
                RetryStep::Finished(Ok(v))
            },
            Err(e) => {
                if !self.condition.should_retry(&e) {
                    self.phase = RetryPhase::Done;
                    RetryStep::Finished(Err(RetryError::OperationError(e)))
                } else {
                    match self.strategy.next() {
                        None => {
                            self.phase = RetryPhase::Done;
                            RetryStep::Finished(Err(RetryError::OperationError(e)))
                        },
                        Some(d) => {
                            self.phase = RetryPhase::Sleeping;
                            RetryStep::StartSleep(d)
                        },
                    }
                }
            },
        }
    }

    /// Reports that the pending delay has elapsed.  The host must invoke the
    /// operation again, immediately: the driver counts one more attempt.
    pub fn on_timer_elapsed(&mut self)
        requires
            old(self).phase is Sleeping,
        ensures
            final(self).strategy == old(self).strategy,
            final(self).condition == old(self).condition,
            final(self).phase is Running,
            final(self).attempts@ == old(self).attempts@ + 1,
    {
        self.phase = RetryPhase::Running;
        proof {
            self.attempts@ = self.attempts@ + 1;
        }
    }

    /// Reports that the pending delay failed.  Timer failures indicate a
    /// problem with the timer itself, not the operation, so the campaign
    /// finishes at once with `TimerError` and no further attempt is made.
    pub fn on_timer_failure<I, OE, TE>(&mut self, error: TE) -> (step: RetryStep<I, OE, TE>)
        requires
            old(self).phase is Sleeping,
        ensures
            final(self).strategy == old(self).strategy,
            final(self).condition == old(self).condition,
            final(self).phase is Done,
            final(self).attempts == old(self).attempts,
            step == RetryStep::<I, OE, TE>::Finished(Err(RetryError::TimerError(error))),
    {
        self.phase = RetryPhase::Done;
        RetryStep::Finished(Err(RetryError::TimerError(error)))
    }
}

/// The verdict and attempt count of a whole campaign, under a reliable timer.
///
/// `outcomes[i]` is the outcome of attempt `i + 1`; `Err(e)` in the result
/// stands for a terminal `OperationError(e)`.  The campaign unfolds exactly as
/// the driver does: a success or a failure whose [`retry_ruling`] is `None`
/// ends it, any other failure consumes one delay and one more outcome.  The
/// result is `None` when `outcomes` runs out before the campaign ends.
pub open spec fn campaign<S: DelaySequence, C: RetryCondition<OE>, I, OE>(
    strategy: S,
    condition: C,
    outcomes: Seq<Result<I, OE>>,
) -> Option<(Result<I, OE>, nat)>
    decreases outcomes.len(),
{
    if outcomes.len() == 0 {
        None
    } else {
        match outcomes[0] {
            Ok(v) => Some((Result::<I, OE>::Ok(v), 1nat)),
            Err(e) => match retry_ruling(strategy, condition, e) {
                None => Some((Result::<I, OE>::Err(e), 1nat)),
                Some((d, s)) => match campaign(s, condition, outcomes.drop_first()) {
                    None => None,
                    Some((r, n)) => Some((r, (n + 1) as nat)),
                },
            },
        }
    }
}

/// With an empty delay sequence, the very first failure is terminal: the
/// campaign ends with that failure after exactly one attempt, whatever the
/// condition says and whatever would have happened later.
pub proof fn lemma_empty_sequence_stops_after_one_attempt<
    S: DelaySequence,
    C: RetryCondition<OE>,
    I,
    OE,
>(strategy: S, condition: C, outcomes: Seq<Result<I, OE>>)
    requires
        strategy.next_spec() is None,
        outcomes.len() >= 1,
        outcomes[0] is Err,
    ensures
        campaign(strategy, condition, outcomes) == Some((outcomes[0], 1nat)),
{
}

/// With a strategy bounded to exactly the delays in `delays`, a campaign
/// whose every attempt fails retryably ends with the *last* failure after
/// exactly `delays.len() + 1` attempts.
pub proof fn lemma_exhaustion_surfaces_last_failure<
    S: DelaySequence,
    C: RetryCondition<OE>,
    I,
    OE,
>(strategy: S, condition: C, delays: Seq<Delay>, outcomes: Seq<Result<I, OE>>)
    requires
        crate::strategy::yields_exactly(strategy, delays),
        outcomes.len() == delays.len() + 1,
        forall|i: int|
            0 <= i < outcomes.len() ==> outcomes[i] is Err && condition.retryable(
                #[trigger] outcomes[i]->Err_0,
            ),
    ensures
        campaign(strategy, condition, outcomes) == Some(
            (outcomes.last(), (delays.len() + 1) as nat),
        ),
    decreases delays.len(),
{
    assert(outcomes[0] is Err);
    if delays.len() == 0 {
        assert(strategy.next_spec() is None);
    } else {
        match strategy.next_spec() {
            None => {},
            Some((d, s)) => {
                lemma_exhaustion_surfaces_last_failure(
                    s,
                    condition,
                    delays.drop_first(),
                    outcomes.drop_first(),
                );
                assert(outcomes.drop_first().last() == outcomes.last());
            },
        }
    }
}

/// A campaign whose first `failures` attempts fail retryably and whose next
/// attempt succeeds ends with that success value after exactly
/// `failures + 1` attempts, however many delays remain in the strategy
/// beyond the `failures` it needs.
pub proof fn lemma_success_ends_campaign<S: DelaySequence, C: RetryCondition<OE>, I, OE>(
    strategy: S,
    condition: C,
    failures: nat,
    outcomes: Seq<Result<I, OE>>,
)
    requires
        crate::strategy::yields_at_least(strategy, failures),
        outcomes.len() == failures + 1,
        forall|i: int|
            0 <= i < failures ==> outcomes[i] is Err && condition.retryable(
                #[trigger] outcomes[i]->Err_0,
            ),
        outcomes[failures as int] is Ok,
    ensures
        campaign(strategy, condition, outcomes) == Some(
            (outcomes[failures as int], (failures + 1) as nat),
        ),
    decreases failures,
{
    if failures == 0 {
        assert(outcomes[0] is Ok);
    } else {
        assert(outcomes[0] is Err);
        match strategy.next_spec() {
            None => {},
            Some((d, s)) => {
                lemma_success_ends_campaign(
                    s,
                    condition,
                    (failures - 1) as nat,
                    outcomes.drop_first(),
                );
            },
        }
    }
}

/// A failure the condition rejects is terminal at once: the campaign ends
/// with that failure after exactly one attempt, even if the delay sequence
/// is non-empty.
pub proof fn lemma_rejected_failure_stops_after_one_attempt<
    S: DelaySequence,
    C: RetryCondition<OE>,
    I,
    OE,
>(strategy: S, condition: C, outcomes: Seq<Result<I, OE>>)
    requires
        outcomes.len() >= 1,
        outcomes[0] is Err,
        !condition.retryable(outcomes[0]->Err_0),
    ensures
        campaign(strategy, condition, outcomes) == Some((outcomes[0], 1nat)),
{
}

impl<S: DelaySequence> RetryDriver<S, AlwaysRetry> {
    /// Starts a campaign in which every operation failure is retryable.
    pub fn spawn(strategy: S) -> (d: RetryDriver<S, AlwaysRetry>)
        ensures
            d.strategy == strategy,
            d.phase is Running,
            d.attempts@ == 1,
    {
        RetryDriver::spawn_conditionally(strategy, AlwaysRetry)
    }
}

} // verus!
