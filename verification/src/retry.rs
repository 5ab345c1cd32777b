//! Retry with exponential backoff: which attempts are made and how long the
//! caller waits between them.

use vstd::prelude::*;

verus! {

/// Seconds to wait after the first failed attempt.
pub const INITIAL_DELAY_SECS: u64 = 3;

/// The status that counts as success.
pub const STATUS_OK: u16 = 200;

/// What one attempt yielded.
#[derive(Clone, Copy, Debug, PartialEq, Eq)]
pub enum Outcome {
    /// A response arrived, with this status.
    Status(u16),
    /// No response arrived.
    TransportError,
}

impl Outcome {
    /// Only a response with status 200 is a success. Client errors, server
    /// errors and transport failures are all retried alike.
    pub open spec fn is_success(self) -> bool {
        self == Outcome::Status(STATUS_OK)
    }

    pub fn succeeded(&self) -> (b: bool)
        ensures
            b == self.is_success(),
    {
        match self {
            Outcome::Status(code) => *code == STATUS_OK,
            Outcome::TransportError => false,
        }
    }
}

/// `initial` doubled `k` times.
pub open spec fn doubled(initial: int, k: nat) -> int
    decreases k,
{
    if k == 0 {
        initial
    } else {
        2 * doubled(initial, (k - 1) as nat)
    }
}

/// `d` capped at the largest number of seconds a `u64` holds.
pub open spec fn capped(d: int) -> int {
    if d <= u64::MAX {
        d
    } else {
        u64::MAX as int
    }
}

/// How often a request is tried and how long the first wait is.
#[derive(Clone, Copy, Debug, PartialEq, Eq)]
pub struct RetryPolicy {
    /// Attempts made at most, the first one included.
    pub max_attempts: u32,
    /// Seconds to wait after the first failed attempt.
    pub initial_delay: u64,
}

impl RetryPolicy {
    pub open spec fn wf(self) -> bool {
        self.max_attempts > 0
    }

    /// The wait after failed attempt number `k`, counted from 0: the initial
    /// delay doubled `k` times, capped where a `u64` ends.
    pub open spec fn delay_after(self, k: nat) -> int {
        capped(doubled(self.initial_delay as int, k))
    }

    /// A policy of `max_attempts` attempts; `None` when that is 0.
    pub fn new(max_attempts: u32, initial_delay: u64) -> (policy: Option<RetryPolicy>)
        ensures
            max_attempts == 0 ==> policy is None,
            max_attempts > 0 ==> policy == Some(RetryPolicy { max_attempts, initial_delay }),
    {
        if max_attempts == 0 {
            None
        } else {
            Some(RetryPolicy { max_attempts, initial_delay })
        }
    }

    /// One attempt and then `retries` more, the first wait being
    /// `INITIAL_DELAY_SECS`.
    pub fn with_retries(retries: u8) -> (policy: RetryPolicy)
        ensures
            policy.max_attempts == retries + 1,
            policy.initial_delay == INITIAL_DELAY_SECS,
            policy.wf(),
    {
        let widened: u32 = retries as u32;
        RetryPolicy { max_attempts: widened + 1, initial_delay: INITIAL_DELAY_SECS }
    }
}

/// Where a run of attempts stands: `attempt` attempts have failed so far and
/// the next failure is followed by a wait of `delay` seconds.
#[derive(Clone, Copy, Debug, PartialEq, Eq)]
pub struct RetryState {
    pub policy: RetryPolicy,
    pub attempt: u32,
    pub delay: u64,
}

/// What to do once an attempt has ended.
#[derive(Clone, Copy, Debug, PartialEq, Eq)]
pub enum Decision {
    /// Hand the attempt's result to the caller, whatever it is.
    Return,
    /// Sleep `delay` seconds, then try again from `next`.
    RetryAfter { delay: u64, next: RetryState },
}

impl RetryState {
    pub open spec fn wf(self) -> bool {
        &&& self.policy.wf()
        &&& self.attempt < self.policy.max_attempts
        &&& self.delay == self.policy.delay_after(self.attempt as nat)
    }

    /// The last attempt is the one whose result is returned unseen.
    pub open spec fn is_last(self) -> bool {
        self.attempt + 1 >= self.policy.max_attempts
    }

    pub open spec fn spec_decide(self, outcome: Outcome) -> Decision {
        if self.is_last() || outcome.is_success() {
            Decision::Return
        } else {
            Decision::RetryAfter {
                delay: self.delay,
                next: RetryState {
                    policy: self.policy,
                    attempt: (self.attempt + 1) as u32,
                    delay: capped(2 * self.delay) as u64,
                },
            }
        }
    }

    /// The state before the first attempt.
    pub fn start(policy: RetryPolicy) -> (state: RetryState)
        ensures
            state == (RetryState { policy, attempt: 0, delay: policy.initial_delay }),
            policy.wf() ==> state.wf(),
    {
        RetryState { policy, attempt: 0, delay: policy.initial_delay }
    }

    /// Decides what follows an attempt that ended in `outcome`. The last
    /// attempt of the policy is returned without looking at it; before that a
    /// success is returned and anything else is retried after the current
    /// delay, which then doubles.
    pub fn decide(&self, outcome: Outcome) -> (decision: Decision)
        ensures
            decision == self.spec_decide(outcome),
            self.wf() ==> (decision matches Decision::RetryAfter { next, .. } ==> next.wf()),
    {
        if self.policy.max_attempts == 0 || self.attempt >= self.policy.max_attempts - 1 {
            return Decision::Return;
        }
        if outcome.succeeded() {
            return Decision::Return;
        }
        let next_delay: u64 = match self.delay.checked_mul(2) {
            Some(d) => d,
            None => u64::MAX,
        };
        proof {
            if self.wf() {
                lemma_capped_double(doubled(self.policy.initial_delay as int, self.attempt as nat));
            }
        }
        Decision::RetryAfter {
            delay: self.delay,
            next: RetryState { policy: self.policy, attempt: self.attempt + 1, delay: next_delay },
        }
    }
}

/// What a whole run does: how many attempts it makes and the waits between
/// them, in order. The result handed back is that of the last attempt made.
pub struct RetryTrace {
    pub attempts: nat,
    pub waits: Seq<u64>,
}

impl RetryState {
    /// The run from this state on, where attempt number `i`, counted from 0
    /// over the whole run, ends in `outcomes(i)`.
    pub open spec fn run(self, outcomes: spec_fn(nat) -> Outcome) -> RetryTrace
        decreases self.policy.max_attempts - self.attempt,
    {
        match self.spec_decide(outcomes(self.attempt as nat)) {
            Decision::Return => RetryTrace { attempts: (self.attempt + 1) as nat, waits: seq![] },
            Decision::RetryAfter { delay, next } => {
                let rest = next.run(outcomes);
                RetryTrace { attempts: rest.attempts, waits: seq![delay] + rest.waits }
            },
        }
    }
}

impl RetryPolicy {
    /// The run of a request under this policy.
    pub open spec fn run(self, outcomes: spec_fn(nat) -> Outcome) -> RetryTrace {
        (RetryState { policy: self, attempt: 0, delay: self.initial_delay }).run(outcomes)
    }
}

/// From any state, a run ends with the first success from here on or, if none
/// comes in time, with the policy's last attempt; every wait is the delay of
/// the schedule at its place.
pub proof fn lemma_run_from(state: RetryState, outcomes: spec_fn(nat) -> Outcome, stop: nat)
    requires
        state.wf(),
        state.attempt <= stop < state.policy.max_attempts,
        forall|i: nat| state.attempt <= i < stop ==> !(#[trigger] outcomes(i)).is_success(),
        stop + 1 == state.policy.max_attempts || outcomes(stop).is_success(),
    ensures
        state.run(outcomes).attempts == stop + 1,
        state.run(outcomes).waits.len() == stop - state.attempt,
        forall|k: int|
            0 <= k < stop - state.attempt ==> (#[trigger] state.run(outcomes).waits[k])
                == state.policy.delay_after((state.attempt + k) as nat),
    decreases stop - state.attempt,
{
    if state.attempt as nat == stop {
        assert(state.spec_decide(outcomes(state.attempt as nat)) == Decision::Return);
    } else {
        assert(!outcomes(state.attempt as nat).is_success());
        let next = RetryState {
            policy: state.policy,
            attempt: (state.attempt + 1) as u32,
            delay: capped(2 * state.delay) as u64,
        };
        lemma_capped_double(doubled(state.policy.initial_delay as int, state.attempt as nat));
        assert(next.wf());
        lemma_run_from(next, outcomes, stop);
        let rest = next.run(outcomes);
        let whole = state.run(outcomes);
        assert(whole.waits == seq![state.delay] + rest.waits);
        assert forall|k: int| 0 <= k < stop - state.attempt implies (#[trigger] whole.waits[k])
            == state.policy.delay_after((state.attempt + k) as nat) by {
            if k > 0 {
                assert(whole.waits[k] == rest.waits[k - 1]);
                assert((next.attempt + (k - 1)) as nat == (state.attempt + k) as nat);
            }
        }
    }
}

/// A request that never succeeds is tried exactly `max_attempts` times, with
/// waits of the initial delay, twice that, four times that and so on between
/// the attempts, and the result of the last attempt is what the caller gets.
pub proof fn lemma_always_failing(policy: RetryPolicy, outcomes: spec_fn(nat) -> Outcome)
    requires
        policy.wf(),
        forall|i: nat| i < policy.max_attempts ==> !(#[trigger] outcomes(i)).is_success(),
    ensures
        policy.run(outcomes).attempts == policy.max_attempts,
        policy.run(outcomes).waits.len() == policy.max_attempts - 1,
        forall|k: int|
            0 <= k < policy.max_attempts - 1 ==> (#[trigger] policy.run(outcomes).waits[k])
                == policy.delay_after(k as nat),
{
    let state = RetryState { policy, attempt: 0, delay: policy.initial_delay };
    lemma_run_from(state, outcomes, (policy.max_attempts - 1) as nat);
}

/// A run stops at the first success: if attempt number `first` is the first
/// to succeed and the policy allows that many, exactly `first + 1` attempts
/// are made, with the first `first` waits of the schedule between them.
pub proof fn lemma_stops_at_first_success(
    policy: RetryPolicy,
    outcomes: spec_fn(nat) -> Outcome,
    first: nat,
)
    requires
        policy.wf(),
        first < policy.max_attempts,
        outcomes(first).is_success(),
        forall|i: nat| i < first ==> !(#[trigger] outcomes(i)).is_success(),
    ensures
        policy.run(outcomes).attempts == first + 1,
        policy.run(outcomes).waits.len() == first,
        forall|k: int|
            0 <= k < first ==> (#[trigger] policy.run(outcomes).waits[k]) == policy.delay_after(
                k as nat,
            ),
{
    let state = RetryState { policy, attempt: 0, delay: policy.initial_delay };
    lemma_run_from(state, outcomes, first);
}

/// While the doubled delay still fits, the schedule is the plain doubling:
/// the initial delay, twice it, four times it.
pub proof fn lemma_delay_doubles(policy: RetryPolicy, k: nat)
    ensures
        policy.delay_after(0) == policy.initial_delay,
        policy.delay_after(k + 1) == capped(2 * policy.delay_after(k)),
        2 * policy.delay_after(k) <= u64::MAX ==> policy.delay_after(k + 1) == 2
            * policy.delay_after(k),
{
    lemma_capped_double(doubled(policy.initial_delay as int, k));
}

/// Doubling a capped value and capping again is capping the doubled value.
pub proof fn lemma_capped_double(d: int)
    ensures
        capped(2 * capped(d)) == capped(2 * d),
{
}

} // verus!
