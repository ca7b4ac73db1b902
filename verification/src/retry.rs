//! Restart budget and exponential backoff.

use vstd::prelude::*;

verus! {

/// The longest pause between two restarts, in milliseconds.
pub const MAX_DELAY_MS: u64 = 30000;

/// `initial` doubled `k` times.
pub open spec fn doubled(initial: nat, k: nat) -> nat
    decreases k,
{
    if k == 0 {
        initial
    } else {
        2 * doubled(initial, (k - 1) as nat)
    }
}

/// The pause before the restart that follows `k` earlier ones: the initial
/// delay doubled `k` times, capped at thirty seconds.
pub open spec fn backoff_ms(initial: nat, k: nat) -> nat {
    if doubled(initial, k) < MAX_DELAY_MS {
        doubled(initial, k)
    } else {
        MAX_DELAY_MS as nat
    }
}

/// What a retry policy holds, as plain values.
pub struct RetryPolicyView {
    pub max_attempts: nat,
    pub current_attempt: nat,
    pub initial_delay_ms: nat,
}

/// How many restarts are allowed, how many have been used, and how long to
/// wait before each.
#[derive(Debug, Clone, Copy)]
pub struct RetryPolicy {
    max_attempts: u32,
    current_attempt: u32,
    initial_delay_ms: u64,
}

impl View for RetryPolicy {
    type V = RetryPolicyView;

    closed spec fn view(&self) -> RetryPolicyView {
        RetryPolicyView {
            max_attempts: self.max_attempts as nat,
            current_attempt: self.current_attempt as nat,
            initial_delay_ms: self.initial_delay_ms as nat,
        }
    }
}

impl RetryPolicy {
    /// A policy that allows `max_attempts` restarts, the first after `initial_delay_ms`.
    pub fn new(max_attempts: u32, initial_delay_ms: u64) -> (r: Self)
        ensures
            r@ == (RetryPolicyView {
                max_attempts: max_attempts as nat,
                current_attempt: 0,
                initial_delay_ms: initial_delay_ms as nat,
            }),
    {
        Self { max_attempts, current_attempt: 0, initial_delay_ms }
    }

    /// Whether another restart is allowed.
    pub fn should_retry(&self) -> (r: bool)
        ensures
            r == (self@.current_attempt < self@.max_attempts),
            self@.max_attempts <= u32::MAX,
    {
        self.current_attempt < self.max_attempts
    }

    /// How many restarts have been used since the last reset.
    pub fn current_attempt(&self) -> (r: u32)
        ensures
            r == self@.current_attempt,
    {
        self.current_attempt
    }

    /// How many restarts are allowed.
    pub fn max_attempts(&self) -> (r: u32)
        ensures
            r == self@.max_attempts,
    {
        self.max_attempts
    }

    /// The initial delay, in milliseconds.
    pub fn initial_delay_ms(&self) -> (r: u64)
        ensures
            r == self@.initial_delay_ms,
    {
        self.initial_delay_ms
    }

    /// Counts one more restart and gives the pause before it, in
    /// milliseconds: the initial delay doubled once per earlier restart,
    /// capped at thirty seconds.
    pub fn next_delay(&mut self) -> (r: u64)
        requires
            old(self)@.current_attempt < u32::MAX,
        ensures
            final(self)@ == (RetryPolicyView {
                current_attempt: old(self)@.current_attempt + 1,
                ..old(self)@
            }),
            r == backoff_ms(old(self)@.initial_delay_ms, old(self)@.current_attempt),
    {
        let k = self.current_attempt;
        self.current_attempt = self.current_attempt + 1;
        let mut delay: u64 = self.initial_delay_ms;
        let mut i: u32 = 0;
        while i < k && delay < MAX_DELAY_MS
            invariant
                i <= k,
                delay == doubled(self.initial_delay_ms as nat, i as nat),
            decreases k - i,
        {
            delay = delay * 2;
            i = i + 1;
        }
        if delay < MAX_DELAY_MS {
            delay
        } else {
            proof {
                lemma_doubled_grows(self.initial_delay_ms as nat, i as nat, k as nat);
            }
            MAX_DELAY_MS
        }
    }

    /// Gives back the whole restart budget.
    pub fn reset(&mut self)
        ensures
            final(self)@ == (RetryPolicyView { current_attempt: 0, ..old(self)@ }),
    {
        self.current_attempt = 0;
    }
}

impl Default for RetryPolicy {
    /// Three restarts, the first after one second.
    fn default() -> (r: Self)
        ensures
            r@ == (RetryPolicyView { max_attempts: 3, current_attempt: 0, initial_delay_ms: 1000 }),
    {
        Self::new(3, 1000)
    }
}

proof fn lemma_doubled_grows(initial: nat, i: nat, k: nat)
    requires
        i <= k,
    ensures
        doubled(initial, i) <= doubled(initial, k),
    decreases k - i,
{
    if i < k {
        lemma_doubled_grows(initial, i, (k - 1) as nat);
    }
}

/// Doubling is multiplying by a power of two.
pub proof fn doubled_is_power_of_two_multiple(initial: nat, k: nat)
    ensures
        doubled(initial, k) == initial * vstd::arithmetic::power2::pow2(k),
    decreases k,
{
    if k > 0 {
        vstd::arithmetic::power2::lemma_pow2_unfold(k);
        doubled_is_power_of_two_multiple(initial, (k - 1) as nat);
        let p = vstd::arithmetic::power2::pow2((k - 1) as nat);
        assert(initial * (2 * p) == 2 * (initial * p)) by (nonlinear_arith);
    } else {
        vstd::arithmetic::power2::lemma2_to64();
    }
}

/// No pause is ever longer than thirty seconds.
pub proof fn backoff_is_capped(initial: nat, k: nat)
    ensures
        backoff_ms(initial, k) <= MAX_DELAY_MS,
{
}

/// The first pause is the initial delay (or the cap, if that is shorter).
pub proof fn first_backoff_is_initial(initial: nat)
    ensures
        backoff_ms(initial, 0) == if initial < MAX_DELAY_MS {
            initial
        } else {
            MAX_DELAY_MS as nat
        },
{
}

/// Pauses never shrink from one restart to the next.
pub proof fn backoff_never_shrinks(initial: nat, k: nat)
    ensures
        backoff_ms(initial, k) <= backoff_ms(initial, k + 1),
{
    lemma_doubled_grows(initial, k, k + 1);
}

/// Below the cap, each pause is twice the one before; and while the cap is
/// not reached, a non-zero initial delay makes every pause longer than the last.
pub proof fn backoff_doubles_below_cap(initial: nat, k: nat)
    ensures
        doubled(initial, k + 1) < MAX_DELAY_MS ==> backoff_ms(initial, k + 1) == 2 * backoff_ms(
            initial,
            k,
        ),
        initial > 0 && backoff_ms(initial, k) < MAX_DELAY_MS ==> backoff_ms(initial, k)
            < backoff_ms(initial, k + 1),
{
    lemma_doubled_positive(initial, k);
}

proof fn lemma_doubled_positive(initial: nat, k: nat)
    ensures
        initial > 0 ==> doubled(initial, k) > 0,
    decreases k,
{
    if k > 0 {
        lemma_doubled_positive(initial, (k - 1) as nat);
    }
}

/// Every pause is at least the initial delay, unless the cap is shorter.
pub proof fn backoff_at_least_initial(initial: nat, k: nat)
    ensures
        backoff_ms(initial, k) >= if initial < MAX_DELAY_MS {
            initial
        } else {
            MAX_DELAY_MS as nat
        },
{
    lemma_doubled_grows(initial, 0, k);
}

} // verus!
