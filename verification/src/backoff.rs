//! Bounded retry with backoff: how long to wait after a failed attempt, and when
//! to give up. The launcher, the session client and the wait for the page all
//! retry by the same rule.

use vstd::prelude::*;
use vstd::arithmetic::power::{lemma_pow1, lemma_pow_positive, lemma_pow_strictly_increases, pow};

verus! {

/// The delay, in milliseconds, that an exponential backoff starting at `base`
/// milliseconds yields at position `index`, counted from zero.
pub uninterp spec fn exponential_delay(base: u64, index: u8) -> u64;

/// The largest number up to which every whole number is a double-precision
/// number of its own: 2 to the power of 53.
pub open spec fn exact_limit() -> int {
    0x20_0000_0000_0000
}

/// The delay of an exponential backoff at position `index`, as far as it can be
/// written down: the base itself at first, then the base times the delay before,
/// that is the base to the power of `index + 1`, as long as that power is below
/// [`exact_limit`]; beyond it, what the backoff computes.
pub open spec fn exponential_millis(base: u64, index: u8) -> u64 {
    if index == 0 {
        base
    } else if pow(base as int, (index + 1) as nat) < exact_limit() {
        pow(base as int, (index + 1) as nat) as u64
    } else {
        exponential_delay(base, index)
    }
}

/// Calls `retry::delay::Exponential::from_millis` with `base` and takes the item at
/// position `index` of the iterator it returns, in whole milliseconds. The
/// iterator never ends. Its first item is the base itself; each later one is the
/// item before times the base, computed in double precision and cut off at the
/// largest `u64`. The contract claims that the item is a function of `base` and
/// `index`, that the first one is `base`, and that the item is the exact power
/// of the base as long as that power is below 2 to the power of 53, where double
/// precision holds every whole number and every such product exactly.
#[verifier::external_body]
fn exponential_delay_millis(base: u64, index: u8) -> (millis: u64)
    ensures
        millis == exponential_delay(base, index),
        index == 0 ==> millis == base,
        pow(base as int, (index + 1) as nat) < exact_limit() ==> millis == pow(
            base as int,
            (index + 1) as nat,
        ),
{
    let mut delays = retry::delay::Exponential::from_millis(base);
    delays.nth(index as usize).unwrap_or_default().as_millis() as u64
}

/// How the delay between two attempts is chosen.
#[derive(Clone, Copy, Debug, PartialEq, Eq, Structural)]
pub enum Backoff {
    /// The delay grows exponentially from `base_millis`.
    Exponential {
        /// The first delay, in milliseconds.
        base_millis: u64,
    },
    /// Every delay is `millis` long.
    Fixed {
        /// The delay, in milliseconds.
        millis: u64,
    },
}

impl Backoff {
    /// The delay before the retry that follows `failures + 1` failed attempts.
    pub open spec fn delay(self, failures: u8) -> u64 {
        match self {
            Backoff::Exponential { base_millis } => exponential_millis(base_millis, failures),
            Backoff::Fixed { millis } => millis,
        }
    }

    /// The delay, in milliseconds, before the retry that follows `failures + 1`
    /// failed attempts.
    pub fn delay_millis(&self, failures: u8) -> (millis: u64)
        ensures
            millis == self.delay(failures),
            failures == 0 && self is Exponential ==> millis == self->base_millis,
    {
        match self {
            Backoff::Exponential { base_millis } => exponential_delay_millis(*base_millis, failures),
            Backoff::Fixed { millis } => *millis,
        }
    }
}

/// What to do after a failed attempt.
#[derive(Clone, Copy, Debug, PartialEq, Eq, Structural)]
pub enum Verdict {
    /// Wait, then try again.
    RetryAfter {
        /// How long to wait, in milliseconds.
        millis: u64,
    },
    /// The attempts are used up.
    GiveUp,
}

/// A bound on the attempts and the delays between them.
#[derive(Clone, Copy, Debug, PartialEq, Eq, Structural)]
pub struct RetryPolicy {
    /// How many attempts may be made in all.
    pub max_attempts: u8,
    /// The delays between the attempts.
    pub backoff: Backoff,
}

impl RetryPolicy {
    /// Whether one more attempt may be made after `failures` failed ones.
    pub open spec fn allows(self, failures: u8) -> bool {
        failures < self.max_attempts
    }

    /// The verdict on the attempt that failed after `failures` earlier failures:
    /// retry while another attempt is allowed, after the delay of the backoff.
    pub open spec fn verdict(self, failures: u8) -> Verdict {
        if failures + 1 < self.max_attempts {
            Verdict::RetryAfter { millis: self.backoff.delay(failures) }
        } else {
            Verdict::GiveUp
        }
    }

    /// Whether one more attempt may be made after `failures` failed ones.
    pub fn may_attempt(&self, failures: u8) -> (allowed: bool)
        ensures
            allowed == self.allows(failures),
    {
        failures < self.max_attempts
    }

    /// Decides what follows an attempt that failed after `failures` earlier failures.
    pub fn after_failure(&self, failures: u8) -> (verdict: Verdict)
        ensures
            verdict == self.verdict(failures),
            failures == 0 && 1 < self.max_attempts && self.backoff is Exponential ==> verdict
                == (Verdict::RetryAfter { millis: self.backoff->base_millis }),
    {
        if failures < u8::MAX && failures + 1 < self.max_attempts {
            Verdict::RetryAfter { millis: self.backoff.delay_millis(failures) }
        } else {
            Verdict::GiveUp
        }
    }
}

/// The first delay of an exponential backoff is its base, and the first delays of
/// the usual base of 100 ms are 100 ms, 10 s and 1000 s.
pub proof fn lemma_first_delays(base: u64)
    ensures
        (Backoff::Exponential { base_millis: base }).delay(0) == base,
        (Backoff::Exponential { base_millis: 100 }).delay(0) == 100,
        (Backoff::Exponential { base_millis: 100 }).delay(1) == 10_000,
        (Backoff::Exponential { base_millis: 100 }).delay(2) == 1_000_000,
{
    reveal_with_fuel(pow, 4);
    assert(pow(100, 2) == 10_000);
    assert(pow(100, 3) == 1_000_000);
}

/// The delays of an exponential backoff grow: as long as the power of the base
/// is below [`exact_limit`], each delay is the base times the delay before it,
/// and for a base of at least two it is longer than the delay before it.
pub proof fn lemma_delays_grow(base: u64, failures: u8)
    requires
        failures < u8::MAX,
        pow(base as int, (failures + 2) as nat) < exact_limit(),
    ensures
        (Backoff::Exponential { base_millis: base }).delay((failures + 1) as u8) == base * (
        Backoff::Exponential { base_millis: base }).delay(failures),
        base >= 2 ==> (Backoff::Exponential { base_millis: base }).delay(failures) < (
        Backoff::Exponential { base_millis: base }).delay((failures + 1) as u8),
{
    let here = pow(base as int, (failures + 1) as nat);
    let next = pow(base as int, (failures + 2) as nat);
    assert(next == base * here) by {
        reveal(pow);
    }
    lemma_pow1(base as int);
    if base == 0 {
        assert(here == 0) by {
            reveal(pow);
        }
    } else {
        lemma_pow_positive(base as int, (failures + 1) as nat);
        assert(here <= next) by (nonlinear_arith)
            requires
                next == base * here,
                base >= 1,
                here > 0,
        ;
        if base >= 2 {
            lemma_pow_strictly_increases(base as nat, (failures + 1) as nat, (failures + 2) as nat);
        }
    }
}

/// A fixed backoff never changes its delay.
pub proof fn lemma_fixed_delays(millis: u64, failures: u8)
    ensures
        (Backoff::Fixed { millis }).delay(failures) == millis,
{
}

} // verus!
