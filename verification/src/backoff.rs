//! The wait between a failure and the next connection: exponential in the number of
//! failures in a row, capped, and spread by a jitter.

use vstd::prelude::*;
use vstd::arithmetic::power::{pow, lemma_pow0, lemma_pow_increases, lemma1_pow};

verus! {

/// The largest cap that a policy may have, in milliseconds: half of what 64 bits hold,
/// so that a delay with its jitter still fits.
pub const MAX_CAP_MS: u64 = 0x7fff_ffff_ffff_ffff;

/// How long to wait before connecting again.
#[derive(Clone, Copy, Debug, PartialEq, Eq, Structural)]
pub struct BackoffPolicy {
    initial_ms: u64,
    cap_ms: u64,
    multiplier: u64,
    jitter_pct: u8,
}

/// The delay of an attempt before jitter: the initial delay times the multiplier for
/// each failure before this one, and no more than the cap.
pub open spec fn base_delay(initial_ms: int, cap_ms: int, multiplier: int, attempt: nat) -> int {
    let grown = initial_ms * pow(multiplier, attempt);
    if grown < cap_ms {
        grown
    } else {
        cap_ms
    }
}

/// The share of the base delay, in percent, that one roll of the jitter picks: from 100
/// less the jitter to 100 more.
pub open spec fn jitter_factor(jitter_pct: int, roll: int) -> int {
    100 - jitter_pct + roll % (2 * jitter_pct + 1)
}

impl BackoffPolicy {
    pub closed spec fn initial_ms(self) -> int {
        self.initial_ms as int
    }

    pub closed spec fn cap_ms(self) -> int {
        self.cap_ms as int
    }

    pub closed spec fn multiplier(self) -> int {
        self.multiplier as int
    }

    pub closed spec fn jitter_pct(self) -> int {
        self.jitter_pct as int
    }

    /// What holds of every policy: it multiplies by one at least, cuts or adds no more
    /// than the whole delay, and its cap is no more than [`MAX_CAP_MS`].
    pub open spec fn wf(self) -> bool {
        &&& 0 <= self.initial_ms() <= u64::MAX
        &&& 0 <= self.cap_ms() <= MAX_CAP_MS
        &&& 1 <= self.multiplier() <= u64::MAX
        &&& 0 <= self.jitter_pct() <= 100
    }

    /// The delay of an attempt, in milliseconds, for one roll of the jitter.
    pub open spec fn delay(self, attempt: nat, roll: int) -> int {
        base_delay(self.initial_ms(), self.cap_ms(), self.multiplier(), attempt) * jitter_factor(
            self.jitter_pct(),
            roll,
        ) / 100
    }

    /// A policy, where the multiplier is one at least, the jitter 100 percent at most
    /// and the cap no more than [`MAX_CAP_MS`].
    pub fn new(initial_ms: u64, cap_ms: u64, multiplier: u64, jitter_pct: u8) -> (policy: Option<
        BackoffPolicy,
    >)
        ensures
            policy.is_some() <==> multiplier >= 1 && jitter_pct <= 100 && cap_ms <= MAX_CAP_MS,
            policy matches Some(p) ==> {
                &&& p.wf()
                &&& p.initial_ms() == initial_ms
                &&& p.cap_ms() == cap_ms
                &&& p.multiplier() == multiplier
                &&& p.jitter_pct() == jitter_pct
            },
    {
        if multiplier >= 1 && jitter_pct <= 100 && cap_ms <= MAX_CAP_MS {
            Some(BackoffPolicy { initial_ms, cap_ms, multiplier, jitter_pct })
        } else {
            None
        }
    }

    /// One second at first, doubled after every failure up to a minute, with a jitter
    /// of 20 percent.
    pub closed spec fn standard_policy() -> BackoffPolicy {
        BackoffPolicy { initial_ms: 1000, cap_ms: 60_000, multiplier: 2, jitter_pct: 20 }
    }

    /// One second at first, doubled after every failure up to a minute, with a jitter
    /// of 20 percent.
    pub fn standard() -> (policy: BackoffPolicy)
        ensures
            policy == Self::standard_policy(),
            policy.wf(),
            policy.initial_ms() == 1000,
            policy.cap_ms() == 60_000,
            policy.multiplier() == 2,
            policy.jitter_pct() == 20,
    {
        BackoffPolicy { initial_ms: 1000, cap_ms: 60_000, multiplier: 2, jitter_pct: 20 }
    }

    /// Whether the policy is well formed.
    pub fn is_valid(&self) -> (valid: bool)
        ensures
            valid == self.wf(),
    {
        self.multiplier >= 1 && self.jitter_pct <= 100 && self.cap_ms <= MAX_CAP_MS
    }

    /// The delay of an attempt before jitter.
    pub fn base_delay_ms(&self, attempt: u32) -> (base: u64)
        requires
            self.wf(),
        ensures
            base == base_delay(self.initial_ms(), self.cap_ms(), self.multiplier(), attempt as nat),
            base <= self.cap_ms(),
    {
        let ghost initial = self.initial_ms as int;
        let ghost multiplier = self.multiplier as int;
        let ghost cap = self.cap_ms as int;
        if self.initial_ms == 0 {
            assert(initial * pow(multiplier, attempt as nat) == 0) by (nonlinear_arith)
                requires
                    initial == 0,
            ;
            return 0;
        }
        if self.multiplier == 1 {
            proof {
                lemma1_pow(attempt as nat);
                assert(initial * 1 == initial);
            }
            return if self.initial_ms < self.cap_ms {
                self.initial_ms
            } else {
                self.cap_ms
            };
        }
        proof {
            lemma_pow0(multiplier);
            assert(initial * 1 == initial);
        }
        let mut current: u64 = if self.initial_ms < self.cap_ms {
            self.initial_ms
        } else {
            self.cap_ms
        };
        let mut i: u32 = 0;
        while i < attempt && current < self.cap_ms
            invariant
                self.wf(),
                initial == self.initial_ms,
                multiplier == self.multiplier,
                cap == self.cap_ms,
                initial >= 1,
                i <= attempt,
                current == base_delay(initial, cap, multiplier, i as nat),
            decreases attempt - i,
        {
            let ghost grown = initial * pow(multiplier, i as nat);
            assert(current == grown);
            assert(grown * multiplier == initial * pow(multiplier, (i + 1) as nat)) by {
                reveal(pow);
                assert(pow(multiplier, (i + 1) as nat) == multiplier * pow(multiplier, i as nat));
                assert(initial * pow(multiplier, i as nat) * multiplier == initial * (multiplier
                    * pow(multiplier, i as nat))) by (nonlinear_arith);
            }
            assert(current * self.multiplier <= u64::MAX * u64::MAX) by (nonlinear_arith)
                requires
                    0 <= current <= u64::MAX,
                    0 <= self.multiplier <= u64::MAX,
            ;
            let next: u128 = (current as u128) * (self.multiplier as u128);
            if next < self.cap_ms as u128 {
                current = next as u64;
            } else {
                current = self.cap_ms;
            }
            i = i + 1;
        }
        proof {
            if i < attempt {
                let at_i = initial * pow(multiplier, i as nat);
                let at_end = initial * pow(multiplier, attempt as nat);
                lemma_pow_increases(multiplier as nat, i as nat, attempt as nat);
                assert(at_i <= at_end) by (nonlinear_arith)
                    requires
                        at_i == initial * pow(multiplier, i as nat),
                        at_end == initial * pow(multiplier, attempt as nat),
                        pow(multiplier, i as nat) <= pow(multiplier, attempt as nat),
                        initial >= 1,
                ;
            }
        }
        current
    }

    /// The delay of an attempt: the base delay, scaled by what `roll` picks between 100
    /// percent less the jitter and 100 percent more. The caller draws `roll` at random.
    pub fn delay_ms(&self, attempt: u32, roll: u64) -> (delay: u64)
        requires
            self.wf(),
        ensures
            delay == self.delay(attempt as nat, roll as int),
    {
        let base = self.base_delay_ms(attempt);
        let span: u64 = 2 * (self.jitter_pct as u64) + 1;
        let factor: u64 = 100 - (self.jitter_pct as u64) + roll % span;
        assert(base * factor <= MAX_CAP_MS * 200) by (nonlinear_arith)
            requires
                0 <= base <= MAX_CAP_MS,
                0 <= factor <= 200,
        ;
        let scaled: u128 = (base as u128) * (factor as u128) / 100;
        scaled as u64
    }
}

/// The jitter moves a delay by no more than its percentage: every delay lies between the
/// base delay less the jitter and the base delay with the jitter added.
pub proof fn law_delay_within_jitter(policy: BackoffPolicy, attempt: nat, roll: int)
    requires
        policy.wf(),
        roll >= 0,
    ensures
        ({
            let base = base_delay(
                policy.initial_ms(),
                policy.cap_ms(),
                policy.multiplier(),
                attempt,
            );
            let jitter = policy.jitter_pct();
            base * (100 - jitter) / 100 <= policy.delay(attempt, roll) <= base * (100 + jitter)
                / 100
        }),
{
    let base = base_delay(policy.initial_ms(), policy.cap_ms(), policy.multiplier(), attempt);
    let jitter = policy.jitter_pct();
    let factor = jitter_factor(jitter, roll);
    lemma_base_delay_bounds(policy.initial_ms(), policy.cap_ms(), policy.multiplier(), attempt);
    assert(100 - jitter <= factor <= 100 + jitter);
    assert(base * (100 - jitter) <= base * factor <= base * (100 + jitter)) by (nonlinear_arith)
        requires
            base >= 0,
            100 - jitter <= factor <= 100 + jitter,
    ;
    assert(base * (100 - jitter) / 100 <= base * factor / 100 <= base * (100 + jitter) / 100);
}

/// The base delay never shrinks from one attempt to the next.
pub proof fn law_base_delay_grows(initial_ms: int, cap_ms: int, multiplier: int, attempt: nat)
    requires
        initial_ms >= 0,
        cap_ms >= 0,
        multiplier >= 1,
    ensures
        base_delay(initial_ms, cap_ms, multiplier, attempt) <= base_delay(
            initial_ms,
            cap_ms,
            multiplier,
            attempt + 1,
        ),
{
    lemma_pow_increases(multiplier as nat, attempt, attempt + 1);
    let now = pow(multiplier, attempt);
    let next = pow(multiplier, attempt + 1);
    assert(initial_ms * now <= initial_ms * next) by (nonlinear_arith)
        requires
            initial_ms >= 0,
            now <= next,
    ;
}

/// A base delay is neither negative nor above the cap.
pub proof fn lemma_base_delay_bounds(initial_ms: int, cap_ms: int, multiplier: int, attempt: nat)
    requires
        initial_ms >= 0,
        cap_ms >= 0,
        multiplier >= 1,
    ensures
        0 <= base_delay(initial_ms, cap_ms, multiplier, attempt) <= cap_ms,
{
    lemma_pow0(multiplier);
    lemma_pow_increases(multiplier as nat, 0, attempt);
    assert(initial_ms * pow(multiplier, attempt) >= 0) by (nonlinear_arith)
        requires
            initial_ms >= 0,
            pow(multiplier, attempt) >= 1,
    ;
}

} // verus!
