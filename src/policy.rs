use vstd::prelude::*;

verus! {

/// Upper bound, in milliseconds, of any restart delay.
pub const MAX_DELAY_MS: u64 = 60000;

/// `2^e`.
pub open spec fn power_of_two(e: nat) -> nat
    decreases e,
{
    if e == 0 {
        1
    } else {
        2 * power_of_two((e - 1) as nat)
    }
}

/// The delay before restart `attempt` (counted from 1), in milliseconds:
/// `min(base * 2^(attempt - 1), 60 s)`. Attempt 0 is treated as attempt 1.
pub open spec fn backoff_ms(base: nat, attempt: nat) -> nat {
    let exp: nat = if attempt == 0 {
        0
    } else {
        (attempt - 1) as nat
    };
    let d = base * power_of_two(exp);
    if d < MAX_DELAY_MS as nat {
        d
    } else {
        MAX_DELAY_MS as nat
    }
}

/// How a failed service is restarted: an attempt budget and an exponential
/// backoff.
#[derive(Clone, Copy, Debug)]
pub struct RestartPolicy {
    /// Number of failed runs after which the service is given up.
    /// `None` means that it is restarted without limit.
    pub max_attempts: Option<usize>,
    /// Delay before the first restart, in milliseconds.
    pub base_delay_ms: u64,
}

impl Default for RestartPolicy {
    /// Five attempts, starting at one second.
    fn default() -> (r: Self)
        ensures
            r.max_attempts == Some(5usize),
            r.base_delay_ms == 1000,
    {
        RestartPolicy { max_attempts: Some(5), base_delay_ms: 1000 }
    }
}

impl RestartPolicy {
    /// Sets the number of failed runs after which the service is given up.
    pub fn with_max_attempts(self, attempts: usize) -> (r: Self)
        ensures
            r.max_attempts == Some(attempts),
            r.base_delay_ms == self.base_delay_ms,
    {
        let mut p = self;
        p.max_attempts = Some(attempts);
        p
    }

    /// Sets the delay before the first restart, in milliseconds.
    pub fn with_delay(self, delay_ms: u64) -> (r: Self)
        ensures
            r.max_attempts == self.max_attempts,
            r.base_delay_ms == delay_ms,
    {
        let mut p = self;
        p.base_delay_ms = delay_ms;
        p
    }

    /// The delay before restart `attempt`, in milliseconds.
    pub fn delay(&self, attempt: usize) -> (r: u64)
        ensures
            r as nat == backoff_ms(self.base_delay_ms as nat, attempt as nat),
    {
        self.delay_for_attempt(attempt)
    }

    /// The exponential backoff for restart `attempt`: the base delay doubled
    /// on each further attempt, capped at sixty seconds.
    pub fn delay_for_attempt(&self, attempt: usize) -> (r: u64)
        ensures
            r as nat == backoff_ms(self.base_delay_ms as nat, attempt as nat),
    {
        let base = self.base_delay_ms;
        let exp: usize = if attempt == 0 {
            0
        } else {
            attempt - 1
        };
        if base == 0 {
            proof {
                assert(0 * power_of_two(exp as nat) == 0) by (nonlinear_arith);
            }
            return 0;
        }
        assert(power_of_two(0) == 1);
        if base >= MAX_DELAY_MS {
            proof {
                lemma_scaled_power_grows(base as nat, 0, exp as nat);
            }
            return MAX_DELAY_MS;
        }
        let mut d: u64 = base;
        let mut i: usize = 0;
        while i < exp
            invariant
                0 < base,
                base == self.base_delay_ms,
                i <= exp,
                exp as nat == (if attempt == 0 { 0 } else { attempt - 1 }),
                d as nat == base as nat * power_of_two(i as nat),
                d < 2 * MAX_DELAY_MS,
            decreases exp - i,
        {
            if d >= MAX_DELAY_MS {
                proof {
                    lemma_scaled_power_grows(base as nat, i as nat, exp as nat);
                    assert(base as nat * power_of_two(exp as nat) >= MAX_DELAY_MS as nat);
                }
                return MAX_DELAY_MS;
            }
            proof {
                assert(base as nat * power_of_two((i + 1) as nat) == 2 * (base as nat
                    * power_of_two(i as nat))) by (nonlinear_arith)
                    requires
                        power_of_two((i + 1) as nat) == 2 * power_of_two(i as nat),
                ;
            }
            d = d * 2;
            i = i + 1;
        }
        if d >= MAX_DELAY_MS {
            MAX_DELAY_MS
        } else {
            d
        }
    }
}

/// `base * 2^i <= base * 2^j` for `i <= j`.
pub proof fn lemma_scaled_power_grows(base: nat, i: nat, j: nat)
    requires
        i <= j,
    ensures
        base * power_of_two(i) <= base * power_of_two(j),
    decreases j - i,
{
    if i < j {
        lemma_scaled_power_grows(base, i, (j - 1) as nat);
        assert(base * power_of_two(j) == 2 * (base * power_of_two((j - 1) as nat)))
            by (nonlinear_arith)
            requires
                power_of_two(j) == 2 * power_of_two((j - 1) as nat),
        ;
    }
}

/// Restart delays never shrink as the attempts go on, and none exceeds
/// sixty seconds.
pub proof fn lemma_backoff_monotone(base: nat, a: nat, b: nat)
    requires
        1 <= a <= b,
    ensures
        backoff_ms(base, a) <= backoff_ms(base, b),
        backoff_ms(base, b) <= MAX_DELAY_MS,
{
    lemma_scaled_power_grows(base, (a - 1) as nat, (b - 1) as nat);
}

/// The first restart waits exactly the base delay, when that is at most
/// sixty seconds.
pub proof fn lemma_first_backoff_is_base(base: nat)
    requires
        base <= MAX_DELAY_MS,
    ensures
        backoff_ms(base, 1) == base,
{
    assert(power_of_two(0) == 1);
    assert(base * power_of_two(0) == base);
}

/// With a positive base, each restart waits strictly longer than the one
/// before, until the sixty-second cap is reached.
pub proof fn lemma_backoff_strictly_increases(base: nat, a: nat)
    requires
        base > 0,
        a >= 1,
        backoff_ms(base, a) < MAX_DELAY_MS,
    ensures
        backoff_ms(base, a) < backoff_ms(base, a + 1),
{
    let e = (a - 1) as nat;
    assert(power_of_two(e + 1) == 2 * power_of_two(e));
    assert(power_of_two(e) >= 1) by {
        lemma_power_of_two_positive(e);
    }
    assert(base * power_of_two(e + 1) == 2 * (base * power_of_two(e))) by (nonlinear_arith)
        requires
            power_of_two(e + 1) == 2 * power_of_two(e),
    ;
    assert(base * power_of_two(e) >= 1) by (nonlinear_arith)
        requires
            base > 0,
            power_of_two(e) >= 1,
    ;
}

/// `2^e >= 1`.
pub proof fn lemma_power_of_two_positive(e: nat)
    ensures
        power_of_two(e) >= 1,
    decreases e,
{
    if e > 0 {
        lemma_power_of_two_positive((e - 1) as nat);
    }
}

} // verus!
