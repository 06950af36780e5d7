use vstd::prelude::*;
use crate::wide::{less_than, limb_pow, limbs_val, mul_small, pow_nat, quotient_capped, times_at_most};

verus! {

/// Decides whether and how long to wait before the next connection attempt,
/// given a zero-based attempt counter.
pub trait ReconnectPolicy {
    /// Delay before attempt `attempt + 1`, in milliseconds.
    spec fn delay_spec(&self, attempt: u32) -> u32;

    /// Most attempts; zero for no limit.
    spec fn attempt_limit(&self) -> u32;

    fn delay_ms(&self, attempt: u32) -> (r: u32)
        ensures
            r == self.delay_spec(attempt),
    ;

    /// Always true without a limit, else true exactly below the limit.
    fn should_reconnect(&self, attempt: u32) -> (r: bool)
        ensures
            r == (self.attempt_limit() == 0 || attempt < self.attempt_limit()),
    ;

    /// Clears any retry state after a successful connection.
    fn reset(&mut self)
        ensures
            final(self).attempt_limit() == old(self).attempt_limit(),
    ;
}

/// `initial * (m / 1000)^a`, rounded down once.
pub open spec fn exact_growth(initial: nat, m: nat, a: nat) -> nat {
    initial * pow_nat(m, a) / pow_nat(1000, a)
}

proof fn lemma_pow_pos(b: nat, e: nat)
    requires
        b > 0,
    ensures
        pow_nat(b, e) > 0,
    decreases e,
{
    if e > 0 {
        lemma_pow_pos(b, (e - 1) as nat);
        let p = pow_nat(b, (e - 1) as nat);
        assert(b * p > 0) by (nonlinear_arith)
            requires
                b > 0,
                p > 0,
        ;
    }
}

/// With a factor of at least one, once the delay reaches `cap` it stays there.
proof fn lemma_reaches_cap(initial: nat, m: nat, cap: nat, k: nat, a: nat)
    requires
        m >= 1000,
        k <= a,
        cap * pow_nat(1000, k) <= initial * pow_nat(m, k),
    ensures
        cap * pow_nat(1000, a) <= initial * pow_nat(m, a),
    decreases a - k,
{
    if a > k {
        lemma_reaches_cap(initial, m, cap, k, (a - 1) as nat);
        let x = pow_nat(1000, (a - 1) as nat);
        let y = pow_nat(m, (a - 1) as nat);
        assert(cap * (1000 * x) <= initial * (m * y)) by (nonlinear_arith)
            requires
                cap * x <= initial * y,
                m >= 1000,
        ;
    }
}

/// With a factor of at most one, once the delay is under one it stays there.
proof fn lemma_stays_below_one(initial: nat, m: nat, k: nat, a: nat)
    requires
        m <= 1000,
        k <= a,
        initial * pow_nat(m, k) < pow_nat(1000, k),
    ensures
        initial * pow_nat(m, a) < pow_nat(1000, a),
    decreases a - k,
{
    if a > k {
        lemma_stays_below_one(initial, m, k, (a - 1) as nat);
        let x = pow_nat(1000, (a - 1) as nat);
        let y = pow_nat(m, (a - 1) as nat);
        assert(initial * (m * y) < 1000 * x) by (nonlinear_arith)
            requires
                initial * y < x,
                m <= 1000,
        ;
    }
}

/// With a factor of exactly one, the delay never changes.
proof fn lemma_flat(initial: nat, a: nat)
    ensures
        exact_growth(initial, 1000, a) == initial,
{
    lemma_pow_pos(1000, a);
    let p = pow_nat(1000, a);
    assert(initial * p / p == initial) by (nonlinear_arith)
        requires
            p > 0,
    ;
}

/// `min(cap, exact_growth(initial, m, attempt))`.
fn exact_base(initial: u32, m: u32, cap: u32, attempt: u32) -> (r: u32)
    ensures
        r == (if exact_growth(initial as nat, m as nat, attempt as nat) >= cap {
            cap as nat
        } else {
            exact_growth(initial as nat, m as nat, attempt as nat)
        }),
{
    let ghost g = exact_growth(initial as nat, m as nat, attempt as nat);
    proof {
        lemma_pow_pos(1000, attempt as nat);
    }
    if initial == 0 || cap == 0 {
        proof {
            let p = pow_nat(m as nat, attempt as nat);
            let q = pow_nat(1000, attempt as nat);
            assert(initial == 0 ==> (initial as nat) * p / q == 0) by (nonlinear_arith)
                requires
                    q > 0,
            ;
        }
        return 0;
    }
    let mut n: Vec<u32> = Vec::new();
    n.push(initial);
    let mut d: Vec<u32> = Vec::new();
    d.push(1);
    proof {
        assert(n@.drop_last() =~= Seq::<u32>::empty());
        assert(d@.drop_last() =~= Seq::<u32>::empty());
        assert(limbs_val(Seq::<u32>::empty()) == 0);
        assert(limb_pow(0) == 1);
        assert(limbs_val(n@) == limbs_val(n@.drop_last()) + n@.last() as nat * limb_pow(0));
        assert(limbs_val(d@) == limbs_val(d@.drop_last()) + d@.last() as nat * limb_pow(0));
        assert(pow_nat(m as nat, 0) == 1);
        assert(limbs_val(n@) == initial * pow_nat(m as nat, 0));
        assert(limbs_val(d@) == pow_nat(1000, 0));
    }
    let mut k: u32 = 0;
    loop
        invariant
            n@.len() == d@.len(),
            k <= attempt,
            initial > 0,
            cap > 0,
            limbs_val(n@) == initial * pow_nat(m as nat, k as nat),
            limbs_val(d@) == pow_nat(1000, k as nat),
            g == exact_growth(initial as nat, m as nat, attempt as nat),
            pow_nat(1000, attempt as nat) > 0,
        decreases attempt - k,
    {
        proof {
            lemma_pow_pos(1000, k as nat);
        }
        if k == attempt {
            return quotient_capped(&n, &d, cap);
        }
        if m >= 1000 && times_at_most(&d, cap, &n) {
            proof {
                lemma_reaches_cap(initial as nat, m as nat, cap as nat, k as nat, attempt as nat);
                let x: nat = (initial as nat) * pow_nat(m as nat, attempt as nat);
                let y = pow_nat(1000, attempt as nat);
                assert(x / y >= cap) by (nonlinear_arith)
                    requires
                        cap * y <= x,
                        y > 0,
                ;
            }
            return cap;
        }
        if m <= 1000 && less_than(&n, &d) {
            proof {
                lemma_stays_below_one(initial as nat, m as nat, k as nat, attempt as nat);
                let x: nat = (initial as nat) * pow_nat(m as nat, attempt as nat);
                let y = pow_nat(1000, attempt as nat);
                assert(x / y == 0) by (nonlinear_arith)
                    requires
                        x < y,
                ;
            }
            return 0;
        }
        if m == 1000 {
            proof {
                lemma_flat(initial as nat, attempt as nat);
                lemma_flat(initial as nat, k as nat);
            }
            return quotient_capped(&n, &d, cap);
        }
        let n2 = mul_small(&n, m);
        let d2 = mul_small(&d, 1000);
        proof {
            let pm = pow_nat(m as nat, k as nat);
            assert(initial * pm * m == initial * (m * pm)) by (nonlinear_arith);
            assert(pow_nat(1000, k as nat) * 1000 == 1000 * pow_nat(1000, k as nat)) by (nonlinear_arith);
        }
        n = n2;
        d = d2;
        k = k + 1;
    }
}

/// Deterministic jitter of up to a fifth of `delay` either way, chosen by
/// the attempt number, with a floor of 100 ms.
pub open spec fn jittered(delay: u32, attempt: u32) -> u32 {
    let range = delay / 5;
    let pick = ((attempt as int * 7919) % 0x1_0000_0000) % (range * 2 + 1);
    let d = delay + pick - range;
    capped_u32(if d < 100 { 100 } else { d })
}

/// Jitter keeps the delay within a fifth of its base either way, and never
/// under 100 ms.
pub proof fn law_jitter_window(delay: u32, attempt: u32)
    ensures
        jittered(delay, attempt) >= 100,
        jittered(delay, attempt) >= delay - delay / 5,
        jittered(delay, attempt) <= (if delay + delay / 5 < 100 { 100 } else { delay + delay / 5 }),
{
    let range = delay / 5;
    let x = (attempt as int * 7919) % 0x1_0000_0000;
    vstd::arithmetic::div_mod::lemma_mod_bound(x, range * 2 + 1);
    vstd::arithmetic::div_mod::lemma_mod_bound(attempt as int * 7919, 0x1_0000_0000);
}

pub open spec fn capped_u32(x: int) -> u32 {
    if x > u32::MAX {
        u32::MAX
    } else {
        x as u32
    }
}

fn jitter_exec(delay: u32, attempt: u32) -> (r: u32)
    ensures
        r == jittered(delay, attempt),
{
    let range = delay / 5;
    let pick = attempt.wrapping_mul(7919) % (range * 2 + 1);
    let d = delay as i64 + pick as i64 - range as i64;
    let d = if d < 100 {
        100
    } else {
        d
    };
    if d > u32::MAX as i64 {
        u32::MAX
    } else {
        d as u32
    }
}

/// Delay that grows by a constant factor per attempt, up to a cap.
#[derive(Debug, Clone, Copy)]
pub struct ExponentialBackoff {
    pub initial_delay_ms: u32,
    pub max_delay_ms: u32,
    /// Growth factor per attempt, in thousandths (`2000` doubles).
    pub multiplier: u32,
    /// Zero for no limit.
    pub max_attempts: u32,
    pub jitter: bool,
}

impl ExponentialBackoff {
    /// `min(max_delay, initial_delay * (multiplier / 1000)^attempt)` before
    /// jitter, rounded down once.
    pub open spec fn base_delay(&self, attempt: u32) -> u32 {
        let g = exact_growth(self.initial_delay_ms as nat, self.multiplier as nat, attempt as nat);
        if g >= self.max_delay_ms {
            self.max_delay_ms
        } else {
            g as u32
        }
    }

    /// One second, doubling by one and a half, up to thirty seconds, no limit, jitter.
    pub fn new() -> (r: ExponentialBackoff)
        ensures
            r == (ExponentialBackoff {
                initial_delay_ms: 1000,
                max_delay_ms: 30000,
                multiplier: 1500,
                max_attempts: 0,
                jitter: true,
            }),
    {
        ExponentialBackoff {
            initial_delay_ms: 1000,
            max_delay_ms: 30000,
            multiplier: 1500,
            max_attempts: 0,
            jitter: true,
        }
    }

    pub fn initial_delay(self, ms: u32) -> (r: ExponentialBackoff)
        ensures
            r == (ExponentialBackoff { initial_delay_ms: ms, ..self }),
    {
        ExponentialBackoff { initial_delay_ms: ms, ..self }
    }

    pub fn max_delay(self, ms: u32) -> (r: ExponentialBackoff)
        ensures
            r == (ExponentialBackoff { max_delay_ms: ms, ..self }),
    {
        ExponentialBackoff { max_delay_ms: ms, ..self }
    }

    /// Sets the growth factor, in thousandths.
    pub fn multiplier(self, m: u32) -> (r: ExponentialBackoff)
        ensures
            r == (ExponentialBackoff { multiplier: m, ..self }),
    {
        ExponentialBackoff { multiplier: m, ..self }
    }

    pub fn max_attempts(self, n: u32) -> (r: ExponentialBackoff)
        ensures
            r == (ExponentialBackoff { max_attempts: n, ..self }),
    {
        ExponentialBackoff { max_attempts: n, ..self }
    }

    pub fn with_jitter(self, jitter: bool) -> (r: ExponentialBackoff)
        ensures
            r == (ExponentialBackoff { jitter, ..self }),
    {
        ExponentialBackoff { jitter, ..self }
    }

    pub fn aggressive() -> (r: ExponentialBackoff)
        ensures
            r == (ExponentialBackoff {
                initial_delay_ms: 500,
                max_delay_ms: 5000,
                multiplier: 1200,
                max_attempts: 0,
                jitter: true,
            }),
    {
        ExponentialBackoff {
            initial_delay_ms: 500,
            max_delay_ms: 5000,
            multiplier: 1200,
            max_attempts: 0,
            jitter: true,
        }
    }

    pub fn conservative() -> (r: ExponentialBackoff)
        ensures
            r == (ExponentialBackoff {
                initial_delay_ms: 2000,
                max_delay_ms: 60000,
                multiplier: 2000,
                max_attempts: 10,
                jitter: true,
            }),
    {
        ExponentialBackoff {
            initial_delay_ms: 2000,
            max_delay_ms: 60000,
            multiplier: 2000,
            max_attempts: 10,
            jitter: true,
        }
    }

    fn capped_base(&self, attempt: u32) -> (r: u32)
        ensures
            r == self.base_delay(attempt),
    {
        exact_base(self.initial_delay_ms, self.multiplier, self.max_delay_ms, attempt)
    }
}

impl ExponentialBackoff {
    pub open spec fn default_spec() -> ExponentialBackoff {
        ExponentialBackoff {
            initial_delay_ms: 1000,
            max_delay_ms: 30000,
            multiplier: 1500,
            max_attempts: 0,
            jitter: true,
        }
    }
}

impl Default for ExponentialBackoff {
    fn default() -> (r: Self)
        ensures
            r == (ExponentialBackoff {
                initial_delay_ms: 1000,
                max_delay_ms: 30000,
                multiplier: 1500,
                max_attempts: 0,
                jitter: true,
            }),
    {
        ExponentialBackoff::new()
    }
}

impl ReconnectPolicy for ExponentialBackoff {
    open spec fn delay_spec(&self, attempt: u32) -> u32 {
        if self.jitter {
            jittered(self.base_delay(attempt), attempt)
        } else {
            self.base_delay(attempt)
        }
    }

    open spec fn attempt_limit(&self) -> u32 {
        self.max_attempts
    }

    fn delay_ms(&self, attempt: u32) -> (r: u32) {
        let base = self.capped_base(attempt);
        if self.jitter {
            jitter_exec(base, attempt)
        } else {
            base
        }
    }

    fn should_reconnect(&self, attempt: u32) -> (r: bool) {
        self.max_attempts == 0 || attempt < self.max_attempts
    }

    fn reset(&mut self) {
    }
}

/// Delay that grows by a constant step per attempt, up to a cap.
#[derive(Debug, Clone, Copy)]
pub struct LinearBackoff {
    pub initial_delay_ms: u32,
    pub increment_ms: u32,
    pub max_delay_ms: u32,
    /// Zero for no limit.
    pub max_attempts: u32,
}

impl Default for LinearBackoff {
    fn default() -> (r: Self)
        ensures
            r == (LinearBackoff {
                initial_delay_ms: 1000,
                increment_ms: 1000,
                max_delay_ms: 10000,
                max_attempts: 10,
            }),
    {
        LinearBackoff {
            initial_delay_ms: 1000,
            increment_ms: 1000,
            max_delay_ms: 10000,
            max_attempts: 10,
        }
    }
}

impl ReconnectPolicy for LinearBackoff {
    /// `min(initial + increment * attempt, max)`.
    open spec fn delay_spec(&self, attempt: u32) -> u32 {
        let d = self.initial_delay_ms + self.increment_ms * attempt;
        if d >= self.max_delay_ms {
            self.max_delay_ms
        } else {
            d as u32
        }
    }

    open spec fn attempt_limit(&self) -> u32 {
        self.max_attempts
    }

    fn delay_ms(&self, attempt: u32) -> (r: u32) {
        let inc = self.increment_ms as u64;
        let a = attempt as u64;
        assert(inc * a <= 0xffff_ffff * 0xffff_ffff) by (nonlinear_arith)
            requires
                inc <= 0xffff_ffff,
                a <= 0xffff_ffff,
        ;
        let d = self.initial_delay_ms as u64 + inc * a;
        if d >= self.max_delay_ms as u64 {
            self.max_delay_ms
        } else {
            d as u32
        }
    }

    fn should_reconnect(&self, attempt: u32) -> (r: bool) {
        self.max_attempts == 0 || attempt < self.max_attempts
    }

    fn reset(&mut self) {
    }
}

/// The same delay before every attempt.
#[derive(Debug, Clone, Copy)]
pub struct ConstantDelay {
    pub delay_ms: u32,
    /// Zero for no limit.
    pub max_attempts: u32,
}

impl Default for ConstantDelay {
    fn default() -> (r: Self)
        ensures
            r == (ConstantDelay { delay_ms: 3000, max_attempts: 5 }),
    {
        ConstantDelay { delay_ms: 3000, max_attempts: 5 }
    }
}

impl ReconnectPolicy for ConstantDelay {
    open spec fn delay_spec(&self, attempt: u32) -> u32 {
        self.delay_ms
    }

    open spec fn attempt_limit(&self) -> u32 {
        self.max_attempts
    }

    fn delay_ms(&self, attempt: u32) -> (r: u32) {
        self.delay_ms
    }

    fn should_reconnect(&self, attempt: u32) -> (r: bool) {
        self.max_attempts == 0 || attempt < self.max_attempts
    }

    fn reset(&mut self) {
    }
}

} // verus!
