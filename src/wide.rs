use vstd::prelude::*;

verus! {

// Unbounded natural numbers as little-endian vectors of 32-bit limbs, with
// the few operations the reconnection delay needs.

/// `2^(32 n)`.
pub open spec fn limb_pow(n: nat) -> nat
    decreases n,
{
    if n == 0 {
        1
    } else {
        0x1_0000_0000 * limb_pow((n - 1) as nat)
    }
}

/// The number that the limbs `s` stand for, least significant first.
pub open spec fn limbs_val(s: Seq<u32>) -> nat
    decreases s.len(),
{
    if s.len() == 0 {
        0
    } else {
        limbs_val(s.drop_last()) + s.last() as nat * limb_pow((s.len() - 1) as nat)
    }
}

/// `b^e`.
pub open spec fn pow_nat(b: nat, e: nat) -> nat
    decreases e,
{
    if e == 0 {
        1
    } else {
        b * pow_nat(b, (e - 1) as nat)
    }
}

pub proof fn lemma_limb_pow_pos(n: nat)
    ensures
        limb_pow(n) >= 1,
    decreases n,
{
    if n > 0 {
        lemma_limb_pow_pos((n - 1) as nat);
    }
}

pub proof fn lemma_limbs_bound(s: Seq<u32>)
    ensures
        limbs_val(s) < limb_pow(s.len()),
    decreases s.len(),
{
    if s.len() > 0 {
        let t = s.drop_last();
        lemma_limbs_bound(t);
        let p = limb_pow(t.len());
        let v = limbs_val(t);
        let x = s.last() as nat;
        assert(v + x * p < 0x1_0000_0000 * p) by (nonlinear_arith)
            requires
                v < p,
                x <= 0xffff_ffff,
        ;
    }
}

proof fn lemma_push_val(s: Seq<u32>, x: u32)
    ensures
        limbs_val(s.push(x)) == limbs_val(s) + x as nat * limb_pow(s.len()),
{
    assert(s.push(x).drop_last() =~= s);
}

/// `a * c`, one limb longer than `a`.
pub fn mul_small(a: &Vec<u32>, c: u32) -> (r: Vec<u32>)
    ensures
        r@.len() == a@.len() + 1,
        limbs_val(r@) == limbs_val(a@) * c,
{
    let n = a.len();
    let mut r: Vec<u32> = Vec::new();
    let mut carry: u64 = 0;
    let mut i: usize = 0;
    assert(a@.take(0) =~= Seq::<u32>::empty());
    assert(limbs_val(a@.take(0)) == 0);
    assert(limbs_val(r@) == 0);
    assert(0 * c == 0);
    while i < n
        invariant
            n == a@.len(),
            i <= n,
            r@.len() == i,
            carry <= 0xffff_ffff,
            limbs_val(r@) + carry * limb_pow(i as nat) == limbs_val(a@.take(i as int)) * c,
        decreases n - i,
    {
        let ai = a[i] as u64;
        let cc = c as u64;
        assert(ai * cc <= 0xffff_ffff * 0xffff_ffff) by (nonlinear_arith)
            requires
                ai <= 0xffff_ffff,
                cc <= 0xffff_ffff,
        ;
        let t: u64 = ai * cc + carry;
        let lo: u32 = (t % 0x1_0000_0000) as u32;
        let hi: u64 = t / 0x1_0000_0000;
        proof {
            let p = limb_pow(i as nat);
            lemma_push_val(r@, lo);
            assert(a@.take(i + 1) =~= a@.take(i as int).push(a@[i as int]));
            lemma_push_val(a@.take(i as int), a@[i as int]);
            assert(limb_pow((i + 1) as nat) == 0x1_0000_0000 * p);
            let vr = limbs_val(r@);
            let va = limbs_val(a@.take(i as int));
            assert(vr + lo * p + hi * (0x1_0000_0000 * p) == (va + ai * p) * c) by (nonlinear_arith)
                requires
                    vr + carry * p == va * c,
                    t == ai * c + carry,
                    t == lo + hi * 0x1_0000_0000,
            ;
        }
        r.push(lo);
        carry = hi;
        i = i + 1;
    }
    proof {
        lemma_push_val(r@, carry as u32);
        assert(a@.take(n as int) =~= a@);
    }
    r.push(carry as u32);
    r
}

/// Whether `a < b`, for limb vectors of one length.
pub fn less_than(a: &Vec<u32>, b: &Vec<u32>) -> (r: bool)
    requires
        a@.len() == b@.len(),
    ensures
        r == (limbs_val(a@) < limbs_val(b@)),
{
    let n = a.len();
    let mut lt = false;
    let mut i: usize = 0;
    assert(a@.take(0) =~= Seq::<u32>::empty());
    assert(b@.take(0) =~= Seq::<u32>::empty());
    while i < n
        invariant
            n == a@.len(),
            n == b@.len(),
            i <= n,
            lt == (limbs_val(a@.take(i as int)) < limbs_val(b@.take(i as int))),
        decreases n - i,
    {
        proof {
            let p = limb_pow(i as nat);
            let ta = a@.take(i as int);
            let tb = b@.take(i as int);
            assert(a@.take(i + 1) =~= ta.push(a@[i as int]));
            assert(b@.take(i + 1) =~= tb.push(b@[i as int]));
            lemma_push_val(ta, a@[i as int]);
            lemma_push_val(tb, b@[i as int]);
            lemma_limbs_bound(ta);
            lemma_limbs_bound(tb);
            let va = limbs_val(ta);
            let vb = limbs_val(tb);
            let x = a@[i as int] as nat;
            let y = b@[i as int] as nat;
            assert(x < y ==> va + x * p < vb + y * p) by (nonlinear_arith)
                requires
                    va < p,
                    vb < p,
            ;
            assert(x > y ==> va + x * p > vb + y * p) by (nonlinear_arith)
                requires
                    va < p,
                    vb < p,
            ;
        }
        if a[i] != b[i] {
            lt = a[i] < b[i];
        }
        i = i + 1;
    }
    proof {
        assert(a@.take(n as int) =~= a@);
        assert(b@.take(n as int) =~= b@);
    }
    lt
}

/// `a` with one more, zero, limb on top: the same number.
fn widened(a: &Vec<u32>) -> (r: Vec<u32>)
    ensures
        r@.len() == a@.len() + 1,
        limbs_val(r@) == limbs_val(a@),
{
    let mut r: Vec<u32> = Vec::new();
    let n = a.len();
    let mut i: usize = 0;
    while i < n
        invariant
            n == a@.len(),
            i <= n,
            r@ == a@.take(i as int),
        decreases n - i,
    {
        r.push(a[i]);
        proof {
            assert(a@.take(i + 1) =~= a@.take(i as int).push(a@[i as int]));
        }
        i = i + 1;
    }
    proof {
        assert(a@.take(n as int) =~= a@);
        lemma_push_val(r@, 0);
    }
    r.push(0);
    r
}

/// Whether `q * d <= n`, for `n` and `d` of one length.
pub(crate) fn times_at_most(d: &Vec<u32>, q: u32, n: &Vec<u32>) -> (r: bool)
    requires
        d@.len() == n@.len(),
    ensures
        r == (q * limbs_val(d@) <= limbs_val(n@)),
{
    let qd = mul_small(d, q);
    let wn = widened(n);
    assert(limbs_val(d@) * q == q * limbs_val(d@)) by (nonlinear_arith);
    !less_than(&wn, &qd)
}

/// `min(cap, n / d)`, for `d > 0` and `n`, `d` of one length.
pub fn quotient_capped(n: &Vec<u32>, d: &Vec<u32>, cap: u32) -> (r: u32)
    requires
        n@.len() == d@.len(),
        limbs_val(d@) > 0,
    ensures
        r == (if limbs_val(n@) / limbs_val(d@) >= cap { cap as nat } else { limbs_val(n@) / limbs_val(d@) }),
{
    let ghost vn = limbs_val(n@);
    let ghost vd = limbs_val(d@);
    if times_at_most(d, cap, n) {
        proof {
            assert(vn / vd >= cap) by (nonlinear_arith)
                requires
                    cap * vd <= vn,
                    vd > 0,
            ;
        }
        return cap;
    }
    let mut lo: u32 = 0;
    let mut hi: u32 = cap;
    while hi - lo > 1
        invariant
            lo < hi <= cap,
            lo * vd <= vn,
            vn < hi * vd,
            vn == limbs_val(n@),
            vd == limbs_val(d@),
            n@.len() == d@.len(),
        decreases hi - lo,
    {
        let mid = lo + (hi - lo) / 2;
        if times_at_most(d, mid, n) {
            lo = mid;
        } else {
            hi = mid;
        }
    }
    proof {
        assert(vn < (lo + 1) * vd);
        let rem = vn - lo * vd;
        assert(0 <= rem < vd) by (nonlinear_arith)
            requires
                rem == vn - lo * vd,
                lo * vd <= vn,
                vn < (lo + 1) * vd,
        ;
        vstd::arithmetic::div_mod::lemma_fundamental_div_mod_converse(vn as int, vd as int, lo as int, rem as int);
    }
    lo
}

} // verus!
