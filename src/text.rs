use vstd::prelude::*;

verus! {

/// The character of decimal digit `d`.
pub open spec fn digit_char(d: nat) -> char {
    if d == 0 { '0' }
    else if d == 1 { '1' }
    else if d == 2 { '2' }
    else if d == 3 { '3' }
    else if d == 4 { '4' }
    else if d == 5 { '5' }
    else if d == 6 { '6' }
    else if d == 7 { '7' }
    else if d == 8 { '8' }
    else { '9' }
}

/// Decimal digits of `n`, without leading zeros ("0" for zero).
pub open spec fn digits(n: nat) -> Seq<char>
    decreases n,
{
    if n < 10 {
        seq![digit_char(n)]
    } else {
        digits(n / 10).push(digit_char(n % 10))
    }
}

/// The last `w` decimal digits of `n`, with leading zeros.
pub open spec fn padded(n: nat, w: nat) -> Seq<char>
    decreases w,
{
    if w == 0 {
        Seq::empty()
    } else {
        padded(n / 10, (w - 1) as nat).push(digit_char(n % 10))
    }
}

/// `10^k`.
pub open spec fn pow10(k: nat) -> nat
    decreases k,
{
    if k == 0 {
        1
    } else {
        10 * pow10((k - 1) as nat)
    }
}

/// `raw / 10^8` rounded half up to `d` decimals, as a count of `10^-d`.
pub open spec fn rounded(raw: nat, d: nat) -> nat {
    let p = pow10((8 - d) as nat);
    raw / p + if d < 8 && raw % p >= p / 2 { 1nat } else { 0nat }
}

/// `raw / 10^8` written with `d` decimals (`d <= 8`), rounded half up.
pub open spec fn fixed_text(raw: nat, d: nat) -> Seq<char> {
    let q = rounded(raw, d);
    if d == 0 {
        digits(q)
    } else {
        digits(q / pow10(d)) + seq!['.'] + padded(q % pow10(d), d)
    }
}

/// `raw / 10^8` with `d` decimals; past eight decimals the digits are zeros.
pub open spec fn fixed_text_wide(raw: nat, d: nat) -> Seq<char> {
    if d <= 8 {
        fixed_text(raw, d)
    } else {
        fixed_text(raw, 8) + Seq::new((d - 8) as nat, |i: int| '0')
    }
}

/// Signed hundredths written with two decimals.
pub open spec fn hundredths_text(v: int) -> Seq<char> {
    let m = if v < 0 { -v } else { v };
    (if v < 0 { seq!['-'] } else { Seq::empty() }) + digits((m / 100) as nat) + seq!['.'] + padded((m % 100) as nat, 2)
}

pub proof fn lemma_pow10_pos(k: nat)
    ensures
        pow10(k) >= 1,
    decreases k,
{
    if k > 0 {
        lemma_pow10_pos((k - 1) as nat);
    }
}

fn digit_text(d: u128) -> (r: &'static str)
    requires
        d < 10,
    ensures
        r@ == seq![digit_char(d as nat)],
{
    proof {
        reveal_strlit("0");
        reveal_strlit("1");
        reveal_strlit("2");
        reveal_strlit("3");
        reveal_strlit("4");
        reveal_strlit("5");
        reveal_strlit("6");
        reveal_strlit("7");
        reveal_strlit("8");
        reveal_strlit("9");
    }
    if d == 0 {
        "0"
    } else if d == 1 {
        "1"
    } else if d == 2 {
        "2"
    } else if d == 3 {
        "3"
    } else if d == 4 {
        "4"
    } else if d == 5 {
        "5"
    } else if d == 6 {
        "6"
    } else if d == 7 {
        "7"
    } else if d == 8 {
        "8"
    } else {
        "9"
    }
}

/// Appends the decimal digits of `n`.
pub fn push_digits(out: &mut String, n: u128)
    ensures
        final(out)@ == old(out)@ + digits(n as nat),
    decreases n,
{
    if n >= 10 {
        push_digits(out, n / 10);
    }
    out.append(digit_text(n % 10));
    proof {
        if n >= 10 {
            assert(old(out)@ + digits(n as nat) =~= old(out)@ + digits((n / 10) as nat) + seq![digit_char((n % 10) as nat)]);
        } else {
            assert(digits(n as nat) == seq![digit_char(n as nat)]);
        }
    }
}

/// Appends the last `w` decimal digits of `n`, with leading zeros.
pub fn push_padded(out: &mut String, n: u128, w: u32)
    ensures
        final(out)@ == old(out)@ + padded(n as nat, w as nat),
    decreases w,
{
    if w == 0 {
        assert(old(out)@ + padded(n as nat, 0) =~= old(out)@);
        return;
    }
    push_padded(out, n / 10, w - 1);
    out.append(digit_text(n % 10));
    proof {
        assert(old(out)@ + padded(n as nat, w as nat) =~= old(out)@ + padded((n / 10) as nat, (w - 1) as nat) + seq![digit_char((n % 10) as nat)]);
    }
}

fn pow10_exec(k: u32) -> (r: u128)
    requires
        k <= 8,
    ensures
        r == pow10(k as nat),
    decreases k,
{
    if k == 0 {
        1
    } else {
        let p = pow10_exec(k - 1);
        assert(p <= 10_000_000) by {
            reveal_with_fuel(pow10, 9);
        }
        10 * p
    }
}

/// Appends `raw / 10^8` with `d` decimals, rounded half up.
pub fn push_fixed(out: &mut String, raw: u128, d: u32)
    requires
        d <= 8,
    ensures
        final(out)@ == old(out)@ + fixed_text(raw as nat, d as nat),
{
    let p = pow10_exec(8 - d);
    proof {
        lemma_pow10_pos((8 - d) as nat);
    }
    let bump: u128 = if d < 8 && raw % p >= p / 2 {
        1
    } else {
        0
    };
    let q0 = raw / p;
    assert(d < 8 ==> p >= 10) by {
        reveal_with_fuel(pow10, 9);
    }
    assert(d < 8 ==> q0 <= raw / 10) by (nonlinear_arith)
        requires
            q0 == raw / p,
            d < 8 ==> p >= 10,
    ;
    let q = q0 + bump;
    if d == 0 {
        push_digits(out, q);
    } else {
        let pd = pow10_exec(d);
        proof {
            lemma_pow10_pos(d as nat);
        }
        push_digits(out, q / pd);
        out.append(".");
        proof {
            reveal_strlit(".");
        }
        push_padded(out, q % pd, d);
        proof {
            assert(final(out)@ =~= old(out)@ + fixed_text(raw as nat, d as nat));
        }
    }
}

/// Appends `raw / 10^8` with `d` decimals; past eight decimals, zeros.
pub fn push_fixed_wide(out: &mut String, raw: u128, d: usize)
    ensures
        final(out)@ == old(out)@ + fixed_text_wide(raw as nat, d as nat),
{
    if d <= 8 {
        push_fixed(out, raw, d as u32);
        return;
    }
    push_fixed(out, raw, 8);
    let ghost base = out@;
    let mut i: usize = 8;
    while i < d
        invariant
            8 <= i <= d,
            out@ == base + Seq::new((i - 8) as nat, |k: int| '0'),
        decreases d - i,
    {
        out.append("0");
        proof {
            reveal_strlit("0");
            assert(base + Seq::new((i + 1 - 8) as nat, |k: int| '0') =~= base + Seq::new((i - 8) as nat, |k: int| '0') + "0"@);
        }
        i = i + 1;
    }
    assert(final(out)@ =~= old(out)@ + fixed_text_wide(raw as nat, d as nat));
}

/// `raw / 10^8` with `d` decimals, as a new string.
pub fn fixed_string(raw: u128, d: usize) -> (r: String)
    ensures
        r@ == fixed_text_wide(raw as nat, d as nat),
{
    let mut out = String::new();
    push_fixed_wide(&mut out, raw, d);
    assert(out@ =~= fixed_text_wide(raw as nat, d as nat));
    out
}

/// Appends signed hundredths with two decimals.
pub fn push_hundredths(out: &mut String, v: i64)
    ensures
        final(out)@ == old(out)@ + hundredths_text(v as int),
{
    let m: u128 = if v < 0 {
        (-(v as i128)) as u128
    } else {
        v as u128
    };
    let ghost start = out@;
    if v < 0 {
        out.append("-");
        proof {
            reveal_strlit("-");
        }
    }
    push_digits(out, m / 100);
    out.append(".");
    proof {
        reveal_strlit(".");
    }
    push_padded(out, m % 100, 2);
    assert(final(out)@ =~= old(out)@ + hundredths_text(v as int));
}

/// Milliseconds in a day.
pub const DAY_MS: u128 = 86_400_000;

/// Milliseconds since midnight UTC of the instant `ts` (milliseconds since
/// the Unix epoch).
pub open spec fn day_millis(ts: int) -> nat {
    (ts % (DAY_MS as int)) as nat
}

/// `HH:MM:SS` of the instant `ts`, UTC.
pub open spec fn clock_text(ts: int) -> Seq<char> {
    let d = day_millis(ts);
    padded(d / 3_600_000, 2) + seq![':'] + padded((d / 60_000) % 60, 2) + seq![':'] + padded(
        (d / 1000) % 60,
        2,
    )
}

/// `HH:MM:SS.mmm` of the instant `ts`, UTC.
pub open spec fn clock_text_millis(ts: int) -> Seq<char> {
    clock_text(ts) + seq!['.'] + padded(day_millis(ts) % 1000, 3)
}

fn day_millis_exec(ts: i64) -> (r: u128)
    ensures
        r == day_millis(ts as int),
        r < DAY_MS,
{
    if ts >= 0 {
        (ts as u128) % DAY_MS
    } else {
        let a = ((-(ts as i128)) as u128) % DAY_MS;
        let ghost t = ts as int;
        let ghost m = DAY_MS as int;
        proof {
            let q = (-t) / m;
            let r = (-t) % m;
            vstd::arithmetic::div_mod::lemma_fundamental_div_mod(-t, m);
            if r == 0 {
                vstd::arithmetic::div_mod::lemma_fundamental_div_mod_converse(t, m, -q, 0);
            } else {
                assert(t == (-q - 1) * m + (m - r)) by (nonlinear_arith)
                    requires
                        -t == m * q + r,
                ;
                vstd::arithmetic::div_mod::lemma_fundamental_div_mod_converse(t, m, -q - 1, m - r);
            }
        }
        if a == 0 {
            0
        } else {
            DAY_MS - a
        }
    }
}

/// Appends `HH:MM:SS` of the instant `ts`, UTC.
pub fn push_clock(out: &mut String, ts: i64)
    ensures
        final(out)@ == old(out)@ + clock_text(ts as int),
{
    let d = day_millis_exec(ts);
    proof {
        reveal_strlit(":");
    }
    push_padded(out, d / 3_600_000, 2);
    out.append(":");
    push_padded(out, (d / 60_000) % 60, 2);
    out.append(":");
    push_padded(out, (d / 1000) % 60, 2);
    assert(final(out)@ =~= old(out)@ + clock_text(ts as int));
}

/// Appends `HH:MM:SS.mmm` of the instant `ts`, UTC.
pub fn push_clock_millis(out: &mut String, ts: i64)
    ensures
        final(out)@ == old(out)@ + clock_text_millis(ts as int),
{
    push_clock(out, ts);
    let d = day_millis_exec(ts);
    out.append(".");
    proof {
        reveal_strlit(".");
    }
    push_padded(out, d % 1000, 3);
    assert(final(out)@ =~= old(out)@ + clock_text_millis(ts as int));
}

} // verus!
