use vstd::prelude::*;
use crate::text::{fixed_text, fixed_text_wide, push_fixed, push_fixed_wide};

verus! {

/// Trading pair identifier such as `BTC-USD`.
#[derive(Debug, PartialEq, Eq, Hash)]
pub struct Symbol(pub String);

impl Clone for Symbol {
    fn clone(&self) -> (r: Self)
        ensures
            r == *self,
    {
        Symbol(self.0.clone())
    }
}



/// Index of the first `-` in `s`, or `s.len()` when there is none.
pub open spec fn first_dash(s: Seq<char>) -> int
    decreases s.len(),
{
    if s.len() == 0 {
        0
    } else if s[0] == '-' {
        0
    } else {
        1 + first_dash(s.drop_first())
    }
}

pub proof fn lemma_first_dash(s: Seq<char>)
    ensures
        0 <= first_dash(s) <= s.len(),
        forall|j: int| 0 <= j < first_dash(s) ==> s[j] != '-',
        first_dash(s) < s.len() ==> s[first_dash(s)] == '-',
    decreases s.len(),
{
    if s.len() > 0 && s[0] != '-' {
        lemma_first_dash(s.drop_first());
        assert forall|j: int| 0 <= j < first_dash(s) implies s[j] != '-' by {
            if j > 0 {
                assert(s[j] == s.drop_first()[j - 1]);
            }
        }
    }
}

impl Default for Symbol {
    fn default() -> (r: Self)
        ensures
            r.0@ == "BTC-USD"@,
    {
        Symbol(String::from_str("BTC-USD"))
    }
}

impl Symbol {
    /// Text before the first separator, or the whole symbol.
    pub open spec fn base_spec(s: Seq<char>) -> Seq<char> {
        s.subrange(0, first_dash(s))
    }

    /// Text between the first and the second separator; `USD` without a separator.
    pub open spec fn quote_spec(s: Seq<char>) -> Seq<char> {
        if first_dash(s) == s.len() {
            seq!['U', 'S', 'D']
        } else {
            let rest = s.subrange(first_dash(s) + 1, s.len() as int);
            rest.subrange(0, first_dash(rest))
        }
    }

    pub fn new(s: String) -> (r: Symbol)
        ensures
            r.0@ == s@,
    {
        Symbol(s)
    }

    pub fn as_str(&self) -> (r: &str)
        ensures
            r@ == self.0@,
    {
        self.0.as_str()
    }

    /// Position of the first `-` at or after `from`, or the length.
    fn find_dash(s: &str, from: usize) -> (r: usize)
        requires
            from <= s@.len(),
        ensures
            r as int == from + first_dash(s@.subrange(from as int, s@.len() as int)),
            from <= r <= s@.len(),
    {
        let n = s.unicode_len();
        let mut i = from;
        while i < n && s.get_char(i) != '-'
            invariant
                n == s@.len(),
                from <= i <= n,
                forall|j: int| from <= j < i ==> s@[j] != '-',
            decreases n - i,
        {
            i = i + 1;
        }
        proof {
            let t = s@.subrange(from as int, s@.len() as int);
            lemma_first_dash(t);
            let k = (i - from) as int;
            assert forall|j: int| 0 <= j < k implies t[j] != '-' by {
                assert(t[j] == s@[from + j]);
            }
            if i < n {
                assert(t[k] == '-');
            }
            // first_dash is the least index holding '-'
            if first_dash(t) < k {
                assert(t[first_dash(t)] == '-');
            }
            assert(t.len() == n - from);
            if first_dash(t) > k {
                assert(i < n);
                assert(t[k] == '-');
            }
        }
        i
    }

    /// Base currency: `BTC` for `BTC-USD`.
    pub fn base(&self) -> (r: &str)
        ensures
            r@ == Self::base_spec(self.0@),
    {
        let s = self.0.as_str();
        let d = Self::find_dash(s, 0);
        proof {
            assert(s@.subrange(0, s@.len() as int) == s@);
        }
        s.substring_char(0, d)
    }

    /// Quote currency: `USD` for `BTC-USD`.
    pub fn quote(&self) -> (r: &str)
        ensures
            r@ == Self::quote_spec(self.0@),
    {
        let s = self.0.as_str();
        let n = s.unicode_len();
        let d = Self::find_dash(s, 0);
        proof {
            assert(s@.subrange(0, s@.len() as int) == s@);
        }
        if d == n {
            proof {
                reveal_strlit("USD");
            }
            return "USD";
        }
        let e = Self::find_dash(s, d + 1);
        proof {
            let rest = s@.subrange(d + 1, s@.len() as int);
            assert(rest.subrange(0, first_dash(rest)) == s@.subrange(d + 1, e as int));
        }
        s.substring_char(d + 1, e)
    }
}

/// Colour of rising prices, bids and buys.
pub const BULL: &'static str = "#22c55e";

/// Colour of falling prices, asks and sells.
pub const BEAR: &'static str = "#ef4444";

/// Colour of unchanged prices.
pub const NEUTRAL: &'static str = "#888888";

/// `x` capped at `cap`: the value a saturating sum takes.
pub open spec fn capped(x: int, cap: int) -> int {
    if x > cap {
        cap
    } else {
        x
    }
}

/// Fixed-point scale: prices and quantities count hundred-millionths of a unit.
pub const FIXED_SCALE: u64 = 100_000_000;

/// A price, in hundred-millionths of the quote currency.
#[derive(Debug, Clone, Copy, PartialEq, Eq, Structural)]
pub struct Price(pub u64);

/// A quantity, in hundred-millionths of the base currency.
#[derive(Debug, Clone, Copy, PartialEq, Eq, Structural)]
pub struct Quantity(pub u64);

/// Traded value `price * quantity` in the same fixed-point scale, rounded down.
pub open spec fn notional(price: u64, quantity: u64) -> nat {
    (price as nat * quantity as nat) / (FIXED_SCALE as nat)
}

/// `price * quantity / FIXED_SCALE`, rounded down; it always fits in `u128`.
pub fn notional_of(price: u64, quantity: u64) -> (r: u128)
    ensures
        r as nat == notional(price, quantity),
{
    let p = price as u128;
    let q = quantity as u128;
    assert(p * q <= 0xffff_ffff_ffff_ffffu128 * 0xffff_ffff_ffff_ffffu128) by (nonlinear_arith)
        requires
            p <= 0xffff_ffff_ffff_ffffu128,
            q <= 0xffff_ffff_ffff_ffffu128,
    ;
    (p * q) / (FIXED_SCALE as u128)
}

/// `num / den` in the fixed-point scale, rounded toward zero.
pub open spec fn scaled_ratio(num: int, den: int) -> int {
    if num >= 0 {
        num * FIXED_SCALE / den
    } else {
        -((-num) * FIXED_SCALE / den)
    }
}

/// `num / den` in the fixed-point scale, rounded toward zero.
pub fn scaled_ratio_of(num: i128, den: u128) -> (r: i128)
    requires
        den > 0,
        -0x1_0000_0000_0000_0000_0000_0000 <= num <= 0x1_0000_0000_0000_0000_0000_0000,
    ensures
        r == scaled_ratio(num as int, den as int),
{
    let mag: u128 = if num >= 0 {
        num as u128
    } else {
        (-num) as u128
    };
    let m = mag * 100_000_000u128;
    let q = m / den;
    assert(q <= m) by (nonlinear_arith)
        requires
            q == m / den,
            den > 0,
    ;
    if num >= 0 {
        q as i128
    } else {
        -(q as i128)
    }
}

/// `num / den` in the fixed-point scale, rounded away from zero, so that a
/// non-zero ratio never comes out as zero.
pub open spec fn scaled_ratio_away(num: int, den: int) -> int {
    if num >= 0 {
        (num * FIXED_SCALE + den - 1) / den
    } else {
        -(((-num) * FIXED_SCALE + den - 1) / den)
    }
}

/// `num / den` in the fixed-point scale, rounded away from zero.
pub fn scaled_ratio_away_of(num: i128, den: u128) -> (r: i128)
    requires
        den > 0,
        -0x1_0000_0000_0000_0000_0000_0000 <= num <= 0x1_0000_0000_0000_0000_0000_0000,
        den <= 0x1_0000_0000_0000_0000_0000_0000,
    ensures
        r == scaled_ratio_away(num as int, den as int),
        num > 0 ==> r > 0,
        num < 0 ==> r < 0,
        num == 0 ==> r == 0,
{
    let mag: u128 = if num >= 0 {
        num as u128
    } else {
        (-num) as u128
    };
    let m = mag * 100_000_000u128;
    let t = m + (den - 1);
    let q = t / den;
    assert(q <= t) by (nonlinear_arith)
        requires
            q == t / den,
            den > 0,
    ;
    assert(mag > 0 ==> q >= 1) by (nonlinear_arith)
        requires
            q == t / den,
            t == mag * 100_000_000 + den - 1,
            den > 0,
    ;
    assert(mag == 0 ==> q == 0) by (nonlinear_arith)
        requires
            q == t / den,
            t == mag * 100_000_000 + den - 1,
            den > 0,
    ;
    if num >= 0 {
        q as i128
    } else {
        -(q as i128)
    }
}

impl Price {
    pub fn zero() -> (r: Price)
        ensures
            r.0 == 0,
    {
        Price(0)
    }

    pub fn new(raw: u64) -> (r: Price)
        ensures
            r.0 == raw,
    {
        Price(raw)
    }

    /// The raw fixed-point value.
    pub fn as_raw(&self) -> (r: u64)
        ensures
            r == self.0,
    {
        self.0
    }
}

impl Quantity {
    pub fn zero() -> (r: Quantity)
        ensures
            r.0 == 0,
    {
        Quantity(0)
    }

    pub fn new(raw: u64) -> (r: Quantity)
        ensures
            r.0 == raw,
    {
        Quantity(raw)
    }

    /// The raw fixed-point value.
    pub fn as_raw(&self) -> (r: u64)
        ensures
            r == self.0,
    {
        self.0
    }
}

/// State of the feed connection as shown to observers.
#[derive(Debug, Clone, Copy, PartialEq, Eq, Structural)]
pub enum ConnectionState {
    Disconnected,
    Connecting,
    Connected,
    Reconnecting,
}

impl ConnectionState {
    pub open spec fn label_spec(&self) -> Seq<char> {
        match self {
            ConnectionState::Disconnected => "Disconnected"@,
            ConnectionState::Connecting => "Connecting..."@,
            ConnectionState::Connected => "Connected"@,
            ConnectionState::Reconnecting => "Reconnecting..."@,
        }
    }

    pub open spec fn css_class_spec(&self) -> Seq<char> {
        match self {
            ConnectionState::Disconnected => "conn-disconnected"@,
            ConnectionState::Connecting => "conn-connecting"@,
            ConnectionState::Connected => "conn-connected"@,
            ConnectionState::Reconnecting => "conn-reconnecting"@,
        }
    }

    pub fn is_connected(&self) -> (r: bool)
        ensures
            r == (*self == ConnectionState::Connected),
    {
        match self {
            ConnectionState::Connected => true,
            _ => false,
        }
    }

    pub fn label(&self) -> (r: &'static str)
        ensures
            r@ == self.label_spec(),
    {
        match self {
            ConnectionState::Disconnected => "Disconnected",
            ConnectionState::Connecting => "Connecting...",
            ConnectionState::Connected => "Connected",
            ConnectionState::Reconnecting => "Reconnecting...",
        }
    }

    pub fn css_class(&self) -> (r: &'static str)
        ensures
            r@ == self.css_class_spec(),
    {
        match self {
            ConnectionState::Disconnected => "conn-disconnected",
            ConnectionState::Connecting => "conn-connecting",
            ConnectionState::Connected => "conn-connected",
            ConnectionState::Reconnecting => "conn-reconnecting",
        }
    }
}

impl Default for ConnectionState {
    fn default() -> (r: Self)
        ensures
            r == ConnectionState::Disconnected,
    {
        ConnectionState::Disconnected
    }
}

/// Writes prices for display.
pub trait PriceFormatter {
    spec fn format_spec(&self, price: u64) -> Seq<char>;

    fn format(&self, price: Price) -> (r: String)
        ensures
            r@ == self.format_spec(price.0),
    ;
}

/// Writes quantities for display.
pub trait QuantityFormatter {
    spec fn format_spec(&self, qty: u64) -> Seq<char>;

    fn format(&self, qty: Quantity) -> (r: String)
        ensures
            r@ == self.format_spec(qty.0),
    ;
}

/// Writes large signed fixed-point amounts for display.
pub trait LargeNumberFormatter {
    spec fn format_spec(&self, num: i128) -> Seq<char>;

    fn format(&self, num: i128) -> (r: String)
        ensures
            r@ == self.format_spec(num),
    ;
}

/// Two decimals from ten thousand up, `decimals` from one, six from a ten
/// thousandth and eight below.
#[derive(Debug, Clone, Copy)]
pub struct DecimalPriceFormatter {
    pub decimals: usize,
}

impl Default for DecimalPriceFormatter {
    fn default() -> (r: Self)
        ensures
            r.decimals == 2,
    {
        DecimalPriceFormatter { decimals: 2 }
    }
}

impl PriceFormatter for DecimalPriceFormatter {
    open spec fn format_spec(&self, price: u64) -> Seq<char> {
        if price >= 10_000 * FIXED_SCALE {
            fixed_text(price as nat, 2)
        } else if price >= FIXED_SCALE {
            fixed_text_wide(price as nat, self.decimals as nat)
        } else if price >= FIXED_SCALE / 10_000 {
            fixed_text(price as nat, 6)
        } else {
            fixed_text(price as nat, 8)
        }
    }

    fn format(&self, price: Price) -> (r: String) {
        let mut out = String::new();
        let p = price.0;
        if p >= 10_000 * FIXED_SCALE {
            push_fixed(&mut out, p as u128, 2);
        } else if p >= FIXED_SCALE {
            push_fixed_wide(&mut out, p as u128, self.decimals);
        } else if p >= FIXED_SCALE / 10_000 {
            push_fixed(&mut out, p as u128, 6);
        } else {
            push_fixed(&mut out, p as u128, 8);
        }
        assert(out@ =~= self.format_spec(p));
        out
    }
}

/// `B`, `M` and `K` suffixes with two decimals.
#[derive(Debug, Clone, Copy)]
pub struct CompactNumberFormatter;

impl Default for CompactNumberFormatter {
    fn default() -> (r: Self) {
        CompactNumberFormatter
    }
}

/// `|num|`.
pub open spec fn magnitude(num: i128) -> nat {
    if num < 0 {
        (-num) as nat
    } else {
        num as nat
    }
}

impl LargeNumberFormatter for CompactNumberFormatter {
    open spec fn format_spec(&self, num: i128) -> Seq<char> {
        let a = magnitude(num);
        let sign = if num < 0 { seq!['-'] } else { Seq::<char>::empty() };
        let s = FIXED_SCALE as nat;
        if a >= 1_000_000_000 * s {
            sign + fixed_text(a / 1_000_000_000, 2) + seq!['B']
        } else if a >= 1_000_000 * s {
            sign + fixed_text(a / 1_000_000, 2) + seq!['M']
        } else if a >= 1_000 * s {
            sign + fixed_text(a / 1_000, 2) + seq!['K']
        } else {
            sign + fixed_text(a, 2)
        }
    }

    fn format(&self, num: i128) -> (r: String) {
        let a: u128 = if num < 0 {
            ((-(num + 1)) as u128) + 1
        } else {
            num as u128
        };
        let mut out = String::new();
        if num < 0 {
            out.append("-");
        }
        proof {
            reveal_strlit("-");
            reveal_strlit("B");
            reveal_strlit("M");
            reveal_strlit("K");
        }
        let s = FIXED_SCALE as u128;
        if a >= 1_000_000_000 * s {
            push_fixed(&mut out, a / 1_000_000_000, 2);
            out.append("B");
        } else if a >= 1_000_000 * s {
            push_fixed(&mut out, a / 1_000_000, 2);
            out.append("M");
        } else if a >= 1_000 * s {
            push_fixed(&mut out, a / 1_000, 2);
            out.append("K");
        } else {
            push_fixed(&mut out, a, 2);
        }
        assert(out@ =~= self.format_spec(num));
        out
    }
}

/// Two decimals from a thousand up, four from one, `decimals` below.
#[derive(Debug, Clone, Copy)]
pub struct CryptoQuantityFormatter {
    pub decimals: usize,
}

impl Default for CryptoQuantityFormatter {
    fn default() -> (r: Self)
        ensures
            r.decimals == 8,
    {
        CryptoQuantityFormatter { decimals: 8 }
    }
}

impl QuantityFormatter for CryptoQuantityFormatter {
    open spec fn format_spec(&self, qty: u64) -> Seq<char> {
        if qty >= 1000 * FIXED_SCALE {
            fixed_text(qty as nat, 2)
        } else if qty >= FIXED_SCALE {
            fixed_text(qty as nat, 4)
        } else {
            fixed_text_wide(qty as nat, self.decimals as nat)
        }
    }

    fn format(&self, qty: Quantity) -> (r: String) {
        let mut out = String::new();
        let q = qty.0;
        if q >= 1000 * FIXED_SCALE {
            push_fixed(&mut out, q as u128, 2);
        } else if q >= FIXED_SCALE {
            push_fixed(&mut out, q as u128, 4);
        } else {
            push_fixed_wide(&mut out, q as u128, self.decimals);
        }
        assert(out@ =~= self.format_spec(q));
        out
    }
}

impl Price {
    /// The price with `decimals` decimals, rounded half up.
    pub fn format(&self, decimals: usize) -> (r: String)
        ensures
            r@ == fixed_text_wide(self.0 as nat, decimals as nat),
    {
        crate::text::fixed_string(self.0 as u128, decimals)
    }

    pub fn format_with<F: PriceFormatter>(&self, formatter: &F) -> (r: String)
        ensures
            r@ == formatter.format_spec(self.0),
    {
        formatter.format(*self)
    }
}

impl Quantity {
    /// The quantity with `decimals` decimals, rounded half up.
    pub fn format(&self, decimals: usize) -> (r: String)
        ensures
            r@ == fixed_text_wide(self.0 as nat, decimals as nat),
    {
        crate::text::fixed_string(self.0 as u128, decimals)
    }

    pub fn format_with<F: QuantityFormatter>(&self, formatter: &F) -> (r: String)
        ensures
            r@ == formatter.format_spec(self.0),
    {
        formatter.format(*self)
    }
}

/// Axis label for a price: `M` with one decimal from a million, no decimals
/// from ten thousand, one from a thousand, `decimals` from one, six below.
pub fn format_price(price: Price, decimals: usize) -> (r: String)
    ensures
        r@ == (if price.0 >= 1_000_000 * FIXED_SCALE {
            fixed_text((price.0 / 1_000_000) as nat, 1) + seq!['M']
        } else if price.0 >= 10_000 * FIXED_SCALE {
            fixed_text(price.0 as nat, 0)
        } else if price.0 >= 1_000 * FIXED_SCALE {
            fixed_text(price.0 as nat, 1)
        } else if price.0 >= FIXED_SCALE {
            fixed_text_wide(price.0 as nat, decimals as nat)
        } else {
            fixed_text(price.0 as nat, 6)
        }),
{
    let mut out = String::new();
    let p = price.0;
    proof {
        reveal_strlit("M");
    }
    if p >= 1_000_000 * FIXED_SCALE {
        push_fixed(&mut out, (p / 1_000_000) as u128, 1);
        out.append("M");
    } else if p >= 10_000 * FIXED_SCALE {
        push_fixed(&mut out, p as u128, 0);
    } else if p >= 1_000 * FIXED_SCALE {
        push_fixed(&mut out, p as u128, 1);
    } else if p >= FIXED_SCALE {
        push_fixed_wide(&mut out, p as u128, decimals);
    } else {
        push_fixed(&mut out, p as u128, 6);
    }
    assert(out@ =~= (if p >= 1_000_000 * FIXED_SCALE {
        fixed_text((p / 1_000_000) as nat, 1) + seq!['M']
    } else if p >= 10_000 * FIXED_SCALE {
        fixed_text(p as nat, 0)
    } else if p >= 1_000 * FIXED_SCALE {
        fixed_text(p as nat, 1)
    } else if p >= FIXED_SCALE {
        fixed_text_wide(p as nat, decimals as nat)
    } else {
        fixed_text(p as nat, 6)
    }));
    out
}

/// Axis label for a volume: `M` or `K` with two decimals, else four decimals.
pub fn format_volume(volume: Quantity) -> (r: String)
    ensures
        r@ == (if volume.0 >= 1_000_000 * FIXED_SCALE {
            fixed_text((volume.0 / 1_000_000) as nat, 2) + seq!['M']
        } else if volume.0 >= 1_000 * FIXED_SCALE {
            fixed_text((volume.0 / 1_000) as nat, 2) + seq!['K']
        } else {
            fixed_text(volume.0 as nat, 4)
        }),
{
    let mut out = String::new();
    let v = volume.0;
    proof {
        reveal_strlit("M");
        reveal_strlit("K");
    }
    if v >= 1_000_000 * FIXED_SCALE {
        push_fixed(&mut out, (v / 1_000_000) as u128, 2);
        out.append("M");
    } else if v >= 1_000 * FIXED_SCALE {
        push_fixed(&mut out, (v / 1_000) as u128, 2);
        out.append("K");
    } else {
        push_fixed(&mut out, v as u128, 4);
    }
    assert(out@ =~= (if v >= 1_000_000 * FIXED_SCALE {
        fixed_text((v / 1_000_000) as nat, 2) + seq!['M']
    } else if v >= 1_000 * FIXED_SCALE {
        fixed_text((v / 1_000) as nat, 2) + seq!['K']
    } else {
        fixed_text(v as nat, 4)
    }));
    out
}

/// A large amount with `B`, `M` or `K` suffix, as `CompactNumberFormatter` writes it.
pub fn format_large_number(num: i128) -> (r: String)
    ensures
        r@ == CompactNumberFormatter.format_spec(num),
{
    CompactNumberFormatter.format(num)
}

} // verus!
