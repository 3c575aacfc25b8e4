use vstd::prelude::*;
use vstd::string::*;

verus! {

/// Largest mantissa a [`Decimal`] may hold (96 bits).
pub const MAX_MANTISSA: i128 = 79228162514264337593543950335;

/// Largest scale a [`Decimal`] may hold.
pub const MAX_SCALE: u32 = 28;

/// An exact decimal number: `mantissa / 10^scale`.
#[derive(Debug, Clone, Copy, PartialEq, Eq, Structural)]
pub struct Decimal {
    pub mantissa: i128,
    pub scale: u32,
}

/// Why a money computation has no result.
#[derive(Debug, Clone, Copy, PartialEq, Eq, Structural)]
pub enum MoneyError {
    /// The exact result does not fit the target representation.
    Overflow,
}

pub open spec fn pow10(n: nat) -> int
    decreases n,
{
    if n == 0 { 1 } else { 10 * pow10((n - 1) as nat) }
}

pub open spec fn abs(n: int) -> int {
    if n < 0 { -n } else { n }
}

impl Decimal {
    /// Mantissa and scale within the representable range.
    pub open spec fn wf(self) -> bool {
        &&& abs(self.mantissa as int) <= MAX_MANTISSA
        &&& self.scale <= MAX_SCALE
    }

    /// The mantissa of the same number written with `scale` digits after the
    /// point (`scale` at least the current one).
    pub open spec fn scaled_to(self, scale: nat) -> int {
        self.mantissa * pow10((scale - self.scale) as nat)
    }

    /// Two decimals denote the same number.
    pub open spec fn same_value(self, other: Decimal) -> bool {
        self.mantissa * pow10(other.scale as nat) == other.mantissa * pow10(self.scale as nat)
    }
}

/// `n / q` rounded to the nearest integer, halves away from zero.
pub open spec fn round_half_away(n: int, q: int) -> int
    recommends
        q > 0,
{
    if n >= 0 {
        (2 * n + q) / (2 * q)
    } else {
        -((2 * -n + q) / (2 * q))
    }
}

/// The number of cents of a decimal amount, rounded half away from zero.
pub open spec fn cents_of(d: Decimal) -> int {
    round_half_away(d.mantissa * 100, pow10(d.scale as nat))
}

pub open spec fn fits_i64(n: int) -> bool {
    i64::MIN <= n <= i64::MAX
}

proof fn lemma_pow10_bounds(n: nat)
    ensures
        pow10(n) >= 1,
        n <= 28 ==> pow10(n) <= 10_000_000_000_000_000_000_000_000_000,
{
    lemma_pow10_mono(n, 28);
    reveal_with_fuel(pow10, 29);
    assert(pow10(28) == 10_000_000_000_000_000_000_000_000_000);
}

proof fn lemma_pow10_pos(n: nat)
    ensures
        pow10(n) >= 1,
    decreases n,
{
    if n > 0 {
        lemma_pow10_pos((n - 1) as nat);
    }
}

proof fn lemma_pow10_mono(a: nat, b: nat)
    ensures
        pow10(a) >= 1,
        a <= b ==> pow10(a) <= pow10(b),
    decreases b,
{
    lemma_pow10_pos(a);
    if a < b {
        lemma_pow10_mono(a, (b - 1) as nat);
    }
}

/// `m * f` where its magnitude stays within [`MAX_MANTISSA`].
fn mul_bounded(m: i128, f: i128) -> (r: Option<i128>)
    requires
        abs(m as int) <= MAX_MANTISSA,
        0 <= f <= 10_000_000_000_000_000_000_000_000_000,
    ensures
        r is Some <==> abs(m * f) <= MAX_MANTISSA,
        r matches Some(p) ==> p == m * f,
{
    if f == 0 {
        assert(m * f == 0) by (nonlinear_arith) requires f == 0;
        return Some(0);
    }
    let lim = MAX_MANTISSA / f;
    proof {
        vstd::arithmetic::div_mod::lemma_fundamental_div_mod(MAX_MANTISSA as int, f as int);
    }
    let ghost rem: int = MAX_MANTISSA as int % f as int;
    assert(0 <= rem < f);
    assert(lim >= 0) by (nonlinear_arith)
        requires MAX_MANTISSA as int == f * lim + rem, 0 <= rem < f, f > 0, MAX_MANTISSA > 0;
    if m > lim || m < -lim {
        assert(abs(m * f) > MAX_MANTISSA) by (nonlinear_arith)
            requires m > lim || m < -lim, MAX_MANTISSA as int == f * lim + rem, 0 <= rem < f, f > 0;
        None
    } else {
        assert(abs(m * f) <= MAX_MANTISSA) by (nonlinear_arith)
            requires -lim <= m <= lim, MAX_MANTISSA as int == f * lim + rem, 0 <= rem < f, f > 0;
        Some(m * f)
    }
}

/// `10^n` as an exact integer.
fn pow10_i128(n: u32) -> (r: i128)
    requires
        n <= MAX_SCALE,
    ensures
        r == pow10(n as nat),
{
    let mut r: i128 = 1;
    let mut i: u32 = 0;
    while i < n
        invariant
            i <= n <= MAX_SCALE,
            r == pow10(i as nat),
        decreases n - i,
    {
        proof {
            lemma_pow10_bounds(i as nat);
            lemma_pow10_bounds((i + 1) as nat);
        }
        r = r * 10;
        i = i + 1;
    }
    r
}

/// Scales a decimal amount to whole cents, rounding half away from zero;
/// fails where the cents do not fit a signed 64-bit integer.
pub fn decimal_to_cents(d: Decimal) -> (r: Result<i64, MoneyError>)
    requires
        d.wf(),
    ensures
        fits_i64(cents_of(d)) <==> r.is_ok(),
        r matches Ok(c) ==> c == cents_of(d),
        r matches Err(e) ==> e == MoneyError::Overflow,
{
    proof {
        lemma_pow10_bounds(d.scale as nat);
    }
    let q = pow10_i128(d.scale);
    let n: i128 = d.mantissa * 100;
    let c: i128 = if n >= 0 {
        (2 * n + q) / (2 * q)
    } else {
        -((2 * -n + q) / (2 * q))
    };
    if c < i64::MIN as i128 || c > i64::MAX as i128 {
        Err(MoneyError::Overflow)
    } else {
        Ok(c as i64)
    }
}

/// The decimal amount of a number of cents: `cents / 100`.
pub fn cents_to_decimal(cents: i64) -> (r: Decimal)
    ensures
        r.mantissa == cents,
        r.scale == 2,
        r.wf(),
{
    Decimal { mantissa: cents as i128, scale: 2 }
}

/// `rate * quantity`, exactly, at the rate's scale.
pub fn subtotal(rate: Decimal, quantity: i64) -> (r: Result<Decimal, MoneyError>)
    requires
        rate.wf(),
    ensures
        abs(rate.mantissa * quantity) <= MAX_MANTISSA <==> r.is_ok(),
        r matches Ok(d) ==> d.mantissa == rate.mantissa * quantity && d.scale == rate.scale
            && d.wf(),
        r matches Err(e) ==> e == MoneyError::Overflow,
{
    let q = quantity as i128;
    let f: i128 = if q < 0 { -q } else { q };
    match mul_bounded(rate.mantissa, f) {
        None => {
            assert(abs(rate.mantissa * quantity) == abs(rate.mantissa * f)) by (nonlinear_arith)
                requires f == abs(quantity as int), q == quantity;
            Err(MoneyError::Overflow)
        },
        Some(p) => {
            assert(abs(rate.mantissa * quantity) == abs(rate.mantissa * f)) by (nonlinear_arith)
                requires f == abs(quantity as int), q == quantity;
            let signed = if q < 0 { -p } else { p };
            assert(signed == rate.mantissa * quantity) by (nonlinear_arith)
                requires p == rate.mantissa * f, f == abs(quantity as int), (q < 0 ==> signed == -p), (q >= 0 ==> signed == p), q == quantity;
            Ok(Decimal { mantissa: signed, scale: rate.scale })
        },
    }
}

/// `a + b`, exactly, at the larger of the two scales; fails where either
/// operand, written at that scale, or the sum exceeds [`MAX_MANTISSA`].
pub fn add_decimals(a: Decimal, b: Decimal) -> (r: Result<Decimal, MoneyError>)
    requires
        a.wf(),
        b.wf(),
    ensures
        ({
            let s: nat = if a.scale >= b.scale { a.scale as nat } else { b.scale as nat };
            &&& (abs(a.scaled_to(s)) <= MAX_MANTISSA && abs(b.scaled_to(s)) <= MAX_MANTISSA
                && abs(a.scaled_to(s) + b.scaled_to(s)) <= MAX_MANTISSA) <==> r.is_ok()
            &&& r matches Ok(d) ==> d.scale == s && d.mantissa == a.scaled_to(s) + b.scaled_to(s)
                && d.wf()
            &&& r matches Err(e) ==> e == MoneyError::Overflow
        }),
{
    let s = if a.scale >= b.scale { a.scale } else { b.scale };
    proof {
        lemma_pow10_bounds((s - a.scale) as nat);
        lemma_pow10_bounds((s - b.scale) as nat);
    }
    let fa = pow10_i128(s - a.scale);
    let fb = pow10_i128(s - b.scale);
    let ma = match mul_bounded(a.mantissa, fa) {
        Some(v) => v,
        None => { return Err(MoneyError::Overflow); },
    };
    let mb = match mul_bounded(b.mantissa, fb) {
        Some(v) => v,
        None => { return Err(MoneyError::Overflow); },
    };
    let sum = ma + mb;
    if sum > MAX_MANTISSA || sum < -MAX_MANTISSA {
        Err(MoneyError::Overflow)
    } else {
        Ok(Decimal { mantissa: sum, scale: s })
    }
}

/// Whole cents scaled back to a decimal and to cents again are unchanged.
pub proof fn lemma_cents_round_trip(c: i64)
    ensures
        cents_of(Decimal { mantissa: c as i128, scale: 2 }) == c,
{
    reveal_with_fuel(pow10, 3);
    let n = c * 100;
    if n >= 0 {
        assert((2 * n + 100) / 200 == c) by (nonlinear_arith)
            requires n == c * 100, n >= 0;
    } else {
        assert((2 * -n + 100) / 200 == -c) by (nonlinear_arith)
            requires n == c * 100, n < 0;
    }
}

/// A decimal with at most two places scales to cents exactly, and those cents
/// denote the same amount.
pub proof fn lemma_two_places_exact(d: Decimal)
    requires
        d.scale <= 2,
    ensures
        cents_of(d) * pow10(d.scale as nat) == d.mantissa * 100,
        (Decimal { mantissa: cents_of(d) as i128, scale: 2 }).same_value(d) || !fits_i128(cents_of(d)),
{
    reveal_with_fuel(pow10, 3);
    let q = pow10(d.scale as nat);
    let n = d.mantissa * 100;
    let e: int = if d.scale == 0 { 100 } else if d.scale == 1 { 10 } else { 1 };
    assert(q * e == 100);
    assert(n == (d.mantissa * e) * q) by (nonlinear_arith)
        requires n == d.mantissa * 100, q * e == 100;
    let m = d.mantissa * e;
    if n >= 0 {
        assert(m >= 0) by (nonlinear_arith) requires n == m * q, n >= 0, q >= 1;
        assert((2 * n + q) / (2 * q) == m) by (nonlinear_arith)
            requires n == m * q, q >= 1, m >= 0;
    } else {
        assert(m < 0) by (nonlinear_arith) requires n == m * q, n < 0, q >= 1;
        assert((2 * -n + q) / (2 * q) == -m) by (nonlinear_arith)
            requires n == m * q, q >= 1, m < 0;
    }
    assert(cents_of(d) == m);
    assert(m * q == n);
    if fits_i128(m) {
        assert(pow10(2) == 100);
    }
}

pub open spec fn fits_i128(n: int) -> bool {
    i128::MIN <= n <= i128::MAX
}

/// `n` zero digits.
pub open spec fn zeros(n: nat) -> Seq<char> {
    Seq::new(n, |i: int| '0')
}

/// The digits of `m`, with leading zeros so that at least one digit stands
/// before the last `scale`.
pub open spec fn padded_digits(m: nat, scale: nat) -> Seq<char> {
    let t = crate::text::digits(m);
    if t.len() <= scale {
        zeros((scale + 1 - t.len()) as nat) + t
    } else {
        t
    }
}

/// The text of a decimal at its scale: `-` for negatives, the digits, and a
/// point before the last `scale` of them (`3500` at scale 2 is `35.00`).
pub open spec fn decimal_string(d: Decimal) -> Seq<char> {
    let t = padded_digits(abs(d.mantissa as int) as nat, d.scale as nat);
    let k = t.len() - d.scale;
    let body = if d.scale == 0 {
        t
    } else {
        t.subrange(0, k) + seq!['.'] + t.subrange(k, t.len() as int)
    };
    if d.mantissa < 0 {
        seq!['-'] + body
    } else {
        body
    }
}

/// Writes a decimal at its scale.
pub fn decimal_text(d: Decimal) -> (r: String)
    ensures
        r@ == decimal_string(d),
{
    let m = d.mantissa;
    let mag: u128 = if m < 0 { (-(m + 1)) as u128 + 1 } else { m as u128 };
    assert(mag as int == abs(m as int));
    let mut digits = String::new();
    crate::text::push_digits(&mut digits, mag);
    assert(digits@ =~= crate::text::digits(mag as nat));
    let n = digits.as_str().unicode_len();
    let scale = d.scale as usize;
    let mut padded = String::new();
    if n <= scale {
        let mut i: u64 = 0;
        let fill: u64 = d.scale as u64 + 1 - n as u64;
        while i < fill
            invariant
                i <= fill,
                padded@ == zeros(i as nat),
            decreases fill - i,
        {
            proof {
                reveal_strlit("0");
            }
            padded.append("0");
            i = i + 1;
            assert(padded@ =~= zeros(i as nat));
        }
    }
    padded.append(digits.as_str());
    assert(padded@ =~= padded_digits(mag as nat, d.scale as nat));
    let mut r = String::new();
    if m < 0 {
        proof {
            reveal_strlit("-");
        }
        r.append("-");
    }
    if scale == 0 {
        r.append(padded.as_str());
    } else {
        let len = padded.as_str().unicode_len();
        let k = len - scale;
        r.append(padded.as_str().substring_char(0, k));
        proof {
            reveal_strlit(".");
        }
        r.append(".");
        r.append(padded.as_str().substring_char(k, len));
    }
    assert(r@ =~= decimal_string(d));
    r
}

} // verus!
