//! A real number held as a signed integer with a fixed count of fractional bits.
//!
//! A `FixedPoint` with raw value `r` stands for the real number `r / 2^30`.
//! Sums and differences are exact; products and quotients are rounded toward
//! zero; the remainder takes the sign of the dividend, as `fmod` does.
use vstd::prelude::*;

verus! {

/// Number of fractional bits of a `FixedPoint`.
pub const FRAC_BITS: u32 = 30;

/// The raw value that stands for 1.0, that is 2^30.
pub const ONE_RAW: i64 = 1073741824;

/// The real value `raw / 2^30`, held as its raw integer.
#[derive(Clone, Copy, Debug, PartialEq, Eq, Structural)]
pub struct FixedPoint {
    pub raw: i64,
}

/// The scale of the representation, 2^30, as a mathematical integer.
pub open spec fn one() -> int {
    ONE_RAW as int
}

/// Whether an integer fits the raw representation.
pub open spec fn fits(v: int) -> bool {
    i64::MIN <= v <= i64::MAX
}

pub open spec fn abs(v: int) -> int {
    if v < 0 { -v } else { v }
}

/// Integer division rounded toward zero.
pub open spec fn trunc_div(n: int, d: int) -> int
    recommends
        d != 0,
{
    if (n < 0) == (d < 0) {
        abs(n) / abs(d)
    } else {
        -(abs(n) / abs(d))
    }
}

/// Integer remainder whose sign follows the dividend `n`, as `fmod` does.
pub open spec fn trunc_rem(n: int, d: int) -> int
    recommends
        d != 0,
{
    if n < 0 {
        -(abs(n) % abs(d))
    } else {
        n % abs(d)
    }
}

/// Raw value of the product of two raw values.
pub open spec fn mul_raw(a: int, b: int) -> int {
    trunc_div(a * b, one())
}

/// Raw value of the quotient of two raw values.
pub open spec fn div_raw(a: int, b: int) -> int {
    trunc_div(a * one(), b)
}

proof fn lemma_abs_mul(a: int, b: int)
    ensures
        abs(a * b) == abs(a) * abs(b),
        (a * b < 0) == ((a < 0) != (b < 0) && a != 0 && b != 0),
{
    assert(abs(a * b) == abs(a) * abs(b)) by (nonlinear_arith);
    assert((a * b < 0) == ((a < 0) != (b < 0) && a != 0 && b != 0)) by (nonlinear_arith);
}

fn magnitude(v: i64) -> (r: u128)
    ensures
        r as int == abs(v as int),
        r <= 0x8000_0000_0000_0000,
{
    if v < 0 {
        (-(v as i128)) as u128
    } else {
        v as u128
    }
}

/// Gives `n` the sign asked for; `n` is a magnitude that fits a raw value.
fn signed(n: u128, negative: bool) -> (r: i64)
    requires
        fits(if negative { -(n as int) } else { n as int }),
    ensures
        r as int == if negative { -(n as int) } else { n as int },
{
    if negative {
        (-(n as i128)) as i64
    } else {
        n as i64
    }
}

impl FixedPoint {
    /// The number with the given raw value.
    pub fn from_raw(raw: i64) -> (r: FixedPoint)
        ensures
            r.raw == raw,
    {
        FixedPoint { raw }
    }

    /// The integer `n` as a fixed-point number.
    pub fn from_int(n: i32) -> (r: FixedPoint)
        ensures
            r.raw == n as int * one(),
    {
        FixedPoint { raw: n as i64 * ONE_RAW }
    }

    /// The raw integer of this number.
    pub fn raw(&self) -> (r: i64)
        ensures
            r == self.raw,
    {
        self.raw
    }

    /// The sign test used by the rotation loop: whether this number is below zero.
    pub fn is_negative(&self) -> (r: bool)
        ensures
            r == (self.raw < 0),
    {
        self.raw < 0
    }
}

impl core::ops::Add for FixedPoint {
    type Output = FixedPoint;

    fn add(self, other: FixedPoint) -> (r: FixedPoint) {
        FixedPoint { raw: self.raw + other.raw }
    }
}

impl vstd::std_specs::ops::AddSpecImpl for FixedPoint {
    open spec fn obeys_add_spec() -> bool {
        true
    }

    open spec fn add_req(self, other: FixedPoint) -> bool {
        fits(self.raw + other.raw)
    }

    open spec fn add_spec(self, other: FixedPoint) -> FixedPoint {
        FixedPoint { raw: (self.raw + other.raw) as i64 }
    }
}

impl core::ops::Sub for FixedPoint {
    type Output = FixedPoint;

    fn sub(self, other: FixedPoint) -> (r: FixedPoint) {
        FixedPoint { raw: self.raw - other.raw }
    }
}

impl vstd::std_specs::ops::SubSpecImpl for FixedPoint {
    open spec fn obeys_sub_spec() -> bool {
        true
    }

    open spec fn sub_req(self, other: FixedPoint) -> bool {
        fits(self.raw - other.raw)
    }

    open spec fn sub_spec(self, other: FixedPoint) -> FixedPoint {
        FixedPoint { raw: (self.raw - other.raw) as i64 }
    }
}

impl core::ops::Mul for FixedPoint {
    type Output = FixedPoint;

    fn mul(self, other: FixedPoint) -> (r: FixedPoint) {
        let ma = magnitude(self.raw);
        let mb = magnitude(other.raw);
        proof {
            assert(ma * mb <= 0x8000_0000_0000_0000 * 0x8000_0000_0000_0000) by (nonlinear_arith)
                requires
                    ma <= 0x8000_0000_0000_0000,
                    mb <= 0x8000_0000_0000_0000,
            ;
        }
        let product: u128 = ma * mb;
        let q: u128 = product / (ONE_RAW as u128);
        proof {
            lemma_abs_mul(self.raw as int, other.raw as int);
        }
        FixedPoint { raw: signed(q, (self.raw < 0) != (other.raw < 0) && q != 0) }
    }
}

impl vstd::std_specs::ops::MulSpecImpl for FixedPoint {
    open spec fn obeys_mul_spec() -> bool {
        true
    }

    open spec fn mul_req(self, other: FixedPoint) -> bool {
        fits(mul_raw(self.raw as int, other.raw as int))
    }

    open spec fn mul_spec(self, other: FixedPoint) -> FixedPoint {
        FixedPoint { raw: mul_raw(self.raw as int, other.raw as int) as i64 }
    }
}

impl core::ops::Div for FixedPoint {
    type Output = FixedPoint;

    fn div(self, other: FixedPoint) -> (r: FixedPoint) {
        let ma = magnitude(self.raw);
        let mb = magnitude(other.raw);
        proof {
            assert(ma * one() <= 0x8000_0000_0000_0000 * one()) by (nonlinear_arith)
                requires
                    ma <= 0x8000_0000_0000_0000,
                    one() > 0,
            ;
            lemma_abs_mul(self.raw as int, one());
        }
        let q: u128 = (ma * (ONE_RAW as u128)) / mb;
        FixedPoint { raw: signed(q, (self.raw < 0) != (other.raw < 0) && q != 0) }
    }
}

impl vstd::std_specs::ops::DivSpecImpl for FixedPoint {
    open spec fn obeys_div_spec() -> bool {
        true
    }

    open spec fn div_req(self, other: FixedPoint) -> bool {
        other.raw != 0 && fits(div_raw(self.raw as int, other.raw as int))
    }

    open spec fn div_spec(self, other: FixedPoint) -> FixedPoint {
        FixedPoint { raw: div_raw(self.raw as int, other.raw as int) as i64 }
    }
}

impl core::ops::Rem for FixedPoint {
    type Output = FixedPoint;

    fn rem(self, modulus: FixedPoint) -> (r: FixedPoint) {
        let q: u128 = magnitude(self.raw) % magnitude(modulus.raw);
        FixedPoint { raw: signed(q, self.raw < 0) }
    }
}

impl vstd::std_specs::ops::RemSpecImpl for FixedPoint {
    open spec fn obeys_rem_spec() -> bool {
        true
    }

    open spec fn rem_req(self, modulus: FixedPoint) -> bool {
        modulus.raw != 0
    }

    open spec fn rem_spec(self, modulus: FixedPoint) -> FixedPoint {
        FixedPoint { raw: trunc_rem(self.raw as int, modulus.raw as int) as i64 }
    }
}

impl PartialOrd for FixedPoint {
    fn partial_cmp(&self, other: &FixedPoint) -> (r: Option<core::cmp::Ordering>) {
        if self.raw < other.raw {
            Some(core::cmp::Ordering::Less)
        } else if self.raw > other.raw {
            Some(core::cmp::Ordering::Greater)
        } else {
            Some(core::cmp::Ordering::Equal)
        }
    }
}

impl vstd::std_specs::cmp::PartialOrdSpecImpl for FixedPoint {
    open spec fn obeys_partial_cmp_spec() -> bool {
        true
    }

    open spec fn partial_cmp_spec(&self, other: &FixedPoint) -> Option<core::cmp::Ordering> {
        if self.raw < other.raw {
            Some(core::cmp::Ordering::Less)
        } else if self.raw > other.raw {
            Some(core::cmp::Ordering::Greater)
        } else {
            Some(core::cmp::Ordering::Equal)
        }
    }
}

/// The decimal digit character for `d < 10`.
pub open spec fn digit_char(d: nat) -> char {
    if d == 0 { '0' } else if d == 1 { '1' } else if d == 2 { '2' } else if d == 3 { '3' }
    else if d == 4 { '4' } else if d == 5 { '5' } else if d == 6 { '6' } else if d == 7 { '7' }
    else if d == 8 { '8' } else { '9' }
}

/// The decimal digits of `n`, without leading zeros (`"0"` for zero).
pub open spec fn decimal_digits(n: nat) -> Seq<char>
    decreases n,
{
    if n < 10 {
        seq![digit_char(n)]
    } else {
        decimal_digits(n / 10) + seq![digit_char(n % 10)]
    }
}

/// The last `width` decimal digits of `n`, with leading zeros.
pub open spec fn padded_digits(n: nat, width: nat) -> Seq<char>
    decreases width,
{
    if width == 0 {
        Seq::empty()
    } else {
        padded_digits(n / 10, (width - 1) as nat) + seq![digit_char(n % 10)]
    }
}

/// Count of decimal places in the rendering of a `FixedPoint`.
pub const DECIMAL_PLACES: u64 = 9;

/// 10 to the power `DECIMAL_PLACES`.
pub const DECIMAL_SCALE: u64 = 1000000000;

/// Decimal rendering of the raw value `raw`: a minus sign for a negative
/// value, the integer part, a point and nine decimal places, truncated.
pub open spec fn decimal_text(raw: int) -> Seq<char> {
    let m = abs(raw);
    let sign = if raw < 0 { seq!['-'] } else { Seq::empty() };
    let places = ((m % one()) * DECIMAL_SCALE) / one();
    sign + decimal_digits((m / one()) as nat) + seq!['.'] + padded_digits(places as nat, DECIMAL_PLACES as nat)
}

fn digit_str(d: u64) -> (r: &'static str)
    requires
        d < 10,
    ensures
        r@ == seq![digit_char(d as nat)],
{
    proof {
        reveal_strlit("0");
        reveal_strlit("1");
        reveal_strlit("2");
        reveal_strlit("3");
        reveal_strlit("4");
        reveal_strlit("5");
        reveal_strlit("6");
        reveal_strlit("7");
        reveal_strlit("8");
        reveal_strlit("9");
    }
    match d {
        0 => "0",
        1 => "1",
        2 => "2",
        3 => "3",
        4 => "4",
        5 => "5",
        6 => "6",
        7 => "7",
        8 => "8",
        _ => "9",
    }
}

fn append_digits(s: &mut String, n: u64)
    ensures
        final(s)@ == old(s)@ + decimal_digits(n as nat),
    decreases n,
{
    if n >= 10 {
        append_digits(s, n / 10);
    }
    s.append(digit_str(n % 10));
}

fn append_padded(s: &mut String, n: u64, width: u64)
    ensures
        final(s)@ == old(s)@ + padded_digits(n as nat, width as nat),
    decreases width,
{
    if width > 0 {
        append_padded(s, n / 10, width - 1);
        s.append(digit_str(n % 10));
    }
}

impl FixedPoint {
    /// The value in decimal, with nine places, truncated toward zero.
    pub fn to_decimal_string(&self) -> (r: String)
        ensures
            r@ == decimal_text(self.raw as int),
    {
        let m = magnitude(self.raw);
        let whole: u64 = (m / (ONE_RAW as u128)) as u64;
        let frac: u64 = (m % (ONE_RAW as u128)) as u64;
        proof {
            assert(frac * DECIMAL_SCALE < one() * DECIMAL_SCALE) by (nonlinear_arith)
                requires
                    frac < one(),
            ;
        }
        let places: u64 = frac * DECIMAL_SCALE / (ONE_RAW as u64);
        let mut s = String::new();
        if self.raw < 0 {
            proof {
                reveal_strlit("-");
            }
            s.append("-");
        }
        append_digits(&mut s, whole);
        proof {
            reveal_strlit(".");
        }
        s.append(".");
        append_padded(&mut s, places, DECIMAL_PLACES);
        proof {
            assert(s@ =~= decimal_text(self.raw as int));
        }
        s
    }
}

} // verus!
