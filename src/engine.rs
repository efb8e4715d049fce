//! The CORDIC engine: angle table, gain factor and the rotation loop.
//!
//! All quantities are `FixedPoint` numbers. The loop runs exactly `iters`
//! micro-rotations; step `i` turns the vector by `atan(2^-i)` toward the
//! residual angle with the linear update, and the lengthening that those
//! updates cause is undone once, at the end, by the gain factor.
use vstd::prelude::*;
use crate::fixed::{abs, mul_raw, one, trunc_div, trunc_rem, FixedPoint, ONE_RAW};

verus! {

/// Count of stored entries of the angle table; later entries halve the one before.
pub const ATAN_TABLE_LEN: usize = 24;

/// Count of stored gain factors; later iteration counts share the last one.
pub const GAIN_TABLE_LEN: usize = 17;

/// Raw value of 2 pi, the modulus of angle normalization.
pub const TWO_PI_RAW: i64 = 6746518852;

/// Raw value of pi, exactly half of `TWO_PI_RAW`.
pub const PI_RAW: i64 = 3373259426;

/// Raw value of pi / 2, exactly half of `PI_RAW`.
pub const HALF_PI_RAW: i64 = 1686629713;

/// Stored raw value of `atan(2^-i)`, for `i < ATAN_TABLE_LEN`.
pub open spec fn atan_stored(i: int) -> int {
    if i == 0 {
        843314857
    } else if i == 1 {
        497837829
    } else if i == 2 {
        263043837
    } else if i == 3 {
        133525159
    } else if i == 4 {
        67021687
    } else if i == 5 {
        33543516
    } else if i == 6 {
        16775851
    } else if i == 7 {
        8388437
    } else if i == 8 {
        4194283
    } else if i == 9 {
        2097149
    } else if i == 10 {
        1048576
    } else if i == 11 {
        524288
    } else if i == 12 {
        262144
    } else if i == 13 {
        131072
    } else if i == 14 {
        65536
    } else if i == 15 {
        32768
    } else if i == 16 {
        16384
    } else if i == 17 {
        8192
    } else if i == 18 {
        4096
    } else if i == 19 {
        2048
    } else if i == 20 {
        1024
    } else if i == 21 {
        512
    } else if i == 22 {
        256
    } else {
        128
    }
}

/// Entry `i` of the angle table: the stored `atan(2^-i)`, or half of entry
/// `i - 1` past the stored part.
pub open spec fn angle_at(i: nat) -> int
    decreases i,
{
    if i < ATAN_TABLE_LEN {
        atan_stored(i as int)
    } else {
        angle_at((i - 1) as nat) / 2
    }
}

/// Stored raw value of the product of the first `m` terms `1 / sqrt(1 + 2^-2y)`.
pub open spec fn gain_stored(m: int) -> int {
    if m == 0 {
        1073741824
    } else if m == 1 {
        759250125
    } else if m == 2 {
        679093957
    } else if m == 3 {
        658817909
    } else if m == 4 {
        653730436
    } else if m == 5 {
        652457347
    } else if m == 6 {
        652138997
    } else if m == 7 {
        652059405
    } else if m == 8 {
        652039507
    } else if m == 9 {
        652034532
    } else if m == 10 {
        652033289
    } else if m == 11 {
        652032978
    } else if m == 12 {
        652032900
    } else if m == 13 {
        652032881
    } else if m == 14 {
        652032876
    } else if m == 15 {
        652032874
    } else {
        652032874
    }
}

/// The gain factor for `n` iterations: the product of `n - 1` terms, which
/// stops changing at this precision once `GAIN_TABLE_LEN - 1` terms are taken.
pub open spec fn gain_at(n: nat) -> int {
    if n == 0 {
        gain_stored(0)
    } else if n - 1 < GAIN_TABLE_LEN {
        gain_stored(n - 1)
    } else {
        gain_stored(GAIN_TABLE_LEN - 1)
    }
}

fn atan_entry(i: usize) -> (r: i64)
    requires
        i < ATAN_TABLE_LEN,
    ensures
        r == atan_stored(i as int),
{
    match i {
        0 => 843314857,
        1 => 497837829,
        2 => 263043837,
        3 => 133525159,
        4 => 67021687,
        5 => 33543516,
        6 => 16775851,
        7 => 8388437,
        8 => 4194283,
        9 => 2097149,
        10 => 1048576,
        11 => 524288,
        12 => 262144,
        13 => 131072,
        14 => 65536,
        15 => 32768,
        16 => 16384,
        17 => 8192,
        18 => 4096,
        19 => 2048,
        20 => 1024,
        21 => 512,
        22 => 256,
        _ => 128,
    }
}

fn gain_entry(m: usize) -> (r: i64)
    requires
        m < GAIN_TABLE_LEN,
    ensures
        r == gain_stored(m as int),
{
    match m {
        0 => 1073741824,
        1 => 759250125,
        2 => 679093957,
        3 => 658817909,
        4 => 653730436,
        5 => 652457347,
        6 => 652138997,
        7 => 652059405,
        8 => 652039507,
        9 => 652034532,
        10 => 652033289,
        11 => 652032978,
        12 => 652032900,
        13 => 652032881,
        14 => 652032876,
        15 => 652032874,
        _ => 652032874,
    }
}

/// Size of the micro-rotation at step `i`: 1.0, halved at each step.
pub open spec fn shift_size(i: nat) -> int
    decreases i,
{
    if i == 0 {
        one()
    } else {
        shift_size((i - 1) as nat) / 2
    }
}

/// `2^k` as an integer.
pub open spec fn two_to(k: nat) -> int
    decreases k,
{
    if k == 0 {
        1
    } else {
        2 * two_to((k - 1) as nat)
    }
}

/// The state `(cos accumulator, sin accumulator, residual angle)` after `n`
/// micro-rotations that start from `(1, 0)` with residual angle `z0`.
pub open spec fn rotation(z0: int, n: nat) -> (int, int, int)
    decreases n,
{
    if n == 0 {
        (one(), 0, z0)
    } else {
        let s = rotation(z0, (n - 1) as nat);
        let negative = s.2 < 0;
        let factor = if negative { -shift_size((n - 1) as nat) } else { shift_size((n - 1) as nat) };
        let a = angle_at((n - 1) as nat);
        (
            s.0 - mul_raw(factor, s.1),
            mul_raw(factor, s.0) + s.1,
            if negative { s.2 + a } else { s.2 - a },
        )
    }
}

/// The angle reduced modulo 2 pi, keeping the sign of `theta`.
pub open spec fn normalized(theta: int) -> int {
    trunc_rem(theta, TWO_PI_RAW as int)
}

/// A normalized angle brought into `[-pi, pi]` by a whole turn.
pub open spec fn wrapped(theta: int) -> int {
    let r = normalized(theta);
    if r > PI_RAW {
        r - TWO_PI_RAW
    } else if r < -PI_RAW {
        r + TWO_PI_RAW
    } else {
        r
    }
}

/// The angle the rotation loop works on, in `[-pi/2, pi/2]`, and whether a
/// half turn was taken off to get there (which negates cosine and sine).
pub open spec fn reduced(theta: int) -> (int, bool) {
    let w = wrapped(theta);
    if w > HALF_PI_RAW {
        (w - PI_RAW, true)
    } else if w < -HALF_PI_RAW {
        (w + PI_RAW, true)
    } else {
        (w, false)
    }
}

/// Raw `(cos, sin)` that `cordic(theta, n)` returns: the rotation of the
/// reduced angle, scaled by the gain, and negated where a half turn was taken off.
pub open spec fn cordic_pair(theta: int, n: nat) -> (int, int) {
    let (z, flipped) = reduced(theta);
    let s = rotation(z, n);
    let c = mul_raw(s.0, gain_at(n));
    let t = mul_raw(s.1, gain_at(n));
    if flipped {
        (-c, -t)
    } else {
        (c, t)
    }
}

pub(crate) proof fn lemma_angle_range(i: nat)
    ensures
        0 <= angle_at(i) <= atan_stored(0),
    decreases i,
{
    if i >= ATAN_TABLE_LEN {
        lemma_angle_range((i - 1) as nat);
    }
}

pub(crate) proof fn lemma_shift_size(i: nat)
    ensures
        0 <= shift_size(i) <= one(),
        i >= 31 ==> shift_size(i) == 0,
    decreases i,
{
    if i > 0 {
        lemma_shift_size((i - 1) as nat);
    }
    if i == 31 {
        reveal_with_fuel(shift_size, 32);
        assert(shift_size(31) == 0);
    }
}

pub(crate) proof fn lemma_two_to_monotone(j: nat, k: nat)
    requires
        j <= k,
    ensures
        1 <= two_to(j) <= two_to(k),
    decreases k,
{
    if k > j {
        lemma_two_to_monotone(j, (k - 1) as nat);
    } else if k > 0 {
        lemma_two_to_monotone(0, (k - 1) as nat);
    }
}

pub(crate) proof fn lemma_mul_raw_shrinks(f: int, y: int)
    requires
        abs(f) <= one(),
    ensures
        abs(mul_raw(f, y)) <= abs(y),
        f == 0 ==> mul_raw(f, y) == 0,
{
    assert(abs(f * y) == abs(f) * abs(y)) by (nonlinear_arith);
    assert(abs(f) * abs(y) <= one() * abs(y)) by (nonlinear_arith)
        requires
            abs(f) <= one(),
            abs(y) >= 0,
    ;
    assert((one() * abs(y)) / one() == abs(y)) by (nonlinear_arith)
        requires
            one() > 0,
    ;
    vstd::arithmetic::div_mod::lemma_div_is_ordered(abs(f * y), one() * abs(y), one());
    if f == 0 {
        assert(f * y == 0);
    }
}

pub(crate) proof fn lemma_mul_raw_is(f: int, y: int, q: int)
    requires
        abs(q) * one() <= abs(f * y) < (abs(q) + 1) * one(),
        q == 0 || ((q < 0) == (f * y < 0)),
    ensures
        mul_raw(f, y) == q,
{
    let m = abs(f * y);
    assert((abs(q) + 1) * one() == abs(q) * one() + one()) by (nonlinear_arith);
    vstd::arithmetic::div_mod::lemma_fundamental_div_mod_converse(m, one(), abs(q), m - abs(q) * one());
}

/// Bound on the accumulators after `n` steps.
pub open spec fn magnitude_bound(n: nat) -> int {
    one() * two_to(if n < 31 { n } else { 31 })
}

proof fn lemma_rotation_bounds(z0: int, n: nat)
    requires
        abs(z0) <= TWO_PI_RAW,
    ensures
        abs(rotation(z0, n).0) <= magnitude_bound(n),
        abs(rotation(z0, n).1) <= magnitude_bound(n),
        abs(rotation(z0, n).2) <= TWO_PI_RAW,
        magnitude_bound(n) <= 0x2000_0000_0000_0000,
    decreases n,
{
    assert(two_to(31) == 0x8000_0000) by {
        reveal_with_fuel(two_to, 32);
    }
    lemma_two_to_monotone(if n < 31 { n } else { 31 }, 31);
    if n > 0 {
        let m = (n - 1) as nat;
        lemma_rotation_bounds(z0, m);
        lemma_shift_size(m);
        lemma_angle_range(m);
        let s = rotation(z0, m);
        let f = if s.2 < 0 { -shift_size(m) } else { shift_size(m) };
        lemma_mul_raw_shrinks(f, s.0);
        lemma_mul_raw_shrinks(f, s.1);
        if m < 31 {
            assert(magnitude_bound(n) == 2 * magnitude_bound(m));
        }
    }
}

proof fn lemma_halve(a: int)
    requires
        a >= 0,
    ensures
        trunc_div(a * one(), 2 * one()) == a / 2,
{
    assert(a * one() == (a / 2) * (2 * one()) + (a % 2) * one()) by (nonlinear_arith);
    assert(0 <= (a % 2) * one() < 2 * one()) by (nonlinear_arith)
        requires
            0 <= a % 2 < 2,
            one() > 0,
    ;
    assert(a * one() >= 0) by (nonlinear_arith)
        requires
            a >= 0,
    ;
    vstd::arithmetic::div_mod::lemma_fundamental_div_mod_converse(
        a * one(),
        2 * one(),
        a / 2,
        (a % 2) * one(),
    );
}

/// The angle table for `iters` iterations: entry `i` is `atan(2^-i)`, for
/// `i` in `0..=iters`. Past the stored entries each one is half the one before.
pub fn build_angle_table(iters: usize) -> (r: Vec<FixedPoint>)
    requires
        iters < usize::MAX,
    ensures
        r@.len() == iters + 1,
        forall|i: int| 0 <= i <= iters ==> #[trigger] r@[i].raw == angle_at(i as nat),
{
    let two = FixedPoint::from_int(2);
    let mut angles: Vec<FixedPoint> = Vec::new();
    let mut i: usize = 0;
    while i <= iters
        invariant
            iters < usize::MAX,
            i <= iters + 1,
            two.raw == 2 * one(),
            angles@.len() == i,
            forall|k: int| 0 <= k < i ==> #[trigger] angles@[k].raw == angle_at(k as nat),
        decreases iters + 1 - i,
    {
        let entry = if i < ATAN_TABLE_LEN {
            FixedPoint::from_raw(atan_entry(i))
        } else {
            let previous = angles[i - 1];
            proof {
                lemma_angle_range((i - 1) as nat);
                lemma_halve(previous.raw as int);
            }
            previous / two
        };
        angles.push(entry);
        i += 1;
    }
    angles
}

/// The gain factor K for `iters` iterations: the product of `1 / sqrt(1 + 2^-2y)`
/// over `y` in `0..iters - 1` (1.0 where that range is empty).
pub fn gain_factor(iters: usize) -> (r: FixedPoint)
    ensures
        r.raw == gain_at(iters as nat),
{
    if iters == 0 {
        FixedPoint::from_raw(gain_entry(0))
    } else if iters - 1 < GAIN_TABLE_LEN {
        FixedPoint::from_raw(gain_entry(iters - 1))
    } else {
        FixedPoint::from_raw(gain_entry(GAIN_TABLE_LEN - 1))
    }
}

/// Reduces an angle for the rotation loop: the sign-keeping remainder modulo
/// 2 pi, then a whole turn into `[-pi, pi]`, then a half turn into
/// `[-pi/2, pi/2]`, reporting whether that half turn was taken.
pub fn reduce_angle(theta: FixedPoint) -> (r: (FixedPoint, bool))
    ensures
        r.0.raw == reduced(theta.raw as int).0,
        r.1 == reduced(theta.raw as int).1,
        -HALF_PI_RAW <= r.0.raw <= HALF_PI_RAW,
{
    let two_pi = FixedPoint::from_raw(TWO_PI_RAW);
    let pi = FixedPoint::from_raw(PI_RAW);
    let half_pi = FixedPoint::from_raw(HALF_PI_RAW);
    let zero = FixedPoint::from_raw(0);
    let r = theta % two_pi;
    let w = if r > pi {
        r - two_pi
    } else if r < zero - pi {
        r + two_pi
    } else {
        r
    };
    if w > half_pi {
        (w - pi, true)
    } else if w < zero - half_pi {
        (w + pi, true)
    } else {
        (w, false)
    }
}

/// Approximates `[cos theta, sin theta]` with `iters` CORDIC micro-rotations.
///
/// `theta` is first brought into `[-pi/2, pi/2]` by `reduce_angle`, inside
/// the reach of the rotation steps; where a half turn was taken off, the
/// result is negated. With `iters == 0` no rotation is made and the result
/// is `[1, 0]`, or `[-1, 0]` after a half turn.
pub fn cordic(theta: FixedPoint, iters: usize) -> (r: [FixedPoint; 2])
    requires
        iters < usize::MAX,
    ensures
        r@[0].raw == cordic_pair(theta.raw as int, iters as nat).0,
        r@[1].raw == cordic_pair(theta.raw as int, iters as nat).1,
        iters == 0 ==> r@[0].raw == (if reduced(theta.raw as int).1 { -one() } else { one() })
            && r@[1].raw == 0,
{
    let ghost input = theta.raw as int;
    let (mut theta, flipped) = reduce_angle(theta);
    let ghost z0 = theta.raw as int;
    let angles = build_angle_table(iters);
    let kvalue = gain_factor(iters);
    let zero = FixedPoint::from_raw(0);
    let two = FixedPoint::from_int(2);
    let mut poweroftwo = FixedPoint::from_raw(ONE_RAW);
    let mut angle = angles[0];
    let mut v = [FixedPoint::from_raw(ONE_RAW), zero];
    let mut i: usize = 0;
    while i < iters
        invariant
            i <= iters < usize::MAX,
            z0 == reduced(input).0,
            flipped == reduced(input).1,
            abs(z0) <= HALF_PI_RAW,
            angles@.len() == iters + 1,
            forall|k: int| 0 <= k <= iters ==> #[trigger] angles@[k].raw == angle_at(k as nat),
            zero.raw == 0,
            two.raw == 2 * one(),
            poweroftwo.raw == shift_size(i as nat),
            angle.raw == angle_at(i as nat),
            v@[0].raw == rotation(z0, i as nat).0,
            v@[1].raw == rotation(z0, i as nat).1,
            theta.raw == rotation(z0, i as nat).2,
        decreases iters - i,
    {
        proof {
            lemma_rotation_bounds(z0, i as nat);
            lemma_rotation_bounds(z0, (i + 1) as nat);
            lemma_shift_size(i as nat);
            lemma_angle_range(i as nat);
            lemma_halve(poweroftwo.raw as int);
            let f = if theta.raw < 0 { -shift_size(i as nat) } else { shift_size(i as nat) };
            lemma_mul_raw_shrinks(f, v@[0].raw as int);
            lemma_mul_raw_shrinks(f, v@[1].raw as int);
        }
        let sigma_is_neg = theta < zero;
        let factor = if sigma_is_neg {
            zero - poweroftwo
        } else {
            poweroftwo
        };
        v = [v[0] - factor * v[1], factor * v[0] + v[1]];
        theta = if sigma_is_neg {
            theta + angle
        } else {
            theta - angle
        };
        poweroftwo = poweroftwo / two;
        angle = angles[i + 1];
        i += 1;
    }
    proof {
        if iters == 0 {
            lemma_mul_raw_is(one(), one(), one());
        }
        lemma_rotation_bounds(z0, iters as nat);
        lemma_mul_raw_shrinks(gain_at(iters as nat), v@[0].raw as int);
        lemma_mul_raw_shrinks(gain_at(iters as nat), v@[1].raw as int);
    }
    let c = v[0] * kvalue;
    let t = v[1] * kvalue;
    if flipped {
        [zero - c, zero - t]
    } else {
        [c, t]
    }
}


/// Why `rotate` refused its input.
#[derive(Clone, Copy, Debug, PartialEq, Eq, Structural)]
pub enum CordicError {
    /// The iteration count was zero.
    InvalidIterationCount,
}

/// Approximates `[cos theta, sin theta]` with `iters` micro-rotations,
/// refusing an iteration count of zero.
pub fn rotate(theta: FixedPoint, iters: usize) -> (r: Result<[FixedPoint; 2], CordicError>)
    requires
        iters < usize::MAX,
    ensures
        iters == 0 <==> r == Err::<[FixedPoint; 2], CordicError>(CordicError::InvalidIterationCount),
        r is Ok ==> r->Ok_0@[0].raw == cordic_pair(theta.raw as int, iters as nat).0
            && r->Ok_0@[1].raw == cordic_pair(theta.raw as int, iters as nat).1,
{
    if iters == 0 {
        Err(CordicError::InvalidIterationCount)
    } else {
        Ok(cordic(theta, iters))
    }
}

} // verus!
