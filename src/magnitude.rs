//! The magnitude law: `cos^2 + sin^2` of the result stays close to
//! `1 + 4^(1 - n)`, the magnitude that `n` rotation steps and a gain of
//! `n - 1` factors give in exact arithmetic.
use vstd::prelude::*;
use crate::engine::{
    cordic_pair, gain_at, lemma_two_to_monotone, reduced, rotation, shift_size, two_to,
};
use crate::fixed::{abs, mul_raw, one};
use crate::laws::lemma_rotation_settles;

verus! {

proof fn lemma_one_squared()
    ensures
        one() * one() == 0x1000_0000_0000_0000,
{
    assert(one() == 0x4000_0000);
    assert(one() * one() == 0x1000_0000_0000_0000) by (nonlinear_arith)
        requires
            one() == 0x4000_0000,
    ;
}

/// The rounding of a product: `mul_raw(f, y)` is `f * y / 2^30` up to less than one unit.
proof fn lemma_mul_raw_error(f: int, y: int)
    ensures
        abs(f * y - one() * mul_raw(f, y)) < one(),
{
    let n = f * y;
    let q = abs(n) / one();
    let r = abs(n) % one();
    vstd::arithmetic::div_mod::lemma_fundamental_div_mod(abs(n), one());
    assert(abs(n) == one() * q + r);
    if n < 0 {
        assert(mul_raw(f, y) == -q);
    } else {
        assert(mul_raw(f, y) == q);
    }
}

proof fn lemma_square_shift(a: int, e: int)
    ensures
        (a + e) * (a + e) == a * a + 2 * a * e + e * e,
{
    assert((a + e) * (a + e) == a * a + 2 * a * e + e * e) by (nonlinear_arith);
}

proof fn lemma_rotation_identity(o: int, f: int, x: int, y: int)
    ensures
        (o * x - f * y) * (o * x - f * y) + (f * x + o * y) * (f * x + o * y)
            == (o * o + f * f) * (x * x + y * y),
{
    let p = o * x;
    let q = f * y;
    let r = f * x;
    let u = o * y;
    lemma_square_shift(p, -q);
    lemma_square_shift(r, u);
    assert(p * p == o * o * (x * x)) by (nonlinear_arith)
        requires
            p == o * x,
    ;
    assert(q * q == f * f * (y * y)) by (nonlinear_arith)
        requires
            q == f * y,
    ;
    assert(r * r == f * f * (x * x)) by (nonlinear_arith)
        requires
            r == f * x,
    ;
    assert(u * u == o * o * (y * y)) by (nonlinear_arith)
        requires
            u == o * y,
    ;
    assert(p * q == r * u) by (nonlinear_arith)
        requires
            p == o * x,
            q == f * y,
            r == f * x,
            u == o * y,
    ;
    assert(2 * p * (-q) == -(2 * (p * q))) by (nonlinear_arith);
    assert(2 * r * u == 2 * (r * u)) by (nonlinear_arith);
    assert((-q) * (-q) == q * q) by (nonlinear_arith);
    assert((o * o + f * f) * (x * x + y * y) == o * o * (x * x) + f * f * (y * y) + f * f * (x * x)
        + o * o * (y * y)) by (nonlinear_arith);
}

proof fn lemma_product_bound(p: int, q: int, bp: int, bq: int)
    requires
        abs(p) <= bp,
        abs(q) <= bq,
    ensures
        abs(p * q) <= bp * bq,
{
    assert(abs(p * q) == abs(p) * abs(q)) by (nonlinear_arith);
    assert(abs(p) * abs(q) <= bp * bq) by (nonlinear_arith)
        requires
            0 <= abs(p) <= bp,
            0 <= abs(q) <= bq,
    ;
}

/// One rounded rotation step scales `x^2 + y^2` by `1 + (f / 2^30)^2`, up to
/// an error set by a bound `b` on the coordinates.
proof fn lemma_quad_step(x: int, y: int, f: int, b: int)
    requires
        abs(f) <= one(),
        abs(x) <= b,
        abs(y) <= b,
    ensures
        ({
            let nx = x - mul_raw(f, y);
            let ny = mul_raw(f, x) + y;
            let exact = (one() * one() + f * f) * (x * x + y * y);
            let err = 8 * one() * one() * b + 2 * one() * one();
            exact - err <= one() * one() * (nx * nx + ny * ny) <= exact + err
        }),
{
    let o = one();
    let m1 = mul_raw(f, y);
    let m2 = mul_raw(f, x);
    lemma_mul_raw_error(f, y);
    lemma_mul_raw_error(f, x);
    let e1 = f * y - o * m1;
    let e2 = o * m2 - f * x;
    let a = o * x - f * y;
    let c = f * x + o * y;
    lemma_rotation_identity(o, f, x, y);
    let nx = x - m1;
    let ny = m2 + y;
    assert(o * nx == a + e1) by (nonlinear_arith)
        requires
            nx == x - m1,
            e1 == f * y - o * m1,
            a == o * x - f * y,
    ;
    assert(o * ny == c + e2) by (nonlinear_arith)
        requires
            ny == m2 + y,
            e2 == o * m2 - f * x,
            c == f * x + o * y,
    ;
    lemma_square_shift(a, e1);
    lemma_square_shift(c, e2);
    assert(o * o * (nx * nx + ny * ny) == (a + e1) * (a + e1) + (c + e2) * (c + e2))
        by (nonlinear_arith)
        requires
            o * nx == a + e1,
            o * ny == c + e2,
    ;
    assert(abs(a) <= 2 * o * b) by (nonlinear_arith)
        requires
            a == o * x - f * y,
            abs(f) <= o,
            abs(x) <= b,
            abs(y) <= b,
            o > 0,
    ;
    assert(abs(c) <= 2 * o * b) by (nonlinear_arith)
        requires
            c == f * x + o * y,
            abs(f) <= o,
            abs(x) <= b,
            abs(y) <= b,
            o > 0,
    ;
    lemma_product_bound(a, e1, 2 * o * b, o);
    lemma_product_bound(c, e2, 2 * o * b, o);
    lemma_product_bound(e1, e1, o, o);
    lemma_product_bound(e2, e2, o, o);
    let t = o * o * b;
    assert((2 * o * b) * o == 2 * t) by (nonlinear_arith)
        requires
            t == o * o * b,
    ;
    assert(2 * a * e1 == 2 * (a * e1)) by (nonlinear_arith);
    assert(2 * c * e2 == 2 * (c * e2)) by (nonlinear_arith);
    assert(8 * o * o * b == 8 * t) by (nonlinear_arith)
        requires
            t == o * o * b,
    ;
    assert(2 * o * o == 2 * (o * o)) by (nonlinear_arith);
}

/// Scaling both coordinates by `k / 2^30` with rounding scales `x^2 + y^2`
/// by `(k / 2^30)^2`, up to an error set by a bound `b` on the coordinates.
proof fn lemma_quad_scale(x: int, y: int, k: int, b: int)
    requires
        0 <= k <= one(),
        abs(x) <= b,
        abs(y) <= b,
    ensures
        ({
            let c = mul_raw(x, k);
            let t = mul_raw(y, k);
            let exact = k * k * (x * x + y * y);
            let err = 4 * one() * k * b + 2 * one() * one();
            exact - err <= one() * one() * (c * c + t * t) <= exact + err
        }),
{
    let o = one();
    let c = mul_raw(x, k);
    let t = mul_raw(y, k);
    lemma_mul_raw_error(x, k);
    lemma_mul_raw_error(y, k);
    let e1 = o * c - x * k;
    let e2 = o * t - y * k;
    assert(o * o * (c * c + t * t) == (x * k + e1) * (x * k + e1) + (y * k + e2) * (y * k + e2))
        by (nonlinear_arith)
        requires
            e1 == o * c - x * k,
            e2 == o * t - y * k,
    ;
    lemma_square_shift(x * k, e1);
    lemma_square_shift(y * k, e2);
    assert((x * k) * (x * k) + (y * k) * (y * k) == k * k * (x * x + y * y)) by (nonlinear_arith);
    assert(2 * (x * k) * e1 == 2 * x * k * e1) by (nonlinear_arith);
    assert(2 * (y * k) * e2 == 2 * y * k * e2) by (nonlinear_arith);
    assert(abs(k * e1) <= k * o) by (nonlinear_arith)
        requires
            abs(e1) < o,
            0 <= k,
    ;
    assert(abs(k * e2) <= k * o) by (nonlinear_arith)
        requires
            abs(e2) < o,
            0 <= k,
    ;
    lemma_product_bound(x, k * e1, b, k * o);
    lemma_product_bound(y, k * e2, b, k * o);
    lemma_product_bound(e1, e1, o, o);
    lemma_product_bound(e2, e2, o, o);
    let w = o * k * b;
    assert(b * (k * o) == w) by (nonlinear_arith)
        requires
            w == o * k * b,
    ;
    assert(2 * x * k * e1 == 2 * (x * (k * e1))) by (nonlinear_arith);
    assert(2 * y * k * e2 == 2 * (y * (k * e2))) by (nonlinear_arith);
    assert(4 * o * k * b == 4 * w) by (nonlinear_arith)
        requires
            w == o * k * b,
    ;
    assert(2 * o * o == 2 * (o * o)) by (nonlinear_arith);
}


/// `x^2 + y^2` of the accumulators after `n` steps from residual angle `z0`.
pub open spec fn quad(z0: int, n: nat) -> int {
    let s = rotation(z0, n);
    s.0 * s.0 + s.1 * s.1
}

/// `cos^2 + sin^2` of the raw result of `cordic(theta, n)`.
pub open spec fn magnitude_sq(theta: int, n: nat) -> int {
    let p = cordic_pair(theta, n);
    p.0 * p.0 + p.1 * p.1
}

/// `c^2 + t^2` of the scaled accumulators, before any half-turn negation.
spec fn scaled_sq(z0: int, n: nat) -> int {
    let s = rotation(z0, n);
    let c = mul_raw(s.0, gain_at(n));
    let t = mul_raw(s.1, gain_at(n));
    c * c + t * t
}

proof fn lemma_abs_from_square(x: int, y: int, b: int)
    requires
        b >= 0,
        x * x + y * y <= b * b,
    ensures
        abs(x) <= b,
        abs(y) <= b,
{
    assert(abs(x) <= b) by (nonlinear_arith)
        requires
            b >= 0,
            x * x + y * y <= b * b,
    ;
    assert(abs(y) <= b) by (nonlinear_arith)
        requires
            b >= 0,
            x * x + y * y <= b * b,
    ;
}

/// Carries bounds on `quad` across step `i`, whose step size is `s`.
proof fn lemma_quad_bounds_step(z0: int, i: nat, s: int, lo: int, hi: int, b: int, lo2: int, hi2: int)
    requires
        shift_size(i) == s,
        0 <= s <= 0x4000_0000,
        b >= 0,
        hi <= b * b,
        lo <= quad(z0, i) <= hi,
        0x1000_0000_0000_0000 * lo2 <= (0x1000_0000_0000_0000 + s * s) * lo
            - (8 * 0x1000_0000_0000_0000 * b + 2 * 0x1000_0000_0000_0000),
        (0x1000_0000_0000_0000 + s * s) * hi + (8 * 0x1000_0000_0000_0000 * b
            + 2 * 0x1000_0000_0000_0000) <= 0x1000_0000_0000_0000 * hi2,
    ensures
        lo2 <= quad(z0, i + 1) <= hi2,
{
    lemma_one_squared();
    assert(one() == 0x4000_0000);
    let st = rotation(z0, i);
    let f = if st.2 < 0 { -s } else { s };
    lemma_abs_from_square(st.0, st.1, b);
    lemma_quad_step(st.0, st.1, f, b);
    assert(f * f == s * s) by (nonlinear_arith)
        requires
            f == s || f == -s,
    ;
    lemma_one_squared();
    let o2 = one() * one();
    let q = quad(z0, i);
    let q2 = quad(z0, i + 1);
    let e = 8 * one() * one() * b + 2 * one() * one();
    assert(lo2 <= q2 <= hi2) by (nonlinear_arith)
        requires
            o2 > 0,
            (o2 + s * s) * q - e <= o2 * q2 <= (o2 + s * s) * q + e,
            lo <= q <= hi,
            o2 * lo2 <= (o2 + s * s) * lo - e,
            (o2 + s * s) * hi + e <= o2 * hi2,
    ;
}

/// Carries bounds on `quad` after `n` steps through the scaling by the gain `k`.
proof fn lemma_final_bounds(z0: int, n: nat, k: int, lo: int, hi: int, b: int, c_lo: int, c_hi: int)
    requires
        gain_at(n) == k,
        0 <= k <= 0x4000_0000,
        b >= 0,
        hi <= b * b,
        lo <= quad(z0, n) <= hi,
        0x1000_0000_0000_0000 * c_lo <= k * k * lo - (4 * 0x4000_0000 * k * b + 2 * 0x1000_0000_0000_0000),
        k * k * hi + (4 * 0x4000_0000 * k * b + 2 * 0x1000_0000_0000_0000) <= 0x1000_0000_0000_0000 * c_hi,
    ensures
        c_lo <= scaled_sq(z0, n) <= c_hi,
{
    lemma_one_squared();
    assert(one() == 0x4000_0000);
    let st = rotation(z0, n);
    lemma_abs_from_square(st.0, st.1, b);
    lemma_quad_scale(st.0, st.1, k, b);
    lemma_one_squared();
    let o2 = one() * one();
    let q = quad(z0, n);
    let c = scaled_sq(z0, n);
    let e = 4 * one() * k * b + 2 * one() * one();
    assert(c_lo <= c <= c_hi) by (nonlinear_arith)
        requires
            o2 > 0,
            k * k * q - e <= o2 * c <= k * k * q + e,
            lo <= q <= hi,
            k * k >= 0,
            o2 * c_lo <= k * k * lo - e,
            k * k * hi + e <= o2 * c_hi,
    ;
}

/// The step sizes up to the last nonzero one.
proof fn lemma_shift_values()
    ensures
        shift_size(0) == 1073741824,
        shift_size(1) == 536870912,
        shift_size(2) == 268435456,
        shift_size(3) == 134217728,
        shift_size(4) == 67108864,
        shift_size(5) == 33554432,
        shift_size(6) == 16777216,
        shift_size(7) == 8388608,
        shift_size(8) == 4194304,
        shift_size(9) == 2097152,
        shift_size(10) == 1048576,
        shift_size(11) == 524288,
        shift_size(12) == 262144,
        shift_size(13) == 131072,
        shift_size(14) == 65536,
        shift_size(15) == 32768,
        shift_size(16) == 16384,
        shift_size(17) == 8192,
        shift_size(18) == 4096,
        shift_size(19) == 2048,
        shift_size(20) == 1024,
        shift_size(21) == 512,
        shift_size(22) == 256,
        shift_size(23) == 128,
        shift_size(24) == 64,
        shift_size(25) == 32,
        shift_size(26) == 16,
        shift_size(27) == 8,
        shift_size(28) == 4,
        shift_size(29) == 2,
        shift_size(30) == 1,
{
    assert(shift_size(0) == 1073741824);
    assert(shift_size(1) == 536870912);
    assert(shift_size(2) == 268435456);
    assert(shift_size(3) == 134217728);
    assert(shift_size(4) == 67108864);
    assert(shift_size(5) == 33554432);
    assert(shift_size(6) == 16777216);
    assert(shift_size(7) == 8388608);
    assert(shift_size(8) == 4194304);
    assert(shift_size(9) == 2097152);
    assert(shift_size(10) == 1048576);
    assert(shift_size(11) == 524288);
    assert(shift_size(12) == 262144);
    assert(shift_size(13) == 131072);
    assert(shift_size(14) == 65536);
    assert(shift_size(15) == 32768);
    assert(shift_size(16) == 16384);
    assert(shift_size(17) == 8192);
    assert(shift_size(18) == 4096);
    assert(shift_size(19) == 2048);
    assert(shift_size(20) == 1024);
    assert(shift_size(21) == 512);
    assert(shift_size(22) == 256);
    assert(shift_size(23) == 128);
    assert(shift_size(24) == 64);
    assert(shift_size(25) == 32);
    assert(shift_size(26) == 16);
    assert(shift_size(27) == 8);
    assert(shift_size(28) == 4);
    assert(shift_size(29) == 2);
    assert(shift_size(30) == 1);
}

/// Powers of 4 up to 4^30.
proof fn lemma_two_to_values()
    ensures
        two_to(0) == 1int,
        two_to(2) == 4int,
        two_to(4) == 16int,
        two_to(6) == 64int,
        two_to(8) == 256int,
        two_to(10) == 1024int,
        two_to(12) == 4096int,
        two_to(14) == 16384int,
        two_to(16) == 65536int,
        two_to(18) == 262144int,
        two_to(20) == 1048576int,
        two_to(22) == 4194304int,
        two_to(24) == 16777216int,
        two_to(26) == 67108864int,
        two_to(28) == 268435456int,
        two_to(30) == 1073741824int,
        two_to(32) == 4294967296int,
        two_to(34) == 17179869184int,
        two_to(36) == 68719476736int,
        two_to(38) == 274877906944int,
        two_to(40) == 1099511627776int,
        two_to(42) == 4398046511104int,
        two_to(44) == 17592186044416int,
        two_to(46) == 70368744177664int,
        two_to(48) == 281474976710656int,
        two_to(50) == 1125899906842624int,
        two_to(52) == 4503599627370496int,
        two_to(54) == 18014398509481984int,
        two_to(56) == 72057594037927936int,
        two_to(58) == 288230376151711744int,
        two_to(60) == 1152921504606846976int,
{
    assert(two_to(0) == 1int);
    assert(two_to(1) == 2int);
    assert(two_to(2) == 4int);
    assert(two_to(3) == 8int);
    assert(two_to(4) == 16int);
    assert(two_to(5) == 32int);
    assert(two_to(6) == 64int);
    assert(two_to(7) == 128int);
    assert(two_to(8) == 256int);
    assert(two_to(9) == 512int);
    assert(two_to(10) == 1024int);
    assert(two_to(11) == 2048int);
    assert(two_to(12) == 4096int);
    assert(two_to(13) == 8192int);
    assert(two_to(14) == 16384int);
    assert(two_to(15) == 32768int);
    assert(two_to(16) == 65536int);
    assert(two_to(17) == 131072int);
    assert(two_to(18) == 262144int);
    assert(two_to(19) == 524288int);
    assert(two_to(20) == 1048576int);
    assert(two_to(21) == 2097152int);
    assert(two_to(22) == 4194304int);
    assert(two_to(23) == 8388608int);
    assert(two_to(24) == 16777216int);
    assert(two_to(25) == 33554432int);
    assert(two_to(26) == 67108864int);
    assert(two_to(27) == 134217728int);
    assert(two_to(28) == 268435456int);
    assert(two_to(29) == 536870912int);
    assert(two_to(30) == 1073741824int);
    assert(two_to(31) == 2147483648int);
    assert(two_to(32) == 4294967296int);
    assert(two_to(33) == 8589934592int);
    assert(two_to(34) == 17179869184int);
    assert(two_to(35) == 34359738368int);
    assert(two_to(36) == 68719476736int);
    assert(two_to(37) == 137438953472int);
    assert(two_to(38) == 274877906944int);
    assert(two_to(39) == 549755813888int);
    assert(two_to(40) == 1099511627776int);
    assert(two_to(41) == 2199023255552int);
    assert(two_to(42) == 4398046511104int);
    assert(two_to(43) == 8796093022208int);
    assert(two_to(44) == 17592186044416int);
    assert(two_to(45) == 35184372088832int);
    assert(two_to(46) == 70368744177664int);
    assert(two_to(47) == 140737488355328int);
    assert(two_to(48) == 281474976710656int);
    assert(two_to(49) == 562949953421312int);
    assert(two_to(50) == 1125899906842624int);
    assert(two_to(51) == 2251799813685248int);
    assert(two_to(52) == 4503599627370496int);
    assert(two_to(53) == 9007199254740992int);
    assert(two_to(54) == 18014398509481984int);
    assert(two_to(55) == 36028797018963968int);
    assert(two_to(56) == 72057594037927936int);
    assert(two_to(57) == 144115188075855872int);
    assert(two_to(58) == 288230376151711744int);
    assert(two_to(59) == 576460752303423488int);
    assert(two_to(60) == 1152921504606846976int);
}

#[verifier::rlimit(100)]
proof fn lemma_quad_chain(z0: int)
    ensures
        1152921504606846976int <= quad(z0, 0) <= 1152921504606846976int,
        2305843000623759350int <= quad(z0, 1) <= 2305843017803628554int,
        2882303738631697161int <= quad(z0, 2) <= 2882303784402537719int,
        3062447708714299039int <= quad(z0, 3) <= 3062447784509575521int,
        3110298440163079303int <= quad(z0, 4) <= 3110298545142418297int,
        3122448029336135513int <= quad(z0, 5) <= 3122448162943211687int,
        3125497280853423776int <= quad(z0, 6) <= 3125497442863696224int,
        3126260327569745961int <= quad(z0, 7) <= 3126260517906094039int,
        3126451125212329786int <= quad(z0, 8) <= 3126451343850270214int,
        3126498816925144350int <= quad(z0, 9) <= 3126499063857259461int,
        3126510729426105036int <= quad(z0, 10) <= 3126511004650216555int,
        3126513696953533432int <= quad(z0, 11) <= 3126514000469015878int,
        3126514428226925591int <= quad(z0, 12) <= 3126514760033602421int,
        3126514600436144748int <= quad(z0, 13) <= 3126514960533966800int,
        3126514632879279606int <= quad(z0, 14) <= 3126515021268233380int,
        3126514630380890921int <= quad(z0, 15) <= 3126515047060972771int,
        3126514619147121198int <= quad(z0, 16) <= 3126515064118330193int,
        3126514605729506199int <= quad(z0, 17) <= 3126515078991842118int,
        3126514591765929851int <= quad(z0, 18) <= 3126515093319392698int,
        3126514577665863144int <= quad(z0, 19) <= 3126515107510452963int,
        3126514563531673823int <= quad(z0, 20) <= 3126515121667390673int,
        3126514549388953825int <= quad(z0, 21) <= 3126515135815797768int,
        3126514535244101134int <= quad(z0, 22) <= 3126515149962072234int,
        3126514521098715245int <= quad(z0, 23) <= 3126515164107813566int,
        3126514506953196033int <= quad(z0, 24) <= 3126515178253421639int,
        3126514492807643466int <= quad(z0, 25) <= 3126515192398996421int,
        3126514478662082536int <= quad(z0, 26) <= 3126515206544562904int,
        3126514464516519492int <= quad(z0, 27) <= 3126515220690127337int,
        3126514450370955895int <= quad(z0, 28) <= 3126515234835691281int,
        3126514436225392136int <= quad(z0, 29) <= 3126515248981255127int,
        3126514422079828312int <= quad(z0, 30) <= 3126515263126818972int,
        3126514407934264448int <= quad(z0, 31) <= 3126515277272382841int,
{
    lemma_shift_values();
    lemma_one_squared();
    assert(quad(z0, 0) == 0x1000_0000_0000_0000int);
    lemma_quad_bounds_step(z0, 0, 1073741824, 1152921504606846976, 1152921504606846976, 1073741825, 2305843000623759350, 2305843017803628554);
    lemma_quad_bounds_step(z0, 1, 536870912, 2305843000623759350, 2305843017803628554, 1518500253, 2882303738631697161, 2882303784402537719);
    lemma_quad_bounds_step(z0, 2, 268435456, 2882303738631697161, 2882303784402537719, 1697734899, 3062447708714299039, 3062447784509575521);
    lemma_quad_bounds_step(z0, 3, 134217728, 3062447708714299039, 3062447784509575521, 1749985082, 3110298440163079303, 3110298545142418297);
    lemma_quad_bounds_step(z0, 4, 67108864, 3110298440163079303, 3110298545142418297, 1763603852, 3122448029336135513, 3122448162943211687);
    lemma_quad_bounds_step(z0, 5, 33554432, 3122448029336135513, 3122448162943211687, 1767045038, 3125497280853423776, 3125497442863696224);
    lemma_quad_bounds_step(z0, 6, 16777216, 3125497280853423776, 3125497442863696224, 1767907646, 3126260327569745961, 3126260517906094039);
    lemma_quad_bounds_step(z0, 7, 8388608, 3126260327569745961, 3126260517906094039, 1768123446, 3126451125212329786, 3126451343850270214);
    lemma_quad_bounds_step(z0, 8, 4194304, 3126451125212329786, 3126451343850270214, 1768177408, 3126498816925144350, 3126499063857259461);
    lemma_quad_bounds_step(z0, 9, 2097152, 3126498816925144350, 3126499063857259461, 1768190902, 3126510729426105036, 3126511004650216555);
    lemma_quad_bounds_step(z0, 10, 1048576, 3126510729426105036, 3126511004650216555, 1768194278, 3126513696953533432, 3126514000469015878);
    lemma_quad_bounds_step(z0, 11, 524288, 3126513696953533432, 3126514000469015878, 1768195126, 3126514428226925591, 3126514760033602421);
    lemma_quad_bounds_step(z0, 12, 262144, 3126514428226925591, 3126514760033602421, 1768195340, 3126514600436144748, 3126514960533966800);
    lemma_quad_bounds_step(z0, 13, 131072, 3126514600436144748, 3126514960533966800, 1768195397, 3126514632879279606, 3126515021268233380);
    lemma_quad_bounds_step(z0, 14, 65536, 3126514632879279606, 3126515021268233380, 1768195414, 3126514630380890921, 3126515047060972771);
    lemma_quad_bounds_step(z0, 15, 32768, 3126514630380890921, 3126515047060972771, 1768195422, 3126514619147121198, 3126515064118330193);
    lemma_quad_bounds_step(z0, 16, 16384, 3126514619147121198, 3126515064118330193, 1768195426, 3126514605729506199, 3126515078991842118);
    lemma_quad_bounds_step(z0, 17, 8192, 3126514605729506199, 3126515078991842118, 1768195431, 3126514591765929851, 3126515093319392698);
    lemma_quad_bounds_step(z0, 18, 4096, 3126514591765929851, 3126515093319392698, 1768195435, 3126514577665863144, 3126515107510452963);
    lemma_quad_bounds_step(z0, 19, 2048, 3126514577665863144, 3126515107510452963, 1768195439, 3126514563531673823, 3126515121667390673);
    lemma_quad_bounds_step(z0, 20, 1024, 3126514563531673823, 3126515121667390673, 1768195443, 3126514549388953825, 3126515135815797768);
    lemma_quad_bounds_step(z0, 21, 512, 3126514549388953825, 3126515135815797768, 1768195447, 3126514535244101134, 3126515149962072234);
    lemma_quad_bounds_step(z0, 22, 256, 3126514535244101134, 3126515149962072234, 1768195451, 3126514521098715245, 3126515164107813566);
    lemma_quad_bounds_step(z0, 23, 128, 3126514521098715245, 3126515164107813566, 1768195455, 3126514506953196033, 3126515178253421639);
    lemma_quad_bounds_step(z0, 24, 64, 3126514506953196033, 3126515178253421639, 1768195459, 3126514492807643466, 3126515192398996421);
    lemma_quad_bounds_step(z0, 25, 32, 3126514492807643466, 3126515192398996421, 1768195463, 3126514478662082536, 3126515206544562904);
    lemma_quad_bounds_step(z0, 26, 16, 3126514478662082536, 3126515206544562904, 1768195467, 3126514464516519492, 3126515220690127337);
    lemma_quad_bounds_step(z0, 27, 8, 3126514464516519492, 3126515220690127337, 1768195471, 3126514450370955895, 3126515234835691281);
    lemma_quad_bounds_step(z0, 28, 4, 3126514450370955895, 3126515234835691281, 1768195475, 3126514436225392136, 3126515248981255127);
    lemma_quad_bounds_step(z0, 29, 2, 3126514436225392136, 3126515248981255127, 1768195479, 3126514422079828312, 3126515263126818972);
    lemma_quad_bounds_step(z0, 30, 1, 3126514422079828312, 3126515263126818972, 1768195483, 3126514407934264448, 3126515277272382841);
}

#[verifier::rlimit(100)]
proof fn lemma_magnitude_within_turns(z: int, n: nat)
    requires
        1 <= n <= 31,
    ensures
        abs(two_to((2 * (n - 1)) as nat) * scaled_sq(z, n) - one() * one() * (two_to(
            (2 * (n - 1)) as nat,
        ) + 1)) <= 160 * one() * two_to((2 * (n - 1)) as nat),
{
    lemma_quad_chain(z);
    lemma_two_to_values();
    lemma_one_squared();
    if n == 1 {
        assert(gain_at(1) == 1073741824);
        lemma_final_bounds(z, 1, 1073741824, 2305843000623759350, 2305843017803628554, 1518500253, 2305842994549758336, 2305843023877629568);
        assert(two_to(0) == 1int);
    } else if n == 2 {
        assert(gain_at(2) == 759250125);
        lemma_final_bounds(z, 2, 759250125, 2882303738631697161, 2882303784402537719, 1697734899, 1441151864536659481, 1441151897025918644);
        assert(two_to(2) == 4int);
    } else if n == 3 {
        assert(gain_at(3) == 679093957);
        lemma_final_bounds(z, 3, 679093957, 3062447708714299039, 3062447784509575521, 1749985082, 1224979080628887981, 1224979119801300592);
        assert(two_to(4) == 16int);
    } else if n == 4 {
        assert(gain_at(4) == 658817909);
        lemma_final_bounds(z, 4, 658817909, 3110298440163079303, 3110298545142418297, 1763603852, 1170935879541507277, 1170935927719924220);
        assert(two_to(6) == 64int);
    } else if n == 5 {
        assert(gain_at(5) == 653730436);
        lemma_final_bounds(z, 5, 653730436, 3122448029336135513, 3122448162943211687, 1767045038, 1157425076089342831, 1157425134221340152);
        assert(two_to(8) == 256int);
    } else if n == 6 {
        assert(gain_at(6) == 652457347);
        lemma_final_bounds(z, 6, 652457347, 3125497280853423776, 3125497442863696224, 1767907646, 1154047370225509011, 1154047438639727300);
        assert(two_to(10) == 1024int);
    } else if n == 7 {
        assert(gain_at(7) == 652138997);
        lemma_final_bounds(z, 7, 652138997, 3126260327569745961, 3126260517906094039, 1768123446, 1153202938481143125, 1153203017282669862);
        assert(two_to(12) == 4096int);
    } else if n == 8 {
        assert(gain_at(8) == 652059405);
        lemma_final_bounds(z, 8, 652059405, 3126451125212329786, 3126451343850270214, 1768177408, 1152991827879811272, 1152991917100649554);
        assert(two_to(14) == 16384int);
    } else if n == 9 {
        assert(gain_at(9) == 652039507);
        lemma_final_bounds(z, 9, 652039507, 3126498816925144350, 3126499063857259461, 1768190902, 1152939047390934273, 1152939147040517614);
        assert(two_to(16) == 65536int);
    } else if n == 10 {
        assert(gain_at(10) == 652034532);
        lemma_final_bounds(z, 10, 652034532, 3126510729426105036, 3126511004650216555, 1768194278, 1152925846655477728, 1152925956736522460);
        assert(two_to(18) == 262144int);
    } else if n == 11 {
        assert(gain_at(11) == 652033289);
        lemma_final_bounds(z, 11, 652033289, 3126513696953533432, 3126514000469015878, 1768195126, 1152922545215920806, 1152922665729195981);
        assert(two_to(20) == 1048576int);
    } else if n == 12 {
        assert(gain_at(12) == 652032978);
        lemma_final_bounds(z, 12, 652032978, 3126514428226925591, 3126514760033602421, 1768195340, 1152921715060001697, 1152921846005721643);
        assert(two_to(22) == 4194304int);
    } else if n == 13 {
        assert(gain_at(13) == 652032900);
        lemma_final_bounds(z, 13, 652032900, 3126514600436144748, 3126514960533966800, 1768195397, 1152921502724744249, 1152921644102968144);
        assert(two_to(24) == 16777216int);
    } else if n == 14 {
        assert(gain_at(14) == 652032881);
        lemma_final_bounds(z, 14, 652032881, 3126514632879279606, 3126515021268233380, 1768195414, 1152921447496929056, 1152921599307673430);
        assert(two_to(26) == 67108864int);
    } else if n == 15 {
        assert(gain_at(15) == 652032876);
        lemma_final_bounds(z, 15, 652032876, 3126514630380890921, 3126515047060972771, 1768195422, 1152921428893680362, 1152921591136949394);
        assert(two_to(28) == 268435456int);
    } else if n == 16 {
        assert(gain_at(16) == 652032874);
        lemma_final_bounds(z, 16, 652032874, 3126514619147121198, 3126515064118330193, 1768195426, 1152921417678377967, 1152921590354172525);
        assert(two_to(30) == 1073741824int);
    } else if n == 17 {
        assert(gain_at(17) == 652032874);
        lemma_final_bounds(z, 17, 652032874, 3126514605729506199, 3126515078991842118, 1768195431, 1152921412730550215, 1152921595838871189);
        assert(two_to(32) == 4294967296int);
    } else if n == 18 {
        assert(gain_at(18) == 652032874);
        lemma_final_bounds(z, 18, 652032874, 3126514591765929851, 3126515093319392698, 1768195435, 1152921407581395872, 1152921601122243261);
        assert(two_to(34) == 17179869184int);
    } else if n == 19 {
        assert(gain_at(19) == 652032874);
        lemma_final_bounds(z, 19, 652032874, 3126514577665863144, 3126515107510452963, 1768195439, 1152921402381909873, 1152921606355283692);
        assert(two_to(36) == 68719476736int);
    } else if n == 20 {
        assert(gain_at(20) == 652032874);
        lemma_final_bounds(z, 20, 652032874, 3126514563531673823, 3126515121667390673, 1768195443, 1152921397169840951, 1152921611575741221);
        assert(two_to(38) == 274877906944int);
    } else if n == 21 {
        assert(gain_at(21) == 652032874);
        lemma_final_bounds(z, 21, 652032874, 3126514549388953825, 3126515135815797768, 1768195447, 1152921391954626289, 1152921616793053035);
        assert(two_to(40) == 1099511627776int);
    } else if n == 22 {
        assert(gain_at(22) == 652032874);
        lemma_final_bounds(z, 22, 652032874, 3126514535244101134, 3126515149962072234, 1768195451, 1152921386738625184, 1152921622009578428);
        assert(two_to(42) == 4398046511104int);
    } else if n == 23 {
        assert(gain_at(23) == 652032874);
        lemma_final_bounds(z, 23, 652032874, 3126514521098715245, 3126515164107813566, 1768195455, 1152921381522427459, 1152921627225907225);
        assert(two_to(44) == 17592186044416int);
    } else if n == 24 {
        assert(gain_at(24) == 652032874);
        lemma_final_bounds(z, 24, 652032874, 3126514506953196033, 3126515178253421639, 1768195459, 1152921376306180570, 1152921632442186882);
        assert(two_to(46) == 70368744177664int);
    } else if n == 25 {
        assert(gain_at(25) == 652032874);
        lemma_final_bounds(z, 25, 652032874, 3126514492807643466, 3126515192398996421, 1768195463, 1152921371089921382, 1152921637658454262);
        assert(two_to(48) == 281474976710656int);
    } else if n == 26 {
        assert(gain_at(26) == 652032874);
        lemma_final_bounds(z, 26, 652032874, 3126514478662082536, 3126515206544562904, 1768195467, 1152921365873659109, 1152921642874718583);
        assert(two_to(50) == 1125899906842624int);
    } else if n == 27 {
        assert(gain_at(27) == 652032874);
        lemma_final_bounds(z, 27, 652032874, 3126514464516519492, 3126515220690127337, 1768195471, 1152921360657396057, 1152921648090982147);
        assert(two_to(52) == 4503599627370496int);
    } else if n == 28 {
        assert(gain_at(28) == 652032874);
        lemma_final_bounds(z, 28, 652032874, 3126514450370955895, 3126515234835691281, 1768195475, 1152921355441132801, 1152921653307245531);
        assert(two_to(54) == 18014398509481984int);
    } else if n == 29 {
        assert(gain_at(29) == 652032874);
        lemma_final_bounds(z, 29, 652032874, 3126514436225392136, 3126515248981255127, 1768195479, 1152921350224869485, 1152921658523508879);
        assert(two_to(56) == 72057594037927936int);
    } else if n == 30 {
        assert(gain_at(30) == 652032874);
        lemma_final_bounds(z, 30, 652032874, 3126514422079828312, 3126515263126818972, 1768195483, 1152921345008606145, 1152921663739772226);
        assert(two_to(58) == 288230376151711744int);
    } else if n == 31 {
        assert(gain_at(31) == 652032874);
        lemma_final_bounds(z, 31, 652032874, 3126514407934264448, 3126515277272382841, 1768195487, 1152921339792342791, 1152921668956035582);
        assert(two_to(60) == 1152921504606846976int);
    }
}

proof fn lemma_magnitude_settled(z: int, n: nat)
    requires
        n >= 32,
    ensures
        abs(two_to((2 * (n - 1)) as nat) * scaled_sq(z, n) - one() * one() * (two_to(
            (2 * (n - 1)) as nat,
        ) + 1)) <= 160 * one() * two_to((2 * (n - 1)) as nat),
{
    lemma_quad_chain(z);
    lemma_two_to_values();
    lemma_rotation_settles(z, n);
    assert(gain_at(n) == gain_at(31));
    assert(scaled_sq(z, n) == scaled_sq(z, 31));
    assert(gain_at(31) == 652032874);
    lemma_final_bounds(z, 31, 652032874, 3126514407934264448, 3126515277272382841, 1768195487, 1152921339792342791, 1152921668956035582);
    let m = (2 * (n - 1)) as nat;
    lemma_two_to_monotone(60, m);
    let big = two_to(m);
    let v = scaled_sq(z, n);
    assert(abs(big * v - one() * one() * (big + 1)) <= 160 * one() * big) by (nonlinear_arith)
        requires
            big >= 0x1000_0000_0000_0000,
            1152921339792342791 <= v <= 1152921668956035582,
            one() == 0x4000_0000,
    ;
}

/// The magnitude stays near unity: `cos^2 + sin^2` of the result is within
/// `160 * 2^-30` of `1 + 4^(1 - n)`, the value that `n` rotation steps and a
/// gain of `n - 1` factors give in exact arithmetic. Written over integers:
/// with `T = 4^(n - 1)`, `|T * m - 2^60 * (T + 1)| <= 160 * 2^30 * T`, where
/// `m` is `cos^2 + sin^2` in raw units.
pub proof fn lemma_magnitude_near_unity(theta: int, n: nat)
    requires
        n >= 1,
    ensures
        abs(two_to((2 * (n - 1)) as nat) * magnitude_sq(theta, n) - one() * one() * (two_to(
            (2 * (n - 1)) as nat,
        ) + 1)) <= 160 * one() * two_to((2 * (n - 1)) as nat),
{
    let z = reduced(theta).0;
    let p = cordic_pair(theta, n);
    let c = mul_raw(rotation(z, n).0, gain_at(n));
    let t = mul_raw(rotation(z, n).1, gain_at(n));
    assert(p.0 * p.0 + p.1 * p.1 == c * c + t * t) by (nonlinear_arith)
        requires
            (p.0 == c && p.1 == t) || (p.0 == -c && p.1 == -t),
    ;
    assert(magnitude_sq(theta, n) == scaled_sq(z, n));
    if n >= 32 {
        lemma_magnitude_settled(z, n);
    } else {
        lemma_magnitude_within_turns(z, n);
    }
}

} // verus!
