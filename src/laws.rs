//! Laws of the CORDIC engine: the shape of the angle table and the gain
//! factor, invariance under a turn of 2 pi, the point past which more
//! iterations change nothing, and the result at angle zero.
use vstd::prelude::*;
use crate::engine::{
    angle_at, cordic_pair, gain_at, lemma_angle_range, lemma_mul_raw_is, lemma_mul_raw_shrinks,
    lemma_shift_size,
    gain_stored, normalized, reduced, rotation, shift_size, two_to, GAIN_TABLE_LEN, TWO_PI_RAW,
};
use crate::fixed::{abs, mul_raw, one};

verus! {

/// The gain factor lies strictly between 0 and 1 once at least two
/// iterations are run (with one iteration the product is empty and K is 1).
pub proof fn lemma_gain_in_unit_interval(n: nat)
    requires
        n >= 2,
    ensures
        0 < gain_at(n) < one(),
{
}

/// The gain factor never grows as the iteration count grows.
pub proof fn lemma_gain_non_increasing(m: nat, n: nat)
    requires
        m <= n,
    ensures
        gain_at(n) <= gain_at(m),
    decreases n - m,
{
    if m < n {
        lemma_gain_non_increasing(m, (n - 1) as nat);
        assert(gain_at(n) <= gain_at((n - 1) as nat));
    }
}

/// Each nonzero entry of the angle table is larger than the next one, and
/// no entry is negative.
pub proof fn lemma_angle_table_decreasing(i: nat)
    requires
        angle_at(i) > 0,
    ensures
        angle_at(i) > angle_at(i + 1) >= 0,
{
    lemma_angle_range(i + 1);
}

/// The angle table reaches zero: from entry 31 on every entry is 0.
pub proof fn lemma_angle_table_vanishes(i: nat)
    requires
        i >= 31,
    ensures
        angle_at(i) == 0,
    decreases i,
{
    if i == 31 {
        reveal_with_fuel(angle_at, 10);
        assert(angle_at(31) == 0);
    } else {
        lemma_angle_table_vanishes((i - 1) as nat);
    }
}

/// Adding 2 pi to the angle does not change the result: both angles reduce
/// to the same angle in `[-pi/2, pi/2]`, with the same half turn.
pub proof fn lemma_cordic_periodic(theta: int, n: nat)
    ensures
        cordic_pair(theta, n) == cordic_pair(theta + TWO_PI_RAW, n),
{
    let t = TWO_PI_RAW as int;
    if theta >= 0 {
        vstd::arithmetic::div_mod::lemma_mod_add_multiples_vanish(theta, t);
    } else if theta + t <= 0 {
        vstd::arithmetic::div_mod::lemma_mod_add_multiples_vanish(-(theta + t), t);
    } else {
        vstd::arithmetic::div_mod::lemma_small_mod((-theta) as nat, t as nat);
        vstd::arithmetic::div_mod::lemma_small_mod((theta + t) as nat, t as nat);
        assert(normalized(theta) == theta);
        assert(normalized(theta + t) == theta + t);
    }
    assert(reduced(theta) == reduced(theta + t));
}


pub(crate) proof fn lemma_rotation_settles(z0: int, n: nat)
    requires
        n >= 31,
    ensures
        rotation(z0, n).0 == rotation(z0, 31).0,
        rotation(z0, n).1 == rotation(z0, 31).1,
    decreases n,
{
    if n > 31 {
        let m = (n - 1) as nat;
        lemma_rotation_settles(z0, m);
        lemma_shift_size(m);
        let s = rotation(z0, m);
        lemma_mul_raw_shrinks(0, s.0);
        lemma_mul_raw_shrinks(0, s.1);
    }
}


/// From 31 iterations on the step size is below the last fractional bit, so
/// further iterations leave the result unchanged.
pub proof fn lemma_results_settle(theta: int, n: nat)
    requires
        n >= 31,
    ensures
        cordic_pair(theta, n) == cordic_pair(theta, 31),
{
    lemma_rotation_settles(reduced(theta).0, n);
}

/// The states of the rotation that starts at angle zero, step by step, and
/// the step sizes they use.
proof fn lemma_zero_angle_rotations()
    ensures
        rotation(0, 0) == (1073741824int, 0int, 0int),
        rotation(0, 1) == (1073741824int, 1073741824int, -843314857int),
        rotation(0, 2) == (1610612736int, 536870912int, -345477028int),
        rotation(0, 3) == (1744830464int, 134217728int, -82433191int),
        rotation(0, 4) == (1761607680int, -83886080int, 51091968int),
        rotation(0, 5) == (1766850560int, 26214400int, -15929719int),
        rotation(0, 6) == (1767669760int, -28999680int, 17613797int),
        rotation(0, 7) == (1768122880int, -1379840int, 837946int),
        rotation(0, 8) == (1768133660int, 12433620int, -7550491int),
        rotation(0, 9) == (1768182228int, 5526848int, -3356208int),
        rotation(0, 10) == (1768193022int, 2073368int, -1259059int),
        rotation(0, 11) == (1768195046int, 346618int, -210483int),
        rotation(0, 12) == (1768195215int, -516758int, 313805int),
        rotation(0, 13) == (1768195341int, -85070int, 51661int),
        rotation(0, 14) == (1768195351int, 130774int, -79411int),
        rotation(0, 15) == (1768195358int, 22852int, -13875int),
        rotation(0, 16) == (1768195358int, -31109int, 18893int),
        rotation(0, 17) == (1768195358int, -4129int, 2509int),
        rotation(0, 18) == (1768195358int, 9361int, -5683int),
        rotation(0, 19) == (1768195358int, 2616int, -1587int),
        rotation(0, 20) == (1768195358int, -756int, 461int),
        rotation(0, 21) == (1768195358int, 930int, -563int),
        rotation(0, 22) == (1768195358int, 87int, -51int),
        rotation(0, 23) == (1768195358int, -334int, 205int),
        rotation(0, 24) == (1768195358int, -124int, 77int),
        rotation(0, 25) == (1768195358int, -19int, 13int),
        rotation(0, 26) == (1768195358int, 33int, -19int),
        rotation(0, 27) == (1768195358int, 7int, -3int),
        rotation(0, 28) == (1768195358int, -6int, 5int),
        rotation(0, 29) == (1768195358int, 0int, 1int),
        rotation(0, 30) == (1768195358int, 3int, -1int),
        rotation(0, 31) == (1768195358int, 2int, 0int),
        shift_size(0) == 1073741824,
        shift_size(1) == 536870912,
        shift_size(2) == 268435456,
        shift_size(3) == 134217728,
        shift_size(4) == 67108864,
        shift_size(5) == 33554432,
        shift_size(6) == 16777216,
        shift_size(7) == 8388608,
        shift_size(8) == 4194304,
        shift_size(9) == 2097152,
        shift_size(10) == 1048576,
        shift_size(11) == 524288,
        shift_size(12) == 262144,
        shift_size(13) == 131072,
        shift_size(14) == 65536,
        shift_size(15) == 32768,
        shift_size(16) == 16384,
        shift_size(17) == 8192,
        shift_size(18) == 4096,
        shift_size(19) == 2048,
        shift_size(20) == 1024,
        shift_size(21) == 512,
        shift_size(22) == 256,
        shift_size(23) == 128,
        shift_size(24) == 64,
        shift_size(25) == 32,
        shift_size(26) == 16,
        shift_size(27) == 8,
        shift_size(28) == 4,
        shift_size(29) == 2,
        shift_size(30) == 1,
{
    assert(shift_size(0) == one());
    assert(rotation(0, 0) == (1073741824int, 0int, 0int));
    lemma_mul_raw_is(1073741824, 0, 0);
    lemma_mul_raw_is(1073741824, 1073741824, 1073741824);
    assert(rotation(0, 1) == (1073741824int, 1073741824int, -843314857int));
    assert(shift_size(1) == 536870912);
    lemma_mul_raw_is(-536870912, 1073741824, -536870912);
    lemma_mul_raw_is(-536870912, 1073741824, -536870912);
    assert(rotation(0, 2) == (1610612736int, 536870912int, -345477028int));
    assert(shift_size(2) == 268435456);
    lemma_mul_raw_is(-268435456, 536870912, -134217728);
    lemma_mul_raw_is(-268435456, 1610612736, -402653184);
    assert(rotation(0, 3) == (1744830464int, 134217728int, -82433191int));
    assert(shift_size(3) == 134217728);
    lemma_mul_raw_is(-134217728, 134217728, -16777216);
    lemma_mul_raw_is(-134217728, 1744830464, -218103808);
    assert(rotation(0, 4) == (1761607680int, -83886080int, 51091968int));
    assert(shift_size(4) == 67108864);
    lemma_mul_raw_is(67108864, -83886080, -5242880);
    lemma_mul_raw_is(67108864, 1761607680, 110100480);
    assert(rotation(0, 5) == (1766850560int, 26214400int, -15929719int));
    assert(shift_size(5) == 33554432);
    lemma_mul_raw_is(-33554432, 26214400, -819200);
    lemma_mul_raw_is(-33554432, 1766850560, -55214080);
    assert(rotation(0, 6) == (1767669760int, -28999680int, 17613797int));
    assert(shift_size(6) == 16777216);
    lemma_mul_raw_is(16777216, -28999680, -453120);
    lemma_mul_raw_is(16777216, 1767669760, 27619840);
    assert(rotation(0, 7) == (1768122880int, -1379840int, 837946int));
    assert(shift_size(7) == 8388608);
    lemma_mul_raw_is(8388608, -1379840, -10780);
    lemma_mul_raw_is(8388608, 1768122880, 13813460);
    assert(rotation(0, 8) == (1768133660int, 12433620int, -7550491int));
    assert(shift_size(8) == 4194304);
    lemma_mul_raw_is(-4194304, 12433620, -48568);
    lemma_mul_raw_is(-4194304, 1768133660, -6906772);
    assert(rotation(0, 9) == (1768182228int, 5526848int, -3356208int));
    assert(shift_size(9) == 2097152);
    lemma_mul_raw_is(-2097152, 5526848, -10794);
    lemma_mul_raw_is(-2097152, 1768182228, -3453480);
    assert(rotation(0, 10) == (1768193022int, 2073368int, -1259059int));
    assert(shift_size(10) == 1048576);
    lemma_mul_raw_is(-1048576, 2073368, -2024);
    lemma_mul_raw_is(-1048576, 1768193022, -1726750);
    assert(rotation(0, 11) == (1768195046int, 346618int, -210483int));
    assert(shift_size(11) == 524288);
    lemma_mul_raw_is(-524288, 346618, -169);
    lemma_mul_raw_is(-524288, 1768195046, -863376);
    assert(rotation(0, 12) == (1768195215int, -516758int, 313805int));
    assert(shift_size(12) == 262144);
    lemma_mul_raw_is(262144, -516758, -126);
    lemma_mul_raw_is(262144, 1768195215, 431688);
    assert(rotation(0, 13) == (1768195341int, -85070int, 51661int));
    assert(shift_size(13) == 131072);
    lemma_mul_raw_is(131072, -85070, -10);
    lemma_mul_raw_is(131072, 1768195341, 215844);
    assert(rotation(0, 14) == (1768195351int, 130774int, -79411int));
    assert(shift_size(14) == 65536);
    lemma_mul_raw_is(-65536, 130774, -7);
    lemma_mul_raw_is(-65536, 1768195351, -107922);
    assert(rotation(0, 15) == (1768195358int, 22852int, -13875int));
    assert(shift_size(15) == 32768);
    lemma_mul_raw_is(-32768, 22852, 0);
    lemma_mul_raw_is(-32768, 1768195358, -53961);
    assert(rotation(0, 16) == (1768195358int, -31109int, 18893int));
    assert(shift_size(16) == 16384);
    lemma_mul_raw_is(16384, -31109, 0);
    lemma_mul_raw_is(16384, 1768195358, 26980);
    assert(rotation(0, 17) == (1768195358int, -4129int, 2509int));
    assert(shift_size(17) == 8192);
    lemma_mul_raw_is(8192, -4129, 0);
    lemma_mul_raw_is(8192, 1768195358, 13490);
    assert(rotation(0, 18) == (1768195358int, 9361int, -5683int));
    assert(shift_size(18) == 4096);
    lemma_mul_raw_is(-4096, 9361, 0);
    lemma_mul_raw_is(-4096, 1768195358, -6745);
    assert(rotation(0, 19) == (1768195358int, 2616int, -1587int));
    assert(shift_size(19) == 2048);
    lemma_mul_raw_is(-2048, 2616, 0);
    lemma_mul_raw_is(-2048, 1768195358, -3372);
    assert(rotation(0, 20) == (1768195358int, -756int, 461int));
    assert(shift_size(20) == 1024);
    lemma_mul_raw_is(1024, -756, 0);
    lemma_mul_raw_is(1024, 1768195358, 1686);
    assert(rotation(0, 21) == (1768195358int, 930int, -563int));
    assert(shift_size(21) == 512);
    lemma_mul_raw_is(-512, 930, 0);
    lemma_mul_raw_is(-512, 1768195358, -843);
    assert(rotation(0, 22) == (1768195358int, 87int, -51int));
    assert(shift_size(22) == 256);
    lemma_mul_raw_is(-256, 87, 0);
    lemma_mul_raw_is(-256, 1768195358, -421);
    assert(rotation(0, 23) == (1768195358int, -334int, 205int));
    assert(shift_size(23) == 128);
    lemma_mul_raw_is(128, -334, 0);
    lemma_mul_raw_is(128, 1768195358, 210);
    assert(rotation(0, 24) == (1768195358int, -124int, 77int));
    assert(shift_size(24) == 64);
    assert(angle_at(23) == 128);
    assert(angle_at(24) == 64);
    lemma_mul_raw_is(64, -124, 0);
    lemma_mul_raw_is(64, 1768195358, 105);
    assert(rotation(0, 25) == (1768195358int, -19int, 13int));
    assert(shift_size(25) == 32);
    assert(angle_at(25) == 32);
    lemma_mul_raw_is(32, -19, 0);
    lemma_mul_raw_is(32, 1768195358, 52);
    assert(rotation(0, 26) == (1768195358int, 33int, -19int));
    assert(shift_size(26) == 16);
    assert(angle_at(26) == 16);
    lemma_mul_raw_is(-16, 33, 0);
    lemma_mul_raw_is(-16, 1768195358, -26);
    assert(rotation(0, 27) == (1768195358int, 7int, -3int));
    assert(shift_size(27) == 8);
    assert(angle_at(27) == 8);
    lemma_mul_raw_is(-8, 7, 0);
    lemma_mul_raw_is(-8, 1768195358, -13);
    assert(rotation(0, 28) == (1768195358int, -6int, 5int));
    assert(shift_size(28) == 4);
    assert(angle_at(28) == 4);
    lemma_mul_raw_is(4, -6, 0);
    lemma_mul_raw_is(4, 1768195358, 6);
    assert(rotation(0, 29) == (1768195358int, 0int, 1int));
    assert(shift_size(29) == 2);
    assert(angle_at(29) == 2);
    lemma_mul_raw_is(2, 0, 0);
    lemma_mul_raw_is(2, 1768195358, 3);
    assert(rotation(0, 30) == (1768195358int, 3int, -1int));
    assert(shift_size(30) == 1);
    assert(angle_at(30) == 1);
    assert(abs(-1 * 3) == 3);
    lemma_mul_raw_is(-1, 3, 0);
    assert(abs(-1 * 1768195358) == 1768195358);
    lemma_mul_raw_is(-1, 1768195358, -1);
    assert(rotation(0, 31) == (1768195358int, 2int, 0int));
}

/// At angle zero, from 31 iterations on, the result lies within four units
/// of the last fractional bit of `(1, 0)`: it is exactly `(1 - 4 ulp, 1 ulp)`.
pub proof fn lemma_zero_angle(n: nat)
    requires
        n >= 31,
    ensures
        cordic_pair(0, n) == (one() - 4, 1int),
{
    lemma_results_settle(0, n);
    lemma_zero_angle_rotations();
    assert(reduced(0) == (0int, false));
    assert(gain_at(31) == 652032874);
    lemma_mul_raw_is(1768195358, 652032874, 1073741820);
    lemma_mul_raw_is(2, 652032874, 1);
}

/// Tolerance of the zero-angle result after `n` iterations: the size of the
/// last micro-rotation, and never below four units of the last bit.
pub open spec fn zero_angle_tolerance(n: nat) -> int {
    let last = shift_size((n - 1) as nat);
    if last > 4 { last } else { 4 }
}

/// Tolerance of the zero-angle cosine after `n` iterations: `2^-(2n - 1)`,
/// and never below four units of the last bit.
pub open spec fn zero_angle_cos_tolerance(n: nat) -> int {
    let bound = shift_size((2 * n - 1) as nat);
    if bound > 4 { bound } else { 4 }
}

/// At angle zero the result approaches `(1, 0)` as the iteration count grows:
/// the sine is within `zero_angle_tolerance(n)` of 0 and the cosine within
/// the tighter `zero_angle_cos_tolerance(n)` of 1.
pub proof fn lemma_zero_angle_within(n: nat)
    requires
        n >= 1,
    ensures
        abs(cordic_pair(0, n).0 - one()) <= zero_angle_cos_tolerance(n),
        abs(cordic_pair(0, n).0 - one()) <= zero_angle_tolerance(n),
        abs(cordic_pair(0, n).1) <= zero_angle_tolerance(n),
{
    if n >= 16 {
        lemma_shift_size((2 * n - 1) as nat);
    }
    lemma_zero_angle_rotations();
    assert(reduced(0) == (0int, false));
    if n >= 31 {
        lemma_zero_angle(n);
        lemma_shift_size((n - 1) as nat);
    }
    if n == 1 {
        assert(gain_at(1) == 1073741824);
        lemma_mul_raw_is(1073741824, 1073741824, 1073741824);
        lemma_mul_raw_is(1073741824, 1073741824, 1073741824);
    } else if n == 2 {
        assert(gain_at(2) == 759250125);
        lemma_mul_raw_is(1610612736, 759250125, 1138875187);
        lemma_mul_raw_is(536870912, 759250125, 379625062);
    } else if n == 3 {
        assert(gain_at(3) == 679093957);
        lemma_mul_raw_is(1744830464, 679093957, 1103527680);
        lemma_mul_raw_is(134217728, 679093957, 84886744);
    } else if n == 4 {
        assert(gain_at(4) == 658817909);
        lemma_mul_raw_is(1761607680, 658817909, 1080873131);
        lemma_mul_raw_is(-83886080, 658817909, -51470149);
    } else if n == 5 {
        assert(gain_at(5) == 653730436);
        lemma_mul_raw_is(1766850560, 653730436, 1075718539);
        lemma_mul_raw_is(26214400, 653730436, 15960215);
    } else if n == 6 {
        assert(gain_at(6) == 652457347);
        lemma_mul_raw_is(1767669760, 652457347, 1074121447);
        lemma_mul_raw_is(-28999680, 652457347, -17621604);
    } else if n == 7 {
        assert(gain_at(7) == 652138997);
        lemma_mul_raw_is(1768122880, 652138997, 1073872560);
        lemma_mul_raw_is(-1379840, 652138997, -838048);
    } else if n == 8 {
        assert(gain_at(8) == 652059405);
        lemma_mul_raw_is(1768133660, 652059405, 1073748043);
        lemma_mul_raw_is(12433620, 652059405, 7550659);
    } else if n == 9 {
        assert(gain_at(9) == 652039507);
        lemma_mul_raw_is(1768182228, 652039507, 1073744770);
        lemma_mul_raw_is(5526848, 652039507, 3356228);
    } else if n == 10 {
        assert(gain_at(10) == 652034532);
        lemma_mul_raw_is(1768193022, 652034532, 1073743132);
        lemma_mul_raw_is(2073368, 652034532, 1259062);
    } else if n == 11 {
        assert(gain_at(11) == 652033289);
        lemma_mul_raw_is(1768195046, 652033289, 1073742314);
        lemma_mul_raw_is(346618, 652033289, 210484);
    } else if n == 12 {
        assert(gain_at(12) == 652032978);
        lemma_mul_raw_is(1768195215, 652032978, 1073741905);
        lemma_mul_raw_is(-516758, 652032978, -313802);
    } else if n == 13 {
        assert(gain_at(13) == 652032900);
        lemma_mul_raw_is(1768195341, 652032900, 1073741853);
        lemma_mul_raw_is(-85070, 652032900, -51659);
    } else if n == 14 {
        assert(gain_at(14) == 652032881);
        lemma_mul_raw_is(1768195351, 652032881, 1073741827);
        lemma_mul_raw_is(130774, 652032881, 79412);
    } else if n == 15 {
        assert(gain_at(15) == 652032876);
        lemma_mul_raw_is(1768195358, 652032876, 1073741823);
        lemma_mul_raw_is(22852, 652032876, 13876);
    } else if n == 16 {
        assert(gain_at(16) == 652032874);
        lemma_mul_raw_is(1768195358, 652032874, 1073741820);
        lemma_mul_raw_is(-31109, 652032874, -18891);
    } else if n == 17 {
        assert(gain_at(17) == 652032874);
        lemma_mul_raw_is(1768195358, 652032874, 1073741820);
        lemma_mul_raw_is(-4129, 652032874, -2507);
    } else if n == 18 {
        assert(gain_at(18) == 652032874);
        lemma_mul_raw_is(1768195358, 652032874, 1073741820);
        lemma_mul_raw_is(9361, 652032874, 5684);
    } else if n == 19 {
        assert(gain_at(19) == 652032874);
        lemma_mul_raw_is(1768195358, 652032874, 1073741820);
        lemma_mul_raw_is(2616, 652032874, 1588);
    } else if n == 20 {
        assert(gain_at(20) == 652032874);
        lemma_mul_raw_is(1768195358, 652032874, 1073741820);
        lemma_mul_raw_is(-756, 652032874, -459);
    } else if n == 21 {
        assert(gain_at(21) == 652032874);
        lemma_mul_raw_is(1768195358, 652032874, 1073741820);
        lemma_mul_raw_is(930, 652032874, 564);
    } else if n == 22 {
        assert(gain_at(22) == 652032874);
        lemma_mul_raw_is(1768195358, 652032874, 1073741820);
        lemma_mul_raw_is(87, 652032874, 52);
    } else if n == 23 {
        assert(gain_at(23) == 652032874);
        lemma_mul_raw_is(1768195358, 652032874, 1073741820);
        lemma_mul_raw_is(-334, 652032874, -202);
    } else if n == 24 {
        assert(gain_at(24) == 652032874);
        lemma_mul_raw_is(1768195358, 652032874, 1073741820);
        lemma_mul_raw_is(-124, 652032874, -75);
    } else if n == 25 {
        assert(gain_at(25) == 652032874);
        lemma_mul_raw_is(1768195358, 652032874, 1073741820);
        lemma_mul_raw_is(-19, 652032874, -11);
    } else if n == 26 {
        assert(gain_at(26) == 652032874);
        lemma_mul_raw_is(1768195358, 652032874, 1073741820);
        lemma_mul_raw_is(33, 652032874, 20);
    } else if n == 27 {
        assert(gain_at(27) == 652032874);
        lemma_mul_raw_is(1768195358, 652032874, 1073741820);
        lemma_mul_raw_is(7, 652032874, 4);
    } else if n == 28 {
        assert(gain_at(28) == 652032874);
        lemma_mul_raw_is(1768195358, 652032874, 1073741820);
        lemma_mul_raw_is(-6, 652032874, -3);
    } else if n == 29 {
        assert(gain_at(29) == 652032874);
        lemma_mul_raw_is(1768195358, 652032874, 1073741820);
        lemma_mul_raw_is(0, 652032874, 0);
    } else if n == 30 {
        assert(gain_at(30) == 652032874);
        lemma_mul_raw_is(1768195358, 652032874, 1073741820);
        lemma_mul_raw_is(3, 652032874, 1);
    }
}


/// Sum of the angle table entries from `i` through 30, the last nonzero one,
/// plus one unit of the last bit: how far the steps from `i` on can still turn.
pub open spec fn angle_reach(i: nat) -> int
    decreases 31 - i,
{
    if i >= 31 {
        1
    } else {
        angle_at(i) + angle_reach(i + 1)
    }
}

/// The values of `angle_reach` up to the point where it stays at 1.
proof fn lemma_angle_reach_values()
    ensures
        angle_reach(0) == 1871839757,
        angle_reach(1) == 1028524900,
        angle_reach(2) == 530687071,
        angle_reach(3) == 267643234,
        angle_reach(4) == 134118075,
        angle_reach(5) == 67096388,
        angle_reach(6) == 33552872,
        angle_reach(7) == 16777021,
        angle_reach(8) == 8388584,
        angle_reach(9) == 4194301,
        angle_reach(10) == 2097152,
        angle_reach(11) == 1048576,
        angle_reach(12) == 524288,
        angle_reach(13) == 262144,
        angle_reach(14) == 131072,
        angle_reach(15) == 65536,
        angle_reach(16) == 32768,
        angle_reach(17) == 16384,
        angle_reach(18) == 8192,
        angle_reach(19) == 4096,
        angle_reach(20) == 2048,
        angle_reach(21) == 1024,
        angle_reach(22) == 512,
        angle_reach(23) == 256,
        angle_reach(24) == 128,
        angle_reach(25) == 64,
        angle_reach(26) == 32,
        angle_reach(27) == 16,
        angle_reach(28) == 8,
        angle_reach(29) == 4,
        angle_reach(30) == 2,
        angle_reach(31) == 1,
{
    assert(angle_at(23) == 128);
    assert(angle_at(24) == 64);
    assert(angle_at(25) == 32);
    assert(angle_at(26) == 16);
    assert(angle_at(27) == 8);
    assert(angle_at(28) == 4);
    assert(angle_at(29) == 2);
    assert(angle_at(30) == 1);
    assert(angle_reach(31) == 1);
    assert(angle_reach(30) == 2);
    assert(angle_reach(29) == 4);
    assert(angle_reach(28) == 8);
    assert(angle_reach(27) == 16);
    assert(angle_reach(26) == 32);
    assert(angle_reach(25) == 64);
    assert(angle_reach(24) == 128);
    assert(angle_reach(23) == 256);
    assert(angle_reach(22) == 512);
    assert(angle_reach(21) == 1024);
    assert(angle_reach(20) == 2048);
    assert(angle_reach(19) == 4096);
    assert(angle_reach(18) == 8192);
    assert(angle_reach(17) == 16384);
    assert(angle_reach(16) == 32768);
    assert(angle_reach(15) == 65536);
    assert(angle_reach(14) == 131072);
    assert(angle_reach(13) == 262144);
    assert(angle_reach(12) == 524288);
    assert(angle_reach(11) == 1048576);
    assert(angle_reach(10) == 2097152);
    assert(angle_reach(9) == 4194301);
    assert(angle_reach(8) == 8388584);
    assert(angle_reach(7) == 16777021);
    assert(angle_reach(6) == 33552872);
    assert(angle_reach(5) == 67096388);
    assert(angle_reach(4) == 134118075);
    assert(angle_reach(3) == 267643234);
    assert(angle_reach(2) == 530687071);
    assert(angle_reach(1) == 1028524900);
    assert(angle_reach(0) == 1871839757);
}

proof fn lemma_angle_fits_reach(i: nat)
    requires
        i < 31,
    ensures
        angle_at(i) <= angle_reach(i + 1),
{
    lemma_angle_reach_values();
    reveal_with_fuel(angle_at, 8);
}

/// The rotation converges in angle: for every input, the residual angle
/// after `n` steps, that is the reduced angle minus the signed sum of the
/// turns made, is at most `angle_reach(n)`, which is one unit of the last bit
/// from 31 steps on. The reduced angle lies within pi / 2, inside the reach
/// of the whole table (about 1.7433 rad).
pub proof fn lemma_residual_converges(theta: int, n: nat)
    ensures
        abs(rotation(reduced(theta).0, n).2) <= angle_reach(n),
        n >= 31 ==> angle_reach(n) == 1,
    decreases n,
{
    lemma_angle_reach_values();
    if n > 0 {
        let m = (n - 1) as nat;
        lemma_residual_converges(theta, m);
        lemma_angle_range(m);
        if m < 31 {
            lemma_angle_fits_reach(m);
        } else {
            lemma_angle_table_vanishes(m);
        }
    }
}


/// Product of `4^y + 1` over `y < m`.
pub open spec fn gain_denominator(m: nat) -> int
    decreases m,
{
    if m == 0 {
        1
    } else {
        gain_denominator((m - 1) as nat) * (two_to((2 * (m - 1)) as nat) + 1)
    }
}

/// Product of `4^y` over `y < m`.
pub open spec fn gain_numerator(m: nat) -> int
    decreases m,
{
    if m == 0 {
        1
    } else {
        gain_numerator((m - 1) as nat) * two_to((2 * (m - 1)) as nat)
    }
}

/// The values of the two products over the stored part of the gain table.
proof fn lemma_gain_products()
    ensures
        two_to(0) == 1int,
        two_to(1) == 2int,
        two_to(2) == 4int,
        two_to(3) == 8int,
        two_to(4) == 16int,
        two_to(5) == 32int,
        two_to(6) == 64int,
        two_to(7) == 128int,
        two_to(8) == 256int,
        two_to(9) == 512int,
        two_to(10) == 1024int,
        two_to(11) == 2048int,
        two_to(12) == 4096int,
        two_to(13) == 8192int,
        two_to(14) == 16384int,
        two_to(15) == 32768int,
        two_to(16) == 65536int,
        two_to(17) == 131072int,
        two_to(18) == 262144int,
        two_to(19) == 524288int,
        two_to(20) == 1048576int,
        two_to(21) == 2097152int,
        two_to(22) == 4194304int,
        two_to(23) == 8388608int,
        two_to(24) == 16777216int,
        two_to(25) == 33554432int,
        two_to(26) == 67108864int,
        two_to(27) == 134217728int,
        two_to(28) == 268435456int,
        two_to(29) == 536870912int,
        two_to(30) == 1073741824int,
        gain_denominator(0) == 1int,
        gain_denominator(1) == 2int,
        gain_denominator(2) == 10int,
        gain_denominator(3) == 170int,
        gain_denominator(4) == 11050int,
        gain_denominator(5) == 2839850int,
        gain_denominator(6) == 2910846250int,
        gain_denominator(7) == 11925737086250int,
        gain_denominator(8) == 195403202158206250int,
        gain_denominator(9) == 12806139659842363006250int,
        gain_denominator(10) == 3357065481129376250273406250int,
        gain_denominator(11) == 3520141651006197960382937505406250int,
        gain_denominator(12) == 14764547727523551136223956693612961406250int,
        gain_denominator(13) == 247708021131519490023025882047347167525281406250int,
        gain_denominator(14) == 16623404149532288700824090809821344673586493979041406250int,
        gain_denominator(15) == 4462311089775396253661651093143892745808706340291728308641406250int,
        gain_denominator(16) == 4791370053253172813504824177265568384488901446713911386524786817441406250int,
        gain_numerator(0) == 1int,
        gain_numerator(1) == 1int,
        gain_numerator(2) == 4int,
        gain_numerator(3) == 64int,
        gain_numerator(4) == 4096int,
        gain_numerator(5) == 1048576int,
        gain_numerator(6) == 1073741824int,
        gain_numerator(7) == 4398046511104int,
        gain_numerator(8) == 72057594037927936int,
        gain_numerator(9) == 4722366482869645213696int,
        gain_numerator(10) == 1237940039285380274899124224int,
        gain_numerator(11) == 1298074214633706907132624082305024int,
        gain_numerator(12) == 5444517870735015415413993718908291383296int,
        gain_numerator(13) == 91343852333181432387730302044767688728495783936int,
        gain_numerator(14) == 6129982163463555433433388108601236734474956488734408704int,
        gain_numerator(15) == 1645504557321206042154969182557350504982735865633579863348609024int,
        gain_numerator(16) == 1766847064778384329583297500742918515827483896875618958121606201292619776int,
{
    assert(two_to(0) == 1int);
    assert(two_to(1) == 2int);
    assert(two_to(2) == 4int);
    assert(two_to(3) == 8int);
    assert(two_to(4) == 16int);
    assert(two_to(5) == 32int);
    assert(two_to(6) == 64int);
    assert(two_to(7) == 128int);
    assert(two_to(8) == 256int);
    assert(two_to(9) == 512int);
    assert(two_to(10) == 1024int);
    assert(two_to(11) == 2048int);
    assert(two_to(12) == 4096int);
    assert(two_to(13) == 8192int);
    assert(two_to(14) == 16384int);
    assert(two_to(15) == 32768int);
    assert(two_to(16) == 65536int);
    assert(two_to(17) == 131072int);
    assert(two_to(18) == 262144int);
    assert(two_to(19) == 524288int);
    assert(two_to(20) == 1048576int);
    assert(two_to(21) == 2097152int);
    assert(two_to(22) == 4194304int);
    assert(two_to(23) == 8388608int);
    assert(two_to(24) == 16777216int);
    assert(two_to(25) == 33554432int);
    assert(two_to(26) == 67108864int);
    assert(two_to(27) == 134217728int);
    assert(two_to(28) == 268435456int);
    assert(two_to(29) == 536870912int);
    assert(two_to(30) == 1073741824int);
    assert(gain_denominator(0) == 1int);
    assert(gain_numerator(0) == 1int);
    assert(gain_denominator(1) == 2int) by {
        assert(1int * (1int + 1) == 2int);
    }
    assert(gain_numerator(1) == 1int) by {
        assert(1int * 1int == 1int);
    }
    assert(gain_denominator(2) == 10int) by {
        assert(2int * (4int + 1) == 10int);
    }
    assert(gain_numerator(2) == 4int) by {
        assert(1int * 4int == 4int);
    }
    assert(gain_denominator(3) == 170int) by {
        assert(10int * (16int + 1) == 170int);
    }
    assert(gain_numerator(3) == 64int) by {
        assert(4int * 16int == 64int);
    }
    assert(gain_denominator(4) == 11050int) by {
        assert(170int * (64int + 1) == 11050int);
    }
    assert(gain_numerator(4) == 4096int) by {
        assert(64int * 64int == 4096int);
    }
    assert(gain_denominator(5) == 2839850int) by {
        assert(11050int * (256int + 1) == 2839850int);
    }
    assert(gain_numerator(5) == 1048576int) by {
        assert(4096int * 256int == 1048576int);
    }
    assert(gain_denominator(6) == 2910846250int) by {
        assert(2839850int * (1024int + 1) == 2910846250int);
    }
    assert(gain_numerator(6) == 1073741824int) by {
        assert(1048576int * 1024int == 1073741824int);
    }
    assert(gain_denominator(7) == 11925737086250int) by {
        assert(2910846250int * (4096int + 1) == 11925737086250int);
    }
    assert(gain_numerator(7) == 4398046511104int) by {
        assert(1073741824int * 4096int == 4398046511104int);
    }
    assert(gain_denominator(8) == 195403202158206250int) by {
        assert(11925737086250int * (16384int + 1) == 195403202158206250int);
    }
    assert(gain_numerator(8) == 72057594037927936int) by {
        assert(4398046511104int * 16384int == 72057594037927936int);
    }
    assert(gain_denominator(9) == 12806139659842363006250int) by {
        assert(195403202158206250int * (65536int + 1) == 12806139659842363006250int);
    }
    assert(gain_numerator(9) == 4722366482869645213696int) by {
        assert(72057594037927936int * 65536int == 4722366482869645213696int);
    }
    assert(gain_denominator(10) == 3357065481129376250273406250int) by {
        assert(12806139659842363006250int * (262144int + 1) == 3357065481129376250273406250int);
    }
    assert(gain_numerator(10) == 1237940039285380274899124224int) by {
        assert(4722366482869645213696int * 262144int == 1237940039285380274899124224int);
    }
    assert(gain_denominator(11) == 3520141651006197960382937505406250int) by {
        assert(3357065481129376250273406250int * (1048576int + 1) == 3520141651006197960382937505406250int);
    }
    assert(gain_numerator(11) == 1298074214633706907132624082305024int) by {
        assert(1237940039285380274899124224int * 1048576int == 1298074214633706907132624082305024int);
    }
    assert(gain_denominator(12) == 14764547727523551136223956693612961406250int) by {
        assert(3520141651006197960382937505406250int * (4194304int + 1) == 14764547727523551136223956693612961406250int);
    }
    assert(gain_numerator(12) == 5444517870735015415413993718908291383296int) by {
        assert(1298074214633706907132624082305024int * 4194304int == 5444517870735015415413993718908291383296int);
    }
    assert(gain_denominator(13) == 247708021131519490023025882047347167525281406250int) by {
        assert(14764547727523551136223956693612961406250int * (16777216int + 1) == 247708021131519490023025882047347167525281406250int);
    }
    assert(gain_numerator(13) == 91343852333181432387730302044767688728495783936int) by {
        assert(5444517870735015415413993718908291383296int * 16777216int == 91343852333181432387730302044767688728495783936int);
    }
    assert(gain_denominator(14) == 16623404149532288700824090809821344673586493979041406250int) by {
        assert(247708021131519490023025882047347167525281406250int * (67108864int + 1) == 16623404149532288700824090809821344673586493979041406250int);
    }
    assert(gain_numerator(14) == 6129982163463555433433388108601236734474956488734408704int) by {
        assert(91343852333181432387730302044767688728495783936int * 67108864int == 6129982163463555433433388108601236734474956488734408704int);
    }
    assert(gain_denominator(15) == 4462311089775396253661651093143892745808706340291728308641406250int) by {
        assert(16623404149532288700824090809821344673586493979041406250int * (268435456int + 1) == 4462311089775396253661651093143892745808706340291728308641406250int);
    }
    assert(gain_numerator(15) == 1645504557321206042154969182557350504982735865633579863348609024int) by {
        assert(6129982163463555433433388108601236734474956488734408704int * 268435456int == 1645504557321206042154969182557350504982735865633579863348609024int);
    }
    assert(gain_denominator(16) == 4791370053253172813504824177265568384488901446713911386524786817441406250int) by {
        assert(4462311089775396253661651093143892745808706340291728308641406250int * (1073741824int + 1) == 4791370053253172813504824177265568384488901446713911386524786817441406250int);
    }
    assert(gain_numerator(16) == 1766847064778384329583297500742918515827483896875618958121606201292619776int) by {
        assert(1645504557321206042154969182557350504982735865633579863348609024int * 1073741824int == 1766847064778384329583297500742918515827483896875618958121606201292619776int);
    }
}

/// Each stored gain is the product of `1 / sqrt(1 + 4^-y)` over `y < m`,
/// scaled by 2^30 and rounded to the nearest integer: with `G` the stored
/// value, the exact square `2^60 * prod 4^y / prod (4^y + 1)` lies between
/// `(G - 1/2)^2` and `(G + 1/2)^2`.
pub proof fn lemma_gain_is_rounded_product(m: nat)
    requires
        m < GAIN_TABLE_LEN,
    ensures
        (2 * gain_stored(m as int) - 1) * (2 * gain_stored(m as int) - 1) * gain_denominator(m)
            <= 4 * 0x1000_0000_0000_0000 * gain_numerator(m),
        4 * 0x1000_0000_0000_0000 * gain_numerator(m)
            <= (2 * gain_stored(m as int) + 1) * (2 * gain_stored(m as int) + 1) * gain_denominator(m),
{
    lemma_gain_products();
    if m == 0 {
        assert(gain_stored(0) == 1073741824);
        assert(2147483647int * 2147483647int * 1int <= 4 * 0x1000_0000_0000_0000 * 1int);
        assert(4 * 0x1000_0000_0000_0000 * 1int <= 2147483649int * 2147483649int * 1int);
    } else if m == 1 {
        assert(gain_stored(1) == 759250125);
        assert(1518500249int * 1518500249int * 2int <= 4 * 0x1000_0000_0000_0000 * 1int);
        assert(4 * 0x1000_0000_0000_0000 * 1int <= 1518500251int * 1518500251int * 2int);
    } else if m == 2 {
        assert(gain_stored(2) == 679093957);
        assert(1358187913int * 1358187913int * 10int <= 4 * 0x1000_0000_0000_0000 * 4int);
        assert(4 * 0x1000_0000_0000_0000 * 4int <= 1358187915int * 1358187915int * 10int);
    } else if m == 3 {
        assert(gain_stored(3) == 658817909);
        assert(1317635817int * 1317635817int * 170int <= 4 * 0x1000_0000_0000_0000 * 64int);
        assert(4 * 0x1000_0000_0000_0000 * 64int <= 1317635819int * 1317635819int * 170int);
    } else if m == 4 {
        assert(gain_stored(4) == 653730436);
        assert(1307460871int * 1307460871int * 11050int <= 4 * 0x1000_0000_0000_0000 * 4096int);
        assert(4 * 0x1000_0000_0000_0000 * 4096int <= 1307460873int * 1307460873int * 11050int);
    } else if m == 5 {
        assert(gain_stored(5) == 652457347);
        assert(1304914693int * 1304914693int * 2839850int <= 4 * 0x1000_0000_0000_0000 * 1048576int);
        assert(4 * 0x1000_0000_0000_0000 * 1048576int <= 1304914695int * 1304914695int * 2839850int);
    } else if m == 6 {
        assert(gain_stored(6) == 652138997);
        assert(1304277993int * 1304277993int * 2910846250int <= 4 * 0x1000_0000_0000_0000 * 1073741824int);
        assert(4 * 0x1000_0000_0000_0000 * 1073741824int <= 1304277995int * 1304277995int * 2910846250int);
    } else if m == 7 {
        assert(gain_stored(7) == 652059405);
        assert(1304118809int * 1304118809int * 11925737086250int <= 4 * 0x1000_0000_0000_0000 * 4398046511104int);
        assert(4 * 0x1000_0000_0000_0000 * 4398046511104int <= 1304118811int * 1304118811int * 11925737086250int);
    } else if m == 8 {
        assert(gain_stored(8) == 652039507);
        assert(1304079013int * 1304079013int * 195403202158206250int <= 4 * 0x1000_0000_0000_0000 * 72057594037927936int);
        assert(4 * 0x1000_0000_0000_0000 * 72057594037927936int <= 1304079015int * 1304079015int * 195403202158206250int);
    } else if m == 9 {
        assert(gain_stored(9) == 652034532);
        assert(1304069063int * 1304069063int * 12806139659842363006250int <= 4 * 0x1000_0000_0000_0000 * 4722366482869645213696int);
        assert(4 * 0x1000_0000_0000_0000 * 4722366482869645213696int <= 1304069065int * 1304069065int * 12806139659842363006250int);
    } else if m == 10 {
        assert(gain_stored(10) == 652033289);
        assert(1304066577int * 1304066577int * 3357065481129376250273406250int <= 4 * 0x1000_0000_0000_0000 * 1237940039285380274899124224int);
        assert(4 * 0x1000_0000_0000_0000 * 1237940039285380274899124224int <= 1304066579int * 1304066579int * 3357065481129376250273406250int);
    } else if m == 11 {
        assert(gain_stored(11) == 652032978);
        assert(1304065955int * 1304065955int * 3520141651006197960382937505406250int <= 4 * 0x1000_0000_0000_0000 * 1298074214633706907132624082305024int);
        assert(4 * 0x1000_0000_0000_0000 * 1298074214633706907132624082305024int <= 1304065957int * 1304065957int * 3520141651006197960382937505406250int);
    } else if m == 12 {
        assert(gain_stored(12) == 652032900);
        assert(1304065799int * 1304065799int * 14764547727523551136223956693612961406250int <= 4 * 0x1000_0000_0000_0000 * 5444517870735015415413993718908291383296int);
        assert(4 * 0x1000_0000_0000_0000 * 5444517870735015415413993718908291383296int <= 1304065801int * 1304065801int * 14764547727523551136223956693612961406250int);
    } else if m == 13 {
        assert(gain_stored(13) == 652032881);
        assert(1304065761int * 1304065761int * 247708021131519490023025882047347167525281406250int <= 4 * 0x1000_0000_0000_0000 * 91343852333181432387730302044767688728495783936int);
        assert(4 * 0x1000_0000_0000_0000 * 91343852333181432387730302044767688728495783936int <= 1304065763int * 1304065763int * 247708021131519490023025882047347167525281406250int);
    } else if m == 14 {
        assert(gain_stored(14) == 652032876);
        assert(1304065751int * 1304065751int * 16623404149532288700824090809821344673586493979041406250int <= 4 * 0x1000_0000_0000_0000 * 6129982163463555433433388108601236734474956488734408704int);
        assert(4 * 0x1000_0000_0000_0000 * 6129982163463555433433388108601236734474956488734408704int <= 1304065753int * 1304065753int * 16623404149532288700824090809821344673586493979041406250int);
    } else if m == 15 {
        assert(gain_stored(15) == 652032874);
        assert(1304065747int * 1304065747int * 4462311089775396253661651093143892745808706340291728308641406250int <= 4 * 0x1000_0000_0000_0000 * 1645504557321206042154969182557350504982735865633579863348609024int);
        assert(4 * 0x1000_0000_0000_0000 * 1645504557321206042154969182557350504982735865633579863348609024int <= 1304065749int * 1304065749int * 4462311089775396253661651093143892745808706340291728308641406250int);
    } else if m == 16 {
        assert(gain_stored(16) == 652032874);
        assert(1304065747int * 1304065747int * 4791370053253172813504824177265568384488901446713911386524786817441406250int <= 4 * 0x1000_0000_0000_0000 * 1766847064778384329583297500742918515827483896875618958121606201292619776int);
        assert(4 * 0x1000_0000_0000_0000 * 1766847064778384329583297500742918515827483896875618958121606201292619776int <= 1304065749int * 1304065749int * 4791370053253172813504824177265568384488901446713911386524786817441406250int);
    }
}

} // verus!
