//! Integer trigonometry on tenth-degree angles.
//!
//! Angles are whole tenths of a degree; sines and cosines are integers
//! scaled by [`TRIG_ONE`].  A quarter-wave table holds the sine of each
//! whole degree, and tenth-degree values interpolate linearly between
//! neighbouring entries.  The paddle-bounce and launch angles the engine
//! uses all lie in the first half-turn, so only that range is defined.

use vstd::prelude::*;
use crate::fixed::{spec_mul_div, mul_div, div_nn};

verus! {

/// Scale of the trigonometric tables: the sine of a right angle.
pub const TRIG_ONE: i64 = 32768;

/// Sine of `d` whole degrees scaled by [`TRIG_ONE`], clipped to the
/// quarter wave: 0 at or below 0 degrees, [`TRIG_ONE`] at or above 90.
/// Kept opaque: everything downstream reasons through the lemmas
/// below, so the table never unfolds into a caller's conditions.
#[verifier::opaque]
pub open spec fn spec_sin_table(d: int) -> int {
    if d <= 0 {
        0
    } else if d == 1 {
        572
    } else if d == 2 {
        1144
    } else if d == 3 {
        1715
    } else if d == 4 {
        2286
    } else if d == 5 {
        2856
    } else if d == 6 {
        3425
    } else if d == 7 {
        3993
    } else if d == 8 {
        4560
    } else if d == 9 {
        5126
    } else if d == 10 {
        5690
    } else if d == 11 {
        6252
    } else if d == 12 {
        6813
    } else if d == 13 {
        7371
    } else if d == 14 {
        7927
    } else if d == 15 {
        8481
    } else if d == 16 {
        9032
    } else if d == 17 {
        9580
    } else if d == 18 {
        10126
    } else if d == 19 {
        10668
    } else if d == 20 {
        11207
    } else if d == 21 {
        11743
    } else if d == 22 {
        12275
    } else if d == 23 {
        12803
    } else if d == 24 {
        13328
    } else if d == 25 {
        13848
    } else if d == 26 {
        14365
    } else if d == 27 {
        14876
    } else if d == 28 {
        15384
    } else if d == 29 {
        15886
    } else if d == 30 {
        16384
    } else if d == 31 {
        16877
    } else if d == 32 {
        17364
    } else if d == 33 {
        17847
    } else if d == 34 {
        18324
    } else if d == 35 {
        18795
    } else if d == 36 {
        19261
    } else if d == 37 {
        19720
    } else if d == 38 {
        20174
    } else if d == 39 {
        20622
    } else if d == 40 {
        21063
    } else if d == 41 {
        21498
    } else if d == 42 {
        21926
    } else if d == 43 {
        22348
    } else if d == 44 {
        22763
    } else if d == 45 {
        23170
    } else if d == 46 {
        23571
    } else if d == 47 {
        23965
    } else if d == 48 {
        24351
    } else if d == 49 {
        24730
    } else if d == 50 {
        25102
    } else if d == 51 {
        25466
    } else if d == 52 {
        25822
    } else if d == 53 {
        26170
    } else if d == 54 {
        26510
    } else if d == 55 {
        26842
    } else if d == 56 {
        27166
    } else if d == 57 {
        27482
    } else if d == 58 {
        27789
    } else if d == 59 {
        28088
    } else if d == 60 {
        28378
    } else if d == 61 {
        28660
    } else if d == 62 {
        28932
    } else if d == 63 {
        29197
    } else if d == 64 {
        29452
    } else if d == 65 {
        29698
    } else if d == 66 {
        29935
    } else if d == 67 {
        30163
    } else if d == 68 {
        30382
    } else if d == 69 {
        30592
    } else if d == 70 {
        30792
    } else if d == 71 {
        30983
    } else if d == 72 {
        31164
    } else if d == 73 {
        31336
    } else if d == 74 {
        31499
    } else if d == 75 {
        31651
    } else if d == 76 {
        31795
    } else if d == 77 {
        31928
    } else if d == 78 {
        32052
    } else if d == 79 {
        32166
    } else if d == 80 {
        32270
    } else if d == 81 {
        32365
    } else if d == 82 {
        32449
    } else if d == 83 {
        32524
    } else if d == 84 {
        32588
    } else if d == 85 {
        32643
    } else if d == 86 {
        32688
    } else if d == 87 {
        32723
    } else if d == 88 {
        32748
    } else if d == 89 {
        32763
    } else {
        32768
    }
}

pub fn sin_table(d: u32) -> (r: i64)
    requires
        d <= 90,
    ensures
        r == spec_sin_table(d as int),
{
    proof {
        reveal(spec_sin_table);
    }
    if d == 0 {
        0
    } else if d == 1 {
        572
    } else if d == 2 {
        1144
    } else if d == 3 {
        1715
    } else if d == 4 {
        2286
    } else if d == 5 {
        2856
    } else if d == 6 {
        3425
    } else if d == 7 {
        3993
    } else if d == 8 {
        4560
    } else if d == 9 {
        5126
    } else if d == 10 {
        5690
    } else if d == 11 {
        6252
    } else if d == 12 {
        6813
    } else if d == 13 {
        7371
    } else if d == 14 {
        7927
    } else if d == 15 {
        8481
    } else if d == 16 {
        9032
    } else if d == 17 {
        9580
    } else if d == 18 {
        10126
    } else if d == 19 {
        10668
    } else if d == 20 {
        11207
    } else if d == 21 {
        11743
    } else if d == 22 {
        12275
    } else if d == 23 {
        12803
    } else if d == 24 {
        13328
    } else if d == 25 {
        13848
    } else if d == 26 {
        14365
    } else if d == 27 {
        14876
    } else if d == 28 {
        15384
    } else if d == 29 {
        15886
    } else if d == 30 {
        16384
    } else if d == 31 {
        16877
    } else if d == 32 {
        17364
    } else if d == 33 {
        17847
    } else if d == 34 {
        18324
    } else if d == 35 {
        18795
    } else if d == 36 {
        19261
    } else if d == 37 {
        19720
    } else if d == 38 {
        20174
    } else if d == 39 {
        20622
    } else if d == 40 {
        21063
    } else if d == 41 {
        21498
    } else if d == 42 {
        21926
    } else if d == 43 {
        22348
    } else if d == 44 {
        22763
    } else if d == 45 {
        23170
    } else if d == 46 {
        23571
    } else if d == 47 {
        23965
    } else if d == 48 {
        24351
    } else if d == 49 {
        24730
    } else if d == 50 {
        25102
    } else if d == 51 {
        25466
    } else if d == 52 {
        25822
    } else if d == 53 {
        26170
    } else if d == 54 {
        26510
    } else if d == 55 {
        26842
    } else if d == 56 {
        27166
    } else if d == 57 {
        27482
    } else if d == 58 {
        27789
    } else if d == 59 {
        28088
    } else if d == 60 {
        28378
    } else if d == 61 {
        28660
    } else if d == 62 {
        28932
    } else if d == 63 {
        29197
    } else if d == 64 {
        29452
    } else if d == 65 {
        29698
    } else if d == 66 {
        29935
    } else if d == 67 {
        30163
    } else if d == 68 {
        30382
    } else if d == 69 {
        30592
    } else if d == 70 {
        30792
    } else if d == 71 {
        30983
    } else if d == 72 {
        31164
    } else if d == 73 {
        31336
    } else if d == 74 {
        31499
    } else if d == 75 {
        31651
    } else if d == 76 {
        31795
    } else if d == 77 {
        31928
    } else if d == 78 {
        32052
    } else if d == 79 {
        32166
    } else if d == 80 {
        32270
    } else if d == 81 {
        32365
    } else if d == 82 {
        32449
    } else if d == 83 {
        32524
    } else if d == 84 {
        32588
    } else if d == 85 {
        32643
    } else if d == 86 {
        32688
    } else if d == 87 {
        32723
    } else if d == 88 {
        32748
    } else if d == 89 {
        32763
    } else {
        32768
    }
}

/// The quarter-wave table never decreases as the angle grows.
pub proof fn lemma_sin_table_monotone(a: int, b: int)
    requires
        0 <= a,
        a <= b,
    ensures
        spec_sin_table(a) <= spec_sin_table(b),
    decreases b - a,
{
    if a < b {
        assert(spec_sin_table(a) <= spec_sin_table(a + 1)) by {
            reveal(spec_sin_table);
        }
        lemma_sin_table_monotone(a + 1, b);
    }
}

/// Every table entry lies between 0 and [`TRIG_ONE`], and the table
/// is clipped flat outside the quarter wave.
pub proof fn lemma_sin_table_bounds(d: int)
    ensures
        0 <= spec_sin_table(d) <= 32768,
        d <= 0 ==> spec_sin_table(d) == 0,
        d >= 90 ==> spec_sin_table(d) == 32768,
{
    reveal(spec_sin_table);
}

/// Sine of `t` tenth-degrees over the first half-turn, scaled by
/// [`TRIG_ONE`]: table entries at whole degrees, linear interpolation
/// in between, mirrored about 90 degrees.
pub open spec fn spec_sin_half(t: int) -> int {
    let m = if t <= 900 {
        t
    } else {
        1800 - t
    };
    let d = m / 10;
    let r = m % 10;
    spec_sin_table(d) + (spec_sin_table(d + 1) - spec_sin_table(d)) * r / 10
}

/// Cosine of `t` tenth-degrees over the first half-turn, scaled by
/// [`TRIG_ONE`]: the sine shifted by a quarter-turn.
pub open spec fn spec_cos_half(t: int) -> int {
    if t <= 900 {
        spec_sin_half(900 - t)
    } else {
        -spec_sin_half(1800 - (1800 - t) - 900)
    }
}

/// An interpolated sine stays within its cell of the table.
pub proof fn lemma_sin_half_cell(t: int)
    requires
        0 <= t <= 1800,
    ensures
        ({
            let m = if t <= 900 {
                t
            } else {
                1800 - t
            };
            spec_sin_table(m / 10) <= spec_sin_half(t) <= spec_sin_table(m / 10 + 1)
        }),
        0 <= spec_sin_half(t) <= 32768,
{
    let m = if t <= 900 {
        t
    } else {
        1800 - t
    };
    let d = m / 10;
    let r = m % 10;
    vstd::arithmetic::div_mod::lemma_fundamental_div_mod(m, 10);
    vstd::arithmetic::div_mod::lemma_div_pos_is_pos(m, 10);
    vstd::arithmetic::div_mod::lemma_remainder_lower(m, 10);
    vstd::arithmetic::div_mod::lemma_remainder_upper(m, 10);
    assert(0 <= d);
    assert(0 <= r < 10);
    lemma_sin_table_monotone(d, d + 1);
    let delta = spec_sin_table(d + 1) - spec_sin_table(d);
    assert(delta * r >= 0) by (nonlinear_arith)
        requires
            delta >= 0,
            r >= 0,
    ;
    vstd::arithmetic::div_mod::lemma_div_pos_is_pos(delta * r, 10);
    assert(delta * r <= delta * 10) by (nonlinear_arith)
        requires
            delta >= 0,
            r < 10,
    ;
    vstd::arithmetic::div_mod::lemma_div_is_ordered(delta * r, delta * 10, 10);
    vstd::arithmetic::div_mod::lemma_div_multiples_vanish(delta, 10);
    lemma_sin_table_bounds(d);
    lemma_sin_table_bounds(d + 1);
}

pub fn sin_half(t: i64) -> (r: i64)
    requires
        0 <= t <= 1800,
    ensures
        r == spec_sin_half(t as int),
        0 <= r <= TRIG_ONE,
{
    proof {
        lemma_sin_half_cell(t as int);
    }
    let m: u32 = if t <= 900 {
        t as u32
    } else {
        (1800 - t) as u32
    };
    let d: u32 = m / 10;
    let rem: u32 = m % 10;
    let sd: i64 = sin_table(d);
    let sd1: i64 = if d >= 90 {
        32768
    } else {
        sin_table(d + 1)
    };
    proof {
        lemma_sin_table_monotone(d as int, d as int + 1);
        lemma_sin_table_bounds(d as int);
        lemma_sin_table_bounds(d as int + 1);
        assert(0 <= (sd1 - sd) as int * (rem as int) <= 32768 * 9) by (nonlinear_arith)
            requires
                0 <= sd1 - sd <= 32768,
                0 <= rem <= 9,
        ;
    }
    let interp: i64 = div_nn((sd1 - sd) * (rem as i64), 10);
    sd + interp
}

/// Velocity of magnitude close to `b` at angle `t` tenth-degrees from
/// the positive x axis, with the vertical component negated so that a
/// first-half-turn angle points up the screen (y grows downward).
/// Kept opaque: callers carry the pair around; what they need of it
/// stands in the ensures of [`velocity_at`] and in the lemmas here.
#[verifier::opaque]
pub open spec fn spec_velocity_at(b: int, t: int) -> (int, int) {
    (spec_mul_div(b, spec_cos_half(t), 32768), -spec_mul_div(b, spec_sin_half(t), 32768))
}

pub fn velocity_at(b: i64, t: i64) -> (v: (i64, i64))
    requires
        0 <= b <= 0x10_0000,
        0 <= t <= 1800,
    ensures
        (v.0 as int, v.1 as int) == spec_velocity_at(b as int, t as int),
        -b <= v.0 <= b,
        -b <= v.1 <= 0,
        b * spec_sin_half(t as int) >= 32768 ==> v.1 < 0,
{
    proof {
        reveal(spec_velocity_at);
    }
    let c: i64 = cos_half(t);
    let s: i64 = sin_half(t);
    proof {
        let bi = b as int;
        let ci = c as int;
        let si = s as int;
        assert(0 <= bi * si <= bi * 32768) by (nonlinear_arith)
            requires
                0 <= bi,
                0 <= si <= 32768,
        ;
        assert(-(bi * 32768) <= bi * ci <= bi * 32768) by (nonlinear_arith)
            requires
                0 <= bi,
                -32768 <= ci <= 32768,
        ;
        assert(bi * 32768 <= 0x4000_0000_0000_0000) by (nonlinear_arith)
            requires
                0 <= bi <= 0x10_0000,
        ;
    }
    let vx: i64 = mul_div(b, c, 32768);
    let vy: i64 = mul_div(b, s, 32768);
    proof {
        let bi = b as int;
        let ci = c as int;
        let si = s as int;
        vstd::arithmetic::div_mod::lemma_div_multiples_vanish(bi, 32768);
        if bi * ci >= 0 {
            vstd::arithmetic::div_mod::lemma_div_is_ordered(bi * ci, bi * 32768, 32768);
        } else {
            vstd::arithmetic::div_mod::lemma_div_is_ordered(-(bi * ci), bi * 32768, 32768);
        }
        vstd::arithmetic::div_mod::lemma_div_is_ordered(bi * si, bi * 32768, 32768);
        if bi * si >= 32768 {
            vstd::arithmetic::div_mod::lemma_div_is_ordered(32768, bi * si, 32768);
            assert(32768int / 32768 == 1) by (nonlinear_arith);
        }
    }
    (vx, -vy)
}

pub fn cos_half(t: i64) -> (r: i64)
    requires
        0 <= t <= 1800,
    ensures
        r == spec_cos_half(t as int),
        -TRIG_ONE <= r <= TRIG_ONE,
{
    if t <= 900 {
        sin_half(900 - t)
    } else {
        -sin_half(t - 900)
    }
}


/// Monotone bounds for a squared magnitude from a box around its
/// components.
pub proof fn lemma_square_box(s: int, c: int, s_lo: int, s_hi: int, c_lo: int, c_hi: int)
    by (nonlinear_arith)
    requires
        0 <= s_lo <= s <= s_hi,
        0 <= c_lo,
        (c_lo <= c <= c_hi) || (c_lo <= -c <= c_hi),
    ensures
        s_lo * s_lo + c_lo * c_lo <= s * s + c * c,
        s * s + c * c <= s_hi * s_hi + c_hi * c_hi,
{
}

/// Over the whole band of launch angles, sine and cosine stay a unit
/// pair up to the table's tolerance: their squared magnitude is within
/// minus two to plus three per cent of [`TRIG_ONE`] squared.
pub proof fn lemma_speed_square_range(t: int)
    requires
        0 <= t <= 1800,
        666 <= (if t <= 900 { t } else { 1800 - t }),
    ensures
        ({
            let s = spec_sin_half(t);
            let c = spec_cos_half(t);
            &&& 100 * (s * s + c * c) >= 98 * (32768 * 32768)
            &&& 100 * (s * s + c * c) <= 103 * (32768 * 32768)
        }),
{
    let m = if t <= 900 { t } else { 1800 - t };
    let d = m / 10;
    let mc = 900 - m;
    let dc = mc / 10;
    let s = spec_sin_half(t);
    let c = spec_cos_half(t);
    lemma_sin_half_cell(t);
    lemma_sin_half_cell(mc);
    assert(c == spec_sin_half(mc) || c == -spec_sin_half(mc));
    vstd::arithmetic::div_mod::lemma_fundamental_div_mod(m, 10);
    vstd::arithmetic::div_mod::lemma_fundamental_div_mod(mc, 10);
    vstd::arithmetic::div_mod::lemma_remainder_lower(m, 10);
    vstd::arithmetic::div_mod::lemma_remainder_upper(m, 10);
    vstd::arithmetic::div_mod::lemma_remainder_lower(mc, 10);
    vstd::arithmetic::div_mod::lemma_remainder_upper(mc, 10);
    assert(66 <= d <= 90);
    assert(89 - d <= dc <= 90 - d);
    if d <= 89 {
        lemma_sin_table_monotone(89 - d, dc);
    }
    lemma_sin_table_monotone(dc + 1, 91 - d);
    lemma_sin_table_bounds(dc);
    reveal(spec_sin_table);
        if d == 66 {
            lemma_square_box(s, c, 29935, 30163, 12803, 13848);
        } else if d == 67 {
            lemma_square_box(s, c, 30163, 30382, 12275, 13328);
        } else if d == 68 {
            lemma_square_box(s, c, 30382, 30592, 11743, 12803);
        } else if d == 69 {
            lemma_square_box(s, c, 30592, 30792, 11207, 12275);
        } else if d == 70 {
            lemma_square_box(s, c, 30792, 30983, 10668, 11743);
        } else if d == 71 {
            lemma_square_box(s, c, 30983, 31164, 10126, 11207);
        } else if d == 72 {
            lemma_square_box(s, c, 31164, 31336, 9580, 10668);
        } else if d == 73 {
            lemma_square_box(s, c, 31336, 31499, 9032, 10126);
        } else if d == 74 {
            lemma_square_box(s, c, 31499, 31651, 8481, 9580);
        } else if d == 75 {
            lemma_square_box(s, c, 31651, 31795, 7927, 9032);
        } else if d == 76 {
            lemma_square_box(s, c, 31795, 31928, 7371, 8481);
        } else if d == 77 {
            lemma_square_box(s, c, 31928, 32052, 6813, 7927);
        } else if d == 78 {
            lemma_square_box(s, c, 32052, 32166, 6252, 7371);
        } else if d == 79 {
            lemma_square_box(s, c, 32166, 32270, 5690, 6813);
        } else if d == 80 {
            lemma_square_box(s, c, 32270, 32365, 5126, 6252);
        } else if d == 81 {
            lemma_square_box(s, c, 32365, 32449, 4560, 5690);
        } else if d == 82 {
            lemma_square_box(s, c, 32449, 32524, 3993, 5126);
        } else if d == 83 {
            lemma_square_box(s, c, 32524, 32588, 3425, 4560);
        } else if d == 84 {
            lemma_square_box(s, c, 32588, 32643, 2856, 3993);
        } else if d == 85 {
            lemma_square_box(s, c, 32643, 32688, 2286, 3425);
        } else if d == 86 {
            lemma_square_box(s, c, 32688, 32723, 1715, 2856);
        } else if d == 87 {
            lemma_square_box(s, c, 32723, 32748, 1144, 2286);
        } else if d == 88 {
            lemma_square_box(s, c, 32748, 32763, 572, 1715);
        } else if d == 89 {
            lemma_square_box(s, c, 32763, 32768, 0, 1144);
        } else if d == 90 {
            lemma_square_box(s, c, 32768, 32768, 0, 572);
        }
}

/// The launch law: for every admissible draw `rand`, the launch
/// velocity at angle `67.5 + rand/10` degrees points strictly upward,
/// its squared magnitude lies within minus five to plus three per cent
/// of the base speed squared, and its horizontal component stays
/// inside the cone the angle band allows (at most `sin 25`-to-one
/// against the base speed).
pub proof fn lemma_launch_velocity(b: int, rand: int)
    requires
        128 <= b <= 0x10_0000,
        0 <= rand < 460,
    ensures
        ({
            let v = spec_velocity_at(b, 675 + rand);
            &&& v.1 < 0
            &&& 100 * (v.0 * v.0 + v.1 * v.1) <= 103 * (b * b)
            &&& 100 * (v.0 * v.0 + v.1 * v.1) >= 95 * (b * b)
            &&& 32768 * (if v.0 >= 0 {
                v.0
            } else {
                -v.0
            }) <= 13848 * b
        }),
{
    reveal(spec_velocity_at);
    let t = 675 + rand;
    let s = spec_sin_half(t);
    let c = spec_cos_half(t);
    let cc = if c >= 0 {
        c
    } else {
        -c
    };
    let m = if t <= 900 {
        t
    } else {
        1800 - t
    };
    let mc = 900 - m;
    lemma_speed_square_range(t);
    lemma_sin_half_cell(t);
    lemma_sin_half_cell(mc);
    assert(c == spec_sin_half(mc) || c == -spec_sin_half(mc));
    vstd::arithmetic::div_mod::lemma_fundamental_div_mod(m, 10);
    vstd::arithmetic::div_mod::lemma_remainder_lower(m, 10);
    vstd::arithmetic::div_mod::lemma_remainder_upper(m, 10);
    vstd::arithmetic::div_mod::lemma_fundamental_div_mod(mc, 10);
    vstd::arithmetic::div_mod::lemma_remainder_lower(mc, 10);
    vstd::arithmetic::div_mod::lemma_remainder_upper(mc, 10);
    lemma_sin_table_monotone(66, m / 10);
    lemma_sin_table_monotone(mc / 10 + 1, 24);
    assert(29935 <= s <= 32768 && 0 <= cc <= 13328) by {
        reveal(spec_sin_table);
    }

    // The truncated scalings, written over magnitudes.
    let vya = (b * s) / 32768;
    let vxa = (b * cc) / 32768;
    assert((c >= 0 ==> b * c == b * cc && b * c >= 0) && (c < 0 ==> b * c == -(b * cc) && b * c
        < 0) && 0 <= b * s && b * s >= 128 * 29935 && 0 <= b * cc) by (nonlinear_arith)
        requires
            128 <= b,
            29935 <= s,
            0 <= cc,
            cc == (if c >= 0 {
                c
            } else {
                -c
            }),
    ;
    assert(spec_velocity_at(b, t).1 == -vya);
    assert(spec_velocity_at(b, t).0 == vxa || spec_velocity_at(b, t).0 == -vxa);
    vstd::arithmetic::div_mod::lemma_fundamental_div_mod(b * s, 32768);
    vstd::arithmetic::div_mod::lemma_remainder_lower(b * s, 32768);
    vstd::arithmetic::div_mod::lemma_remainder_upper(b * s, 32768);
    vstd::arithmetic::div_mod::lemma_fundamental_div_mod(b * cc, 32768);
    vstd::arithmetic::div_mod::lemma_remainder_lower(b * cc, 32768);
    vstd::arithmetic::div_mod::lemma_remainder_upper(b * cc, 32768);
    assert(0 <= vya && 0 <= vxa) by (nonlinear_arith)
        requires
            b * s == 32768 * vya + (b * s) % 32768,
            b * cc == 32768 * vxa + (b * cc) % 32768,
            0 <= (b * s) % 32768 < 32768,
            0 <= (b * cc) % 32768 < 32768,
            0 <= b * s,
            0 <= b * cc,
    ;
    assert(vya >= 1);

    // Upper bound: scaling only shrinks the magnitude.
    assert(32768 * 32768 * (vxa * vxa + vya * vya) <= b * b * (s * s + cc * cc))
        by (nonlinear_arith)
        requires
            0 <= 32768 * vya <= b * s,
            0 <= 32768 * vxa <= b * cc,
    ;
    assert(cc * cc == c * c) by (nonlinear_arith)
        requires
            cc == c || cc == -c,
    ;
    assert(100 * (vxa * vxa + vya * vya) <= 103 * (b * b)) by (nonlinear_arith)
        requires
            32768 * 32768 * (vxa * vxa + vya * vya) <= b * b * (s * s + cc * cc),
            100 * (s * s + cc * cc) <= 103 * (32768 * 32768),
            0 <= b,
    ;

    // Lower bound: each truncation loses less than one scale unit,
    // one axis at a time.
    assert(32768 * 32768 * (vya * vya) >= (b * s) * (b * s) - 2 * 32768 * (b * s))
        by (nonlinear_arith)
        requires
            32768 * vya > b * s - 32768,
            0 <= vya,
            0 <= b * s,
    ;
    assert(32768 * 32768 * (vxa * vxa) >= (b * cc) * (b * cc) - 2 * 32768 * (b * cc))
        by (nonlinear_arith)
        requires
            32768 * vxa > b * cc - 32768,
            0 <= vxa,
            0 <= b * cc,
    ;
    assert((b * s) * (b * s) == b * b * (s * s) && (b * cc) * (b * cc) == b * b * (cc * cc))
        by (nonlinear_arith);
    assert(100 * (b * b) * (s * s + cc * cc) >= 98 * (32768 * 32768) * (b * b))
        by (nonlinear_arith)
        requires
            100 * (s * s + cc * cc) >= 98 * (32768 * 32768),
    ;
    assert(b * s + b * cc <= 46096 * b) by (nonlinear_arith)
        requires
            s <= 32768,
            cc <= 13328,
            0 <= b,
    ;
    assert(100 * (b * b) * (s * s + cc * cc) == 100 * (b * b * (s * s)) + 100 * (b * b * (cc
        * cc))) by (nonlinear_arith);
    assert(3 * (32768 * 32768) * (b * b) >= 302094745600 * b) by (nonlinear_arith)
        requires
            128 <= b,
    ;
    assert(100 * (32768 * 32768) * (vxa * vxa + vya * vya) == 100 * (32768 * 32768 * (vya * vya))
        + 100 * (32768 * 32768 * (vxa * vxa))) by (nonlinear_arith);
    assert(100 * (32768 * 32768) * (vxa * vxa + vya * vya) >= 95 * (32768 * 32768) * (b * b))
        by (nonlinear_arith)
        requires
            100 * (32768 * 32768) * (vxa * vxa + vya * vya) == 100 * (32768 * 32768 * (vya * vya))
                + 100 * (32768 * 32768 * (vxa * vxa)),
            32768 * 32768 * (vya * vya) >= (b * s) * (b * s) - 2 * 32768 * (b * s),
            32768 * 32768 * (vxa * vxa) >= (b * cc) * (b * cc) - 2 * 32768 * (b * cc),
            (b * s) * (b * s) == b * b * (s * s),
            (b * cc) * (b * cc) == b * b * (cc * cc),
            100 * (b * b) * (s * s + cc * cc) == 100 * (b * b * (s * s)) + 100 * (b * b * (cc
                * cc)),
            100 * (b * b) * (s * s + cc * cc) >= 98 * (32768 * 32768) * (b * b),
            b * s + b * cc <= 46096 * b,
            3 * (32768 * 32768) * (b * b) >= 302094745600 * b,
    ;
    assert(100 * (vxa * vxa + vya * vya) >= 95 * (b * b)) by (nonlinear_arith)
        requires
            100 * (32768 * 32768) * (vxa * vxa + vya * vya) >= 95 * (32768 * 32768) * (b * b),
    ;

    // The cone: the horizontal share is capped by the cosine bound.
    assert(32768 * vxa <= 13848 * b) by (nonlinear_arith)
        requires
            32768 * vxa <= b * cc,
            cc <= 13328,
            0 <= b,
    ;
    assert((vxa * vxa + vya * vya) == ({
        let v = spec_velocity_at(b, t);
        v.0 * v.0 + v.1 * v.1
    })) by (nonlinear_arith)
        requires
            spec_velocity_at(b, t).1 == -vya,
            spec_velocity_at(b, t).0 == vxa || spec_velocity_at(b, t).0 == -vxa,
    ;
}

} // verus!
