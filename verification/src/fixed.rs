//! Fixed-point scalars.
//!
//! Every length in the engine is an `i64` counting sub-pixel units,
//! [`FP`] units to the pixel.  Division in this module always rounds
//! toward zero, like Rust's `/` on machine integers; the spec functions
//! below say exactly that over `int`, so contracts never depend on the
//! sign conventions of SMT-level Euclidean division.

use vstd::prelude::*;

verus! {

/// Sub-pixel units per pixel.
pub const FP: i64 = 256;

/// Sign of `x`: -1, 0 or 1.
pub open spec fn spec_signum(x: int) -> int {
    if x > 0 {
        1
    } else if x < 0 {
        -1
    } else {
        0
    }
}

/// `p / q` rounded toward zero, for `q > 0`.
pub open spec fn spec_div_trunc(p: int, q: int) -> int {
    if p >= 0 {
        p / q
    } else {
        -((-p) / q)
    }
}

/// `(a * b) / q` rounded toward zero, for `q > 0`.
pub open spec fn spec_mul_div(a: int, b: int, q: int) -> int {
    spec_div_trunc(a * b, q)
}

pub fn signum(x: i64) -> (r: i64)
    ensures
        r == spec_signum(x as int),
{
    if x > 0 {
        1
    } else if x < 0 {
        -1
    } else {
        0
    }
}

/// Multiplies, then divides rounding toward zero.
pub fn mul_div(a: i64, b: i64, q: i64) -> (r: i64)
    requires
        1 <= q,
        -0x4000_0000_0000_0000 <= a * b <= 0x4000_0000_0000_0000,
    ensures
        r == spec_mul_div(a as int, b as int, q as int),
        a * b >= 0 ==> 0 <= r <= a * b,
        a * b < 0 ==> a * b <= r <= 0,
{
    let p: i64 = a * b;
    if p < 0 {
        let m: u64 = ((-p) as u64) / (q as u64);
        proof {
            vstd::arithmetic::div_mod::lemma_div_nonincreasing((-p) as int, q as int);
        }
        -(m as i64)
    } else {
        let m: u64 = (p as u64) / (q as u64);
        proof {
            vstd::arithmetic::div_mod::lemma_div_nonincreasing(p as int, q as int);
        }
        m as i64
    }
}

/// Divides a non-negative value by a positive one, rounding down.
pub fn div_nn(p: i64, q: i64) -> (r: i64)
    requires
        0 <= p,
        1 <= q,
    ensures
        r == p as int / q as int,
        0 <= r <= p,
{
    let m: u64 = (p as u64) / (q as u64);
    proof {
        vstd::arithmetic::div_mod::lemma_div_nonincreasing(p as int, q as int);
    }
    m as i64
}

} // verus!
