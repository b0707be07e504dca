//! Game-object state: ball, paddle and blocks.
//!
//! All lengths are fixed-point sub-pixel units ([`crate::fixed::FP`] to
//! the pixel).  The sizes and speeds are fixed ratios of the play-field
//! height and width, recomputed whenever the viewport is fitted.

use vstd::prelude::*;

verus! {

/// Ball diameter: 5/144 of the play-field height (about 0.0347).
pub open spec fn spec_ball_diameter(h: int) -> int {
    h * 5 / 144
}

/// Ball base speed per frame: 1/72 of the play-field height.
pub open spec fn spec_ball_basespd(h: int) -> int {
    h / 72
}

/// Resting height of a stopped ball, just above the paddle.
pub open spec fn spec_ball_rest_y(h: int) -> int {
    21 * h / 24
}

/// Paddle top edge: 11/12 of the play-field height.
pub open spec fn spec_paddle_ypos(h: int) -> int {
    11 * h / 12
}

/// Paddle base speed per frame: three quarters of the ball's.
pub open spec fn spec_paddle_basespd(h: int) -> int {
    h / 96
}

/// Paddle width: 3/25 of the play-field width (0.12).
pub open spec fn spec_paddle_w(w: int) -> int {
    w * 3 / 25
}

/// Paddle height: the same ratio as the ball diameter.
pub open spec fn spec_paddle_h(h: int) -> int {
    h * 5 / 144
}

/// Block width: 3/50 of the play-field width (0.06).
pub open spec fn spec_block_w(w: int) -> int {
    w * 3 / 50
}

/// Block height: 5/96 of the play-field height (about 0.0521).
pub open spec fn spec_block_h(h: int) -> int {
    h * 5 / 96
}

/// For any capped play-field, every derived metric stays within the
/// bounds the well-formedness predicates ask for.
pub proof fn lemma_metric_bounds(w: int, h: int)
    requires
        256 <= w <= 327680,
        256 <= h <= 184320,
    ensures
        0 <= spec_ball_diameter(h) <= 6400,
        0 <= spec_ball_basespd(h) <= 2560,
        0 <= spec_ball_rest_y(h) <= h,
        0 <= spec_paddle_ypos(h) <= h,
        0 <= spec_paddle_basespd(h) <= 1920,
        0 <= spec_paddle_w(w) <= w,
        0 <= spec_paddle_h(h) <= 6400,
        0 <= spec_block_w(w) <= w,
        0 <= spec_block_h(h) <= h,
{
    vstd::arithmetic::div_mod::lemma_div_pos_is_pos(h * 5, 144);
    vstd::arithmetic::div_mod::lemma_div_is_ordered(h * 5, 921600, 144);
    vstd::arithmetic::div_mod::lemma_div_pos_is_pos(h, 72);
    vstd::arithmetic::div_mod::lemma_div_is_ordered(h, 184320, 72);
    vstd::arithmetic::div_mod::lemma_div_pos_is_pos(21 * h, 24);
    vstd::arithmetic::div_mod::lemma_div_is_ordered(21 * h, 24 * h, 24);
    vstd::arithmetic::div_mod::lemma_div_multiples_vanish(h, 24);
    vstd::arithmetic::div_mod::lemma_div_pos_is_pos(11 * h, 12);
    vstd::arithmetic::div_mod::lemma_div_is_ordered(11 * h, 12 * h, 12);
    vstd::arithmetic::div_mod::lemma_div_multiples_vanish(h, 12);
    vstd::arithmetic::div_mod::lemma_div_pos_is_pos(h, 96);
    vstd::arithmetic::div_mod::lemma_div_is_ordered(h, 184320, 96);
    vstd::arithmetic::div_mod::lemma_div_pos_is_pos(w * 3, 25);
    vstd::arithmetic::div_mod::lemma_div_is_ordered(w * 3, 25 * w, 25);
    vstd::arithmetic::div_mod::lemma_div_multiples_vanish(w, 25);
    vstd::arithmetic::div_mod::lemma_div_pos_is_pos(w * 3, 50);
    vstd::arithmetic::div_mod::lemma_div_is_ordered(w * 3, 50 * w, 50);
    vstd::arithmetic::div_mod::lemma_div_multiples_vanish(w, 50);
    vstd::arithmetic::div_mod::lemma_div_pos_is_pos(h * 5, 96);
    vstd::arithmetic::div_mod::lemma_div_is_ordered(h * 5, 96 * h, 96);
    vstd::arithmetic::div_mod::lemma_div_multiples_vanish(h, 96);
    vstd::arithmetic::div_mod::lemma_div_is_ordered(921600, 921600, 144);
}

/// The ball: a disc that is either pinned above the paddle (`stopped`)
/// or integrating `spd` into `pos` every frame, leaving a bounded trail
/// of recent positions behind.
pub struct BallState {
    pub diameter: i64,
    pub pos: (i64, i64),
    pub spd: (i64, i64),
    pub stopped: bool,
    pub basespd: i64,
    /// Recent positions, oldest first; at most [`TRAIL_CAP`] long.
    pub afterimages: Vec<(i64, i64)>,
}

/// Capacity of the ball's trail.
pub const TRAIL_CAP: usize = 7;

impl BallState {
    /// Well-formedness against a play-field of `w` by `h` sub-pixels:
    /// the metrics are small, the velocity never exceeds the base
    /// speed on either axis, the position stays near the play-field,
    /// a ball still descending has not sunk far below the bottom (one
    /// more step stops it there), and the trail respects its capacity.
    pub open spec fn wf(self, w: int, h: int) -> bool {
        &&& 0 <= self.diameter <= 16384
        &&& 0 <= self.basespd <= 8192
        &&& -self.basespd <= self.spd.0 <= self.basespd
        &&& -self.basespd <= self.spd.1 <= self.basespd
        &&& -8192 <= self.pos.0 <= w + 8192
        &&& -8192 <= self.pos.1 <= h + 0x8000
        &&& !self.stopped && self.spd.1 > 0 ==> self.pos.1 - self.diameter / 2 <= h + 16384
        &&& self.afterimages@.len() <= 7
    }

    /// A stopped ball at the origin with everything zeroed; the real
    /// metrics arrive with the first viewport fit.
    pub fn new() -> (r: BallState)
        ensures
            r.diameter == 0,
            r.pos == (0i64, 0i64),
            r.spd == (0i64, 0i64),
            r.stopped,
            r.basespd == 0,
            r.afterimages@.len() == 0,
    {
        BallState {
            diameter: 0,
            pos: (0, 0),
            spd: (0, 0),
            stopped: true,
            basespd: 0,
            afterimages: Vec::new(),
        }
    }
}

/// The paddle: only its horizontal position moves within a frame; the
/// rest is derived from the viewport.
pub struct PaddleState {
    pub xpos: i64,
    pub ypos: i64,
    pub spd: i64,
    pub sz: (i64, i64),
    pub basespd: i64,
}

impl PaddleState {
    /// Well-formedness against a play-field of `w` by `h` sub-pixels.
    /// The horizontal position may leave the clamped range by at most
    /// one frame's travel (the frame that pauses the game moves the
    /// paddle but skips the clamp).
    pub open spec fn wf(self, w: int, h: int) -> bool {
        &&& 0 <= self.sz.0 <= w
        &&& 0 <= self.sz.1 <= 16384
        &&& 0 <= self.ypos <= h
        &&& 0 <= self.basespd <= 8192
        &&& 0 <= self.spd <= 2 * self.basespd
        &&& -0x8000 <= self.xpos <= w + 0x8000
    }

    /// A zero-sized paddle at the origin; the real metrics arrive with
    /// the first viewport fit.
    pub fn new() -> (r: PaddleState)
        ensures
            r.xpos == 0,
            r.ypos == 0,
            r.spd == 0,
            r.sz == (0i64, 0i64),
            r.basespd == 0,
    {
        PaddleState { xpos: 0, ypos: 0, spd: 0, sz: (0, 0), basespd: 0 }
    }
}

/// One destructible block of the level grid.
pub struct Block {
    /// Centre of the block.
    pub pos: (i64, i64),
    /// Fill colour, handed through to the renderer untouched.
    pub color: String,
    pub active: bool,
}

impl Block {
    /// The block's centre lies inside a play-field of `w` by `h`
    /// sub-pixels.
    pub open spec fn wf(self, w: int, h: int) -> bool {
        &&& 0 <= self.pos.0 <= w
        &&& 0 <= self.pos.1 <= h
    }
}

} // verus!
