//! The world: one value owning every piece of simulation state, driven
//! one frame at a time.
//!
//! A frame runs in a fixed order: latch the input and tilt snapshots,
//! flip the full-screen flag on its key edge, apply the held movement
//! keys to the paddle, launch the ball when asked, toggle the pause on
//! an Enter edge, and then — unless the frame ends paused — steer and
//! clamp the paddle, integrate the ball, and resolve block collisions,
//! before retiring the snapshots.  The
//! host supplies per frame only what it alone can know: its window
//! size (for the orientation test) and a fresh random draw for the
//! launch angle.

use vstd::prelude::*;
use vstd::string::StringExecFns;
use crate::fixed::FP;
use crate::fixed::div_nn;
use crate::fixed::mul_div;
use crate::fixed::spec_mul_div;
use crate::input::KeyType;
use crate::input::OrientationType;
use crate::input::KeyState;
use crate::input::TiltState;
use crate::input::DeviceTilt;
use crate::input::TILT_LIMIT;
use crate::state::BallState;
use crate::state::PaddleState;
use crate::state::Block;
use crate::state::spec_ball_diameter;
use crate::state::spec_ball_basespd;
use crate::state::spec_ball_rest_y;
use crate::state::spec_paddle_ypos;
use crate::state::spec_paddle_basespd;
use crate::state::spec_paddle_w;
use crate::state::spec_paddle_h;
use crate::state::spec_block_w;
use crate::state::spec_block_h;

verus! {

/// The whole game state.
pub struct World {
    /// Play-field size in whole pixels, capped at 1280 by 720.
    pub vwpsize: (u32, u32),
    pub pause: bool,
    pub fullscreen: bool,
    pub input: KeyState,
    pub tilt: TiltState,
    pub ball_state: BallState,
    pub paddle_state: PaddleState,
    /// Half-extent of a block's collision box on each axis (the drawn
    /// tile size; the collision box spans twice it).
    pub block_size: (i64, i64),
    /// Blocks still standing, in creation order.
    pub level_blocks: Vec<Block>,
    pub collided: bool,
}

impl World {
    /// Play-field width in sub-pixels.
    pub open spec fn w_fp(self) -> int {
        self.vwpsize.0 as int * 256
    }

    /// Play-field height in sub-pixels.
    pub open spec fn h_fp(self) -> int {
        self.vwpsize.1 as int * 256
    }

    /// Well-formedness: the viewport is a real capped size, every
    /// object sits near the play-field, the viewport-derived metrics
    /// hold their defining ratios, tilt samples are bounded, and an
    /// unpaused frame always ends with the paddle clamped inside the
    /// play-field.
    pub open spec fn wf(self) -> bool {
        &&& 1 <= self.vwpsize.0 <= 1280
        &&& 1 <= self.vwpsize.1 <= 720
        &&& self.ball_state.wf(self.w_fp(), self.h_fp())
        &&& self.paddle_state.wf(self.w_fp(), self.h_fp())
        &&& self.ball_state.diameter == spec_ball_diameter(self.h_fp())
        &&& self.ball_state.basespd == spec_ball_basespd(self.h_fp())
        &&& self.paddle_state.ypos == spec_paddle_ypos(self.h_fp())
        &&& self.paddle_state.basespd == spec_paddle_basespd(self.h_fp())
        &&& self.paddle_state.sz.0 == spec_paddle_w(self.w_fp())
        &&& self.paddle_state.sz.1 == spec_paddle_h(self.h_fp())
        &&& self.block_size.0 == spec_block_w(self.w_fp())
        &&& self.block_size.1 == spec_block_h(self.h_fp())
        &&& !self.pause ==> self.paddle_state.sz.0 / 2 <= self.paddle_state.xpos <= self.w_fp()
            - self.paddle_state.sz.0 / 2
        &&& self.level_blocks@.len() <= 81
        &&& forall|i: int|
            0 <= i < self.level_blocks@.len() ==> (#[trigger] self.level_blocks@[i]).wf(
                self.w_fp(),
                self.h_fp(),
            )
        &&& self.tilt.live.spec_bounded()
        &&& self.tilt.current.spec_bounded()
        &&& self.tilt.previous.spec_bounded()
    }

    /// Builds the world for a host window of `host_w` by `host_h`
    /// pixels: the play-field is the window capped at 1280 by 720,
    /// the metrics are fitted to it, the paddle starts centred with
    /// the ball stopped on it, and a 9 by 9 grid of blocks stands in
    /// the upper middle of the field.
    pub fn new(host_w: u32, host_h: u32) -> (r: World)
        requires
            1 <= host_w,
            1 <= host_h,
        ensures
            r.wf(),
            r.vwpsize.0 == if host_w > 1280 { 1280u32 } else { host_w },
            r.vwpsize.1 == if host_h > 720 { 720u32 } else { host_h },
            !r.pause,
            !r.fullscreen,
            !r.collided,
            r.input.live == crate::input::KeyFlags::spec_released(),
            r.input.current == crate::input::KeyFlags::spec_released(),
            r.input.previous == crate::input::KeyFlags::spec_released(),
            !r.tilt.active,
            r.tilt.orient == OrientationType::Unknown,
            r.tilt.live == DeviceTilt::spec_level(),
            r.tilt.current == DeviceTilt::spec_level(),
            r.tilt.previous == DeviceTilt::spec_level(),
            r.ball_state.stopped,
            r.ball_state.pos == (0i64, 0i64),
            r.ball_state.spd == (0i64, 0i64),
            r.ball_state.afterimages@.len() == 0,
            r.paddle_state.xpos == r.w_fp() / 2,
            r.level_blocks@.len() == 81,
            forall|i: int, j: int|
                0 <= i < 9 && 0 <= j < 9 ==> {
                    let b = #[trigger] r.level_blocks@[i * 9 + j];
                    &&& b.pos.0 == r.w_fp() / 4 + i * spec_block_w(r.w_fp())
                    &&& b.pos.1 == r.h_fp() / 4 + j * spec_block_h(r.h_fp())
                    &&& b.active
                },
    {
        let vw: u32 = if host_w > 1280 { 1280 } else { host_w };
        let vh: u32 = if host_h > 720 { 720 } else { host_h };
        let mut world = World {
            vwpsize: (vw, vh),
            pause: false,
            fullscreen: false,
            input: KeyState::new(),
            tilt: TiltState::new(),
            ball_state: BallState::new(),
            paddle_state: PaddleState::new(),
            block_size: (0, 0),
            level_blocks: Vec::new(),
            collided: false,
        };

        world.fit_viewport();
        let w_fp: i64 = (vw as i64) * FP;
        let h_fp: i64 = (vh as i64) * FP;
        world.paddle_state.xpos = div_nn(w_fp, 2);

        world.block_size = (div_nn(w_fp * 3, 50), div_nn(h_fp * 5, 96));
        let bw = world.block_size.0;
        let bh = world.block_size.1;
        let base_x = div_nn(w_fp, 4);
        let base_y = div_nn(h_fp, 4);
        proof {
            let wi = w_fp as int;
            let hi = h_fp as int;
            vstd::arithmetic::div_mod::lemma_mul_hoist_inequality(8, wi * 3, 50);
            vstd::arithmetic::div_mod::lemma_fundamental_div_mod(wi * 24, 50);
            vstd::arithmetic::div_mod::lemma_fundamental_div_mod(wi, 4);
            vstd::arithmetic::div_mod::lemma_mul_hoist_inequality(8, hi * 5, 96);
            vstd::arithmetic::div_mod::lemma_fundamental_div_mod(hi * 40, 96);
            vstd::arithmetic::div_mod::lemma_fundamental_div_mod(hi, 4);
            assert(8 * (bw as int) <= wi * 24 / 50);
            assert(8 * (bh as int) <= hi * 40 / 96);
        }
        let mut blocks: Vec<Block> = Vec::new();
        let mut i: usize = 0;
        while i < 9
            invariant
                blocks@.len() == i * 9,
                0 <= bw,
                8 * bw + base_x <= w_fp,
                0 <= bh,
                8 * bh + base_y <= h_fp,
                0 <= base_x,
                0 <= base_y,
                i <= 9,
                forall|a: int, b: int|
                    0 <= a < i && 0 <= b < 9 ==> {
                        let blk = #[trigger] blocks@[a * 9 + b];
                        &&& blk.pos.0 == base_x + a * bw
                        &&& blk.pos.1 == base_y + b * bh
                        &&& blk.active
                    },
            decreases 9 - i,
        {
            let mut j: usize = 0;
            while j < 9
                invariant
                    blocks@.len() == i * 9 + j,
                    i < 9,
                    j <= 9,
                    0 <= bw,
                    8 * bw + base_x <= w_fp,
                    0 <= bh,
                    8 * bh + base_y <= h_fp,
                    0 <= base_x,
                    0 <= base_y,
                    forall|a: int, b: int|
                        (0 <= a < i && 0 <= b < 9) || (a == i && 0 <= b < j) ==> {
                            let blk = #[trigger] blocks@[a * 9 + b];
                            &&& blk.pos.0 == base_x + a * bw
                            &&& blk.pos.1 == base_y + b * bh
                            &&& blk.active
                        },
                decreases 9 - j,
            {
                proof {
                    assert(0 <= (i as int) * bw <= 8 * bw) by (nonlinear_arith)
                        requires
                            0 <= i < 9,
                            0 <= bw,
                    ;
                    assert(0 <= (j as int) * bh <= 8 * bh) by (nonlinear_arith)
                        requires
                            0 <= j < 9,
                            0 <= bh,
                    ;
                }
                let pos = (base_x + (i as i64) * bw, base_y + (j as i64) * bh);
                let block = Block { pos, color: block_color(), active: true };
                blocks.push(block);
                j = j + 1;
            }
            i = i + 1;
        }
        world.level_blocks = blocks;

        proof {
            crate::state::lemma_metric_bounds(w_fp as int, h_fp as int);
            vstd::arithmetic::div_mod::lemma_fundamental_div_mod(w_fp as int, 2);
            vstd::arithmetic::div_mod::lemma_div_is_ordered(
                spec_paddle_w(w_fp as int),
                w_fp as int,
                2,
            );
            assert forall|a: int, b: int| 0 <= a < 9 && 0 <= b < 9 implies (
            #[trigger] world.level_blocks@[a * 9 + b]).wf(world.w_fp(), world.h_fp()) by {
                assert(0 <= a * bw <= 8 * bw) by (nonlinear_arith)
                    requires
                        0 <= a < 9,
                        0 <= bw,
                ;
                assert(0 <= b * bh <= 8 * bh) by (nonlinear_arith)
                    requires
                        0 <= b < 9,
                        0 <= bh,
                ;
            }
            assert forall|k: int| 0 <= k < world.level_blocks@.len() implies (
            #[trigger] world.level_blocks@[k]).wf(world.w_fp(), world.h_fp()) by {
                let a = k / 9;
                let b = k % 9;
                vstd::arithmetic::div_mod::lemma_fundamental_div_mod(k, 9);
                vstd::arithmetic::div_mod::lemma_div_pos_is_pos(k, 9);
                vstd::arithmetic::div_mod::lemma_remainder_lower(k, 9);
                vstd::arithmetic::div_mod::lemma_remainder_upper(k, 9);
                assert(a < 9) by (nonlinear_arith)
                    requires
                        k == 9 * a + b,
                        0 <= b < 9,
                        k < 81,
                ;
                assert(world.level_blocks@[a * 9 + b].wf(world.w_fp(), world.h_fp()));
            }
        }
        world
    }

    /// Re-derives every viewport-dependent metric from the play-field
    /// size: ball diameter and base speed, paddle position, size and
    /// speeds.  The paddle's current speed is reset to its base.
    pub fn fit_viewport(&mut self)
        requires
            1 <= old(self).vwpsize.0 <= 1280,
            1 <= old(self).vwpsize.1 <= 720,
        ensures
            final(self).ball_state.diameter == spec_ball_diameter(old(self).h_fp()),
            final(self).ball_state.basespd == spec_ball_basespd(old(self).h_fp()),
            final(self).paddle_state.ypos == spec_paddle_ypos(old(self).h_fp()),
            final(self).paddle_state.basespd == spec_paddle_basespd(old(self).h_fp()),
            final(self).paddle_state.spd == spec_paddle_basespd(old(self).h_fp()),
            final(self).paddle_state.sz.0 == spec_paddle_w(old(self).w_fp()),
            final(self).paddle_state.sz.1 == spec_paddle_h(old(self).h_fp()),
            final(self).ball_state.pos == old(self).ball_state.pos,
            final(self).ball_state.spd == old(self).ball_state.spd,
            final(self).ball_state.stopped == old(self).ball_state.stopped,
            final(self).ball_state.afterimages == old(self).ball_state.afterimages,
            final(self).paddle_state.xpos == old(self).paddle_state.xpos,
            final(self).vwpsize == old(self).vwpsize,
            final(self).pause == old(self).pause,
            final(self).fullscreen == old(self).fullscreen,
            final(self).input == old(self).input,
            final(self).tilt == old(self).tilt,
            final(self).block_size == old(self).block_size,
            final(self).level_blocks == old(self).level_blocks,
            final(self).collided == old(self).collided,
    {
        let w_fp: i64 = (self.vwpsize.0 as i64) * FP;
        let h_fp: i64 = (self.vwpsize.1 as i64) * FP;

        self.ball_state.diameter = div_nn(h_fp * 5, 144);
        self.ball_state.basespd = div_nn(h_fp, 72);

        self.paddle_state.ypos = div_nn(11 * h_fp, 12);
        self.paddle_state.basespd = div_nn(h_fp, 96);
        self.paddle_state.spd = self.paddle_state.basespd;
        self.paddle_state.sz = (div_nn(w_fp * 3, 25), div_nn(h_fp * 5, 144));
    }

    /// The full-screen request: like Enter, the FullScreen key is an
    /// edge trigger — fresh in the frame snapshot and absent from the
    /// previous one.  On the edge the flag flips and the metrics are
    /// refitted.  Each frame runs this once; the host performs its
    /// actual window switch when it sees the flag change, or when
    /// `true` comes back from a direct call.
    pub fn toggle_fullscreen(&mut self) -> (toggled: bool)
        requires
            old(self).wf(),
        ensures
            final(self).wf(),
            toggled == old(self).input.spec_edge_pressed(KeyType::FullScreen),
            final(self).fullscreen == (old(self).fullscreen != toggled),
            final(self).input == old(self).input,
            final(self).tilt == old(self).tilt,
            final(self).pause == old(self).pause,
            final(self).vwpsize == old(self).vwpsize,
            final(self).ball_state.pos == old(self).ball_state.pos,
            final(self).ball_state.spd == old(self).ball_state.spd,
            final(self).ball_state.stopped == old(self).ball_state.stopped,
            final(self).ball_state.afterimages == old(self).ball_state.afterimages,
            final(self).ball_state.diameter == old(self).ball_state.diameter,
            final(self).ball_state.basespd == old(self).ball_state.basespd,
            final(self).paddle_state.xpos == old(self).paddle_state.xpos,
            final(self).paddle_state.ypos == old(self).paddle_state.ypos,
            final(self).paddle_state.sz == old(self).paddle_state.sz,
            final(self).paddle_state.basespd == old(self).paddle_state.basespd,
            final(self).paddle_state.spd == old(self).paddle_state.basespd,
            final(self).level_blocks == old(self).level_blocks,
            final(self).block_size == old(self).block_size,
            final(self).collided == old(self).collided,
    {
        let fullscreen_press = self.input.edge_pressed(KeyType::FullScreen);

        if fullscreen_press {
            self.fullscreen = !self.fullscreen;
        }

        self.fit_viewport();
        fullscreen_press
    }

    /// Asynchronous key write from the host's event handlers: only the
    /// `live` generation moves, so a frame in progress is undisturbed.
    pub fn input_dispatch(&mut self, key: KeyType, pressed: bool)
        requires
            old(self).wf(),
        ensures
            final(self).wf(),
            final(self).input.live.spec_get(key) == pressed,
            forall|k: KeyType|
                k != key ==> #[trigger] final(self).input.live.spec_get(k) == old(
                    self,
                ).input.live.spec_get(k),
            final(self).input.current == old(self).input.current,
            final(self).input.previous == old(self).input.previous,
            final(self).tilt == old(self).tilt,
            final(self).pause == old(self).pause,
            final(self).fullscreen == old(self).fullscreen,
            final(self).vwpsize == old(self).vwpsize,
            final(self).ball_state == old(self).ball_state,
            final(self).paddle_state == old(self).paddle_state,
            final(self).level_blocks == old(self).level_blocks,
            final(self).block_size == old(self).block_size,
            final(self).collided == old(self).collided,
    {
        self.input.dispatch(key, pressed);
    }

    /// Asynchronous tilt sample from the host, already converted to
    /// radians in [`crate::input::TILT_ONE`]-scaled fixed point.  The
    /// first sample ever received marks the tilt source active for
    /// good.
    pub fn feed_tilt(&mut self, abs: i64, alpha: i64, beta: i64, gamma: i64)
        requires
            old(self).wf(),
            -TILT_LIMIT <= abs <= TILT_LIMIT,
            -TILT_LIMIT <= alpha <= TILT_LIMIT,
            -TILT_LIMIT <= beta <= TILT_LIMIT,
            -TILT_LIMIT <= gamma <= TILT_LIMIT,
        ensures
            final(self).wf(),
            final(self).tilt.active,
            final(self).tilt.live == (DeviceTilt { abs, alpha, beta, gamma }),
            final(self).tilt.current == old(self).tilt.current,
            final(self).tilt.previous == old(self).tilt.previous,
            final(self).tilt.orient == old(self).tilt.orient,
            final(self).input == old(self).input,
            final(self).pause == old(self).pause,
            final(self).fullscreen == old(self).fullscreen,
            final(self).vwpsize == old(self).vwpsize,
            final(self).ball_state == old(self).ball_state,
            final(self).paddle_state == old(self).paddle_state,
            final(self).level_blocks == old(self).level_blocks,
            final(self).block_size == old(self).block_size,
            final(self).collided == old(self).collided,
    {
        self.tilt.active = true;
        self.tilt.live = DeviceTilt { abs, alpha, beta, gamma };
    }
}

/// The ball's state at the end of a frame, before collision
/// resolution: what one step of motion leaves behind.
pub ghost struct BallFrame {
    pub pos: (int, int),
    pub spd: (int, int),
    pub stopped: bool,
    pub trail: Seq<(int, int)>,
}

/// The trail of a ball as a sequence of mathematical points.
pub open spec fn spec_trail_of(b: BallState) -> Seq<(int, int)> {
    b.afterimages@.map_values(|p: (i64, i64)| (p.0 as int, p.1 as int))
}

/// A horizontal position clamped so a box of half-width `ph` around it
/// stays inside `[0, w]`.
pub open spec fn spec_clamp_x(x: int, ph: int, w: int) -> int {
    if x - ph < 0 {
        ph
    } else if x + ph > w {
        w - ph
    } else {
        x
    }
}

/// One integration step of a moving ball: move by the velocity, clamp
/// and reflect at the side and top walls, fall out at the bottom (the
/// step that leaves the whole ball below the play-field stops it),
/// bounce off the paddle while descending through its band, and record
/// the position in the trail, oldest entry out first.
///
/// The bounce overlap is tested against the span the ball reached
/// before wall reflection, while the bounce ratio reads the reflected
/// position; the paddle span is the one the paddle had before its own
/// clamp.  Both choices are deliberate quirks of the game's feel.
pub open spec fn spec_ball_move(
    pos: (int, int),
    spd: (int, int),
    diameter: int,
    basespd: int,
    trail: Seq<(int, int)>,
    pre_x: int,
    ph: int,
    pypos: int,
    psz1: int,
    w: int,
    h: int,
) -> BallFrame {
    let p1 = (pos.0 + spd.0, pos.1 + spd.1);
    let r = diameter / 2;
    let reflect_left = p1.0 - r < 0 && spd.0 < 0;
    let reflect_right = !reflect_left && p1.0 + r > w && spd.0 > 0;
    let x2 = if reflect_left {
        r
    } else if reflect_right {
        w - r
    } else {
        p1.0
    };
    let vx2 = if reflect_left || reflect_right {
        -spd.0
    } else {
        spd.0
    };
    let reflect_top = p1.1 - r < 0 && spd.1 < 0;
    let fell_out = !reflect_top && p1.1 - r > h && spd.1 > 0;
    let y2 = if reflect_top {
        r
    } else {
        p1.1
    };
    let vy2 = if reflect_top {
        -spd.1
    } else {
        spd.1
    };
    let pleft = pre_x - ph;
    let pright = pre_x + ph;
    let bounce = vy2 > 0 && p1.1 + r >= pypos && p1.1 + r <= pypos + psz1 && p1.0 + r >= pleft
        && p1.0 - r <= pright;
    let spd3 = if bounce {
        let ratio0 = 32768 - spec_mul_div(x2 - pleft, 65536, pright - pleft);
        let ratio = if ratio0 > 32768 {
            32768int
        } else if ratio0 < -32768 {
            -32768int
        } else {
            ratio0
        };
        let theta = 900 + spec_mul_div(450, ratio, 32768);
        crate::trig::spec_velocity_at(basespd, theta)
    } else {
        (vx2, vy2)
    };
    let evicted = if trail.len() >= 7 {
        trail.subrange(1, trail.len() as int)
    } else {
        trail
    };
    BallFrame { pos: (x2, y2), spd: spd3, stopped: fell_out, trail: evicted.push((x2, y2)) }
}

impl World {
    /// The pause edge: Enter fresh in this frame's snapshot, absent
    /// from the previous one.
    pub open spec fn spec_enter_edge(self) -> bool {
        self.input.live.enter && !self.input.previous.enter
    }

    /// The pause flag after this frame: flipped exactly on the edge.
    pub open spec fn spec_pause_after(self) -> bool {
        self.pause != self.spec_enter_edge()
    }

    /// The full-screen edge: FullScreen fresh in this frame's
    /// snapshot, absent from the previous one.
    pub open spec fn spec_fullscreen_edge(self) -> bool {
        self.input.live.fullscreen && !self.input.previous.fullscreen
    }

    /// The paddle speed this frame: doubled while A is held,
    /// re-evaluated from the base speed every frame.
    pub open spec fn spec_paddle_spd_after(self) -> int {
        if self.input.live.a {
            2 * self.paddle_state.basespd
        } else {
            self.paddle_state.basespd as int
        }
    }

    /// The paddle's horizontal position after the held movement keys;
    /// both directions may apply and then cancel.  Movement is skipped
    /// when the frame began paused.
    pub open spec fn spec_paddle_keys_x(self) -> int {
        let s = self.spec_paddle_spd_after();
        let x0 = self.paddle_state.xpos as int;
        let x1 = if !self.pause && self.input.live.left {
            x0 - s
        } else {
            x0
        };
        if !self.pause && self.input.live.right {
            x1 + s
        } else {
            x1
        }
    }

    /// The orientation after this frame: reclassified from the host
    /// window's proportions while tilt is active and the frame began
    /// unpaused, kept otherwise.
    pub open spec fn spec_orient_after(self, host_w: int, host_h: int) -> OrientationType {
        if self.tilt.active && !self.pause {
            if host_h > host_w {
                OrientationType::Portrait
            } else {
                OrientationType::Landscape
            }
        } else {
            self.tilt.orient
        }
    }

    /// The roll component of this frame's tilt snapshot.
    pub open spec fn spec_tilt_beta(self) -> int {
        if self.tilt.active {
            self.tilt.live.beta as int
        } else {
            self.tilt.current.beta as int
        }
    }

    /// The paddle's horizontal position after tilt steering: with a
    /// classified orientation the key movement is overwritten by the
    /// field centre offset in proportion to the roll — level tilt
    /// holds the centre — scaled harder in landscape (3.5) than in
    /// portrait (3.0); tilt and keyboard are mutually exclusive within
    /// a frame, and tilt wins.
    pub open spec fn spec_paddle_steer_x(self, host_w: int, host_h: int) -> int {
        let orient = self.spec_orient_after(host_w, host_h);
        if orient != OrientationType::Unknown {
            let halfwidth = self.w_fp() / 2;
            let spin = self.spec_tilt_beta();
            if orient == OrientationType::Portrait {
                halfwidth + spec_mul_div(halfwidth, spin * 3, 65536)
            } else {
                halfwidth + spec_mul_div(halfwidth, spin * 7, 131072)
            }
        } else {
            self.spec_paddle_keys_x()
        }
    }

    /// Half the paddle's width: the clamp margin.
    pub open spec fn spec_paddle_ph(self) -> int {
        self.paddle_state.sz.0 as int / 2
    }

    /// The paddle's horizontal position at the end of the frame:
    /// steered and clamped into the play-field when the frame ends
    /// unpaused; the raw key movement otherwise (the frame that turns
    /// the pause on skips steering and clamping).
    pub open spec fn spec_paddle_x_after(self, host_w: int, host_h: int) -> int {
        if !self.spec_pause_after() {
            spec_clamp_x(
                self.spec_paddle_steer_x(host_w, host_h),
                self.spec_paddle_ph(),
                self.w_fp(),
            )
        } else {
            self.spec_paddle_keys_x()
        }
    }

    /// Whether this frame launches the ball: S held, the frame began
    /// unpaused, and the ball stands stopped.
    pub open spec fn spec_launch_now(self) -> bool {
        !self.pause && self.input.live.s && self.ball_state.stopped
    }

    /// The ball's velocity after the launch check: a launch draws the
    /// angle `67.5 + rand/10` degrees and sends the ball upward at
    /// base speed; otherwise the velocity stands.
    pub open spec fn spec_spd_launched(self, rand: int) -> (int, int) {
        if self.spec_launch_now() {
            crate::trig::spec_velocity_at(self.ball_state.basespd as int, 675 + rand)
        } else {
            (self.ball_state.spd.0 as int, self.ball_state.spd.1 as int)
        }
    }

    /// Whether the ball is still stopped once the launch check ran.
    pub open spec fn spec_stopped_launched(self) -> bool {
        self.ball_state.stopped && !self.spec_launch_now()
    }

    /// The ball at the end of the frame, before collision resolution:
    /// untouched (but for a launch) when the frame ends paused, pinned
    /// to the paddle with a cleared trail while stopped, one step of
    /// motion otherwise.
    #[verifier::opaque]
    pub open spec fn spec_ball_frame(self, host_w: int, host_h: int, rand: int) -> BallFrame {
        let sp = self.spec_spd_launched(rand);
        let stopped1 = self.spec_stopped_launched();
        let pos0 = (self.ball_state.pos.0 as int, self.ball_state.pos.1 as int);
        let trail0 = spec_trail_of(self.ball_state);
        if self.spec_pause_after() {
            BallFrame { pos: pos0, spd: sp, stopped: stopped1, trail: trail0 }
        } else if stopped1 {
            BallFrame {
                pos: (self.spec_paddle_x_after(host_w, host_h), spec_ball_rest_y(self.h_fp())),
                spd: sp,
                stopped: true,
                trail: Seq::empty(),
            }
        } else {
            spec_ball_move(
                pos0,
                sp,
                self.ball_state.diameter as int,
                self.ball_state.basespd as int,
                trail0,
                self.spec_paddle_steer_x(host_w, host_h),
                self.spec_paddle_ph(),
                self.paddle_state.ypos as int,
                self.paddle_state.sz.1 as int,
                self.w_fp(),
                self.h_fp(),
            )
        }
    }

    /// The direction hints of this frame's block strikes, in block
    /// order, against the ball's end-of-frame position.
    #[verifier::opaque]
    pub open spec fn spec_frame_hits(self, host_w: int, host_h: int, rand: int) -> Seq<(int, int)> {
        let bf = self.spec_ball_frame(host_w, host_h, rand);
        crate::physics::spec_hit_vectors(
            self.level_blocks@,
            bf.pos,
            self.ball_state.diameter as int,
            (self.block_size.0 as int, self.block_size.1 as int),
        )
    }

    /// The ball's velocity at the end of the frame: on an unpaused
    /// frame, the consensus of the strikes applied to the integrated
    /// velocity; a paused frame resolves nothing.
    #[verifier::opaque]
    pub open spec fn spec_spd_after(self, host_w: int, host_h: int, rand: int) -> (int, int) {
        let bf = self.spec_ball_frame(host_w, host_h, rand);
        if !self.spec_pause_after() {
            let c = crate::physics::spec_consensus(self.spec_frame_hits(host_w, host_h, rand));
            (
                crate::physics::spec_apply_axis(bf.spd.0, c.0),
                crate::physics::spec_apply_axis(bf.spd.1, c.1),
            )
        } else {
            bf.spd
        }
    }

    /// The blocks that survive the frame, in order: on an unpaused
    /// frame every struck block is gone; a paused frame keeps all.
    #[verifier::opaque]
    pub open spec fn spec_blocks_after(self, host_w: int, host_h: int, rand: int) -> Seq<Block> {
        if !self.spec_pause_after() {
            let bf = self.spec_ball_frame(host_w, host_h, rand);
            crate::physics::spec_surviving(
                self.level_blocks@,
                bf.pos,
                self.ball_state.diameter as int,
                (self.block_size.0 as int, self.block_size.1 as int),
            )
        } else {
            self.level_blocks@
        }
    }

    /// Runs one frame: latches the input and tilt snapshots, flips
    /// the full-screen flag on its key edge, applies the held movement
    /// keys, launches the ball on S, toggles the pause on an Enter
    /// edge, and — unless the frame ends paused — steers and clamps
    /// the paddle, integrates the ball, and resolves block collisions;
    /// finally retires the snapshots.  `host_w` and
    /// `host_h` are the host window's current proportions (for the
    /// orientation test) and `launch_rand` a fresh uniform draw from
    /// `[0, 460)` in tenth-degrees for the launch angle.
    #[verifier::rlimit(100)]
    pub fn update(&mut self, host_w: u32, host_h: u32, launch_rand: u32)
        requires
            old(self).wf(),
            launch_rand < 460,
        ensures
            final(self).wf(),
            final(self).input.live == old(self).input.live,
            final(self).input.current == old(self).input.live,
            final(self).input.previous == old(self).input.live,
            final(self).tilt.active == old(self).tilt.active,
            final(self).tilt.live == old(self).tilt.live,
            old(self).tilt.active ==> final(self).tilt.current == old(self).tilt.live
                && final(self).tilt.previous == old(self).tilt.live,
            !old(self).tilt.active ==> final(self).tilt.current == old(self).tilt.current
                && final(self).tilt.previous == old(self).tilt.previous,
            final(self).tilt.orient == old(self).spec_orient_after(host_w as int, host_h as int),
            final(self).pause == old(self).spec_pause_after(),
            final(self).fullscreen == (old(self).fullscreen != old(self).spec_fullscreen_edge()),
            final(self).vwpsize == old(self).vwpsize,
            final(self).block_size == old(self).block_size,
            final(self).ball_state.diameter == old(self).ball_state.diameter,
            final(self).ball_state.basespd == old(self).ball_state.basespd,
            final(self).paddle_state.ypos == old(self).paddle_state.ypos,
            final(self).paddle_state.sz == old(self).paddle_state.sz,
            final(self).paddle_state.basespd == old(self).paddle_state.basespd,
            final(self).paddle_state.spd as int == old(self).spec_paddle_spd_after(),
            final(self).paddle_state.xpos as int == old(self).spec_paddle_x_after(
                host_w as int,
                host_h as int,
            ),
            ({
                let bf = old(self).spec_ball_frame(host_w as int, host_h as int, launch_rand as int);
                &&& (final(self).ball_state.pos.0 as int, final(self).ball_state.pos.1 as int)
                    == bf.pos
                &&& final(self).ball_state.stopped == bf.stopped
                &&& spec_trail_of(final(self).ball_state) == bf.trail
            }),
            (final(self).ball_state.spd.0 as int, final(self).ball_state.spd.1 as int) == old(
                self,
            ).spec_spd_after(host_w as int, host_h as int, launch_rand as int),
            final(self).level_blocks@ == old(self).spec_blocks_after(
                host_w as int,
                host_h as int,
                launch_rand as int,
            ),
            final(self).collided == if !old(self).spec_pause_after() {
                false
            } else {
                old(self).collided
            },
    {
        let ghost hw = host_w as int;
        let ghost hh = host_h as int;
        let ghost rand = launch_rand as int;
        let w_fp: i64 = (self.vwpsize.0 as i64) * FP;
        let h_fp: i64 = (self.vwpsize.1 as i64) * FP;
        proof {
            crate::state::lemma_metric_bounds(w_fp as int, h_fp as int);
        }

        self.begin_frame_phase(host_w, host_h, launch_rand);

        // Everything below is frozen while the frame ends paused.
        if !self.pause {
            self.run_physics(host_w, host_h, launch_rand, Ghost(*old(self)));
        } else {
            proof {
                reveal(World::spec_ball_frame);
                reveal(World::spec_frame_hits);
                reveal(World::spec_spd_after);
                reveal(World::spec_blocks_after);
                let bf = old(self).spec_ball_frame(hw, hh, rand);
                assert((self.ball_state.pos.0 as int, self.ball_state.pos.1 as int) == bf.pos);
                assert(self.ball_state.stopped == bf.stopped);
                assert(spec_trail_of(self.ball_state) =~= bf.trail);
                assert((self.ball_state.spd.0 as int, self.ball_state.spd.1 as int)
                    == old(self).spec_spd_after(hw, hh, rand));
                assert(self.level_blocks@ == old(self).spec_blocks_after(hw, hh, rand));
            }
        }

        // Retire the snapshots.
        self.input.commit_frame();
        if self.tilt.active {
            self.tilt.commit_frame();
        }
    }



    /// The opening of every frame: latches the input and tilt
    /// snapshots, reclassifies the orientation, flips the full-screen
    /// flag on its edge, applies the held movement keys to the paddle,
    /// launches the stopped ball while S is held, and toggles the
    /// pause on the Enter edge.  The paddle clamp and all physics come
    /// after, in the unpaused tail.
    #[verifier::rlimit(100)]
    fn begin_frame_phase(&mut self, host_w: u32, host_h: u32, launch_rand: u32)
        requires
            old(self).wf(),
            launch_rand < 460,
        ensures
            final(self).input.live == old(self).input.live,
            final(self).input.current == old(self).input.live,
            final(self).input.previous == old(self).input.previous,
            final(self).tilt.active == old(self).tilt.active,
            final(self).tilt.live == old(self).tilt.live,
            old(self).tilt.active ==> final(self).tilt.current == old(self).tilt.live,
            !old(self).tilt.active ==> final(self).tilt.current == old(self).tilt.current,
            final(self).tilt.previous == old(self).tilt.previous,
            final(self).tilt.orient == old(self).spec_orient_after(host_w as int, host_h as int),
            final(self).fullscreen == (old(self).fullscreen != old(self).spec_fullscreen_edge()),
            final(self).pause == old(self).spec_pause_after(),
            final(self).vwpsize == old(self).vwpsize,
            final(self).block_size == old(self).block_size,
            final(self).level_blocks == old(self).level_blocks,
            final(self).collided == old(self).collided,
            final(self).paddle_state.xpos as int == old(self).spec_paddle_keys_x(),
            final(self).paddle_state.spd as int == old(self).spec_paddle_spd_after(),
            final(self).paddle_state.ypos == old(self).paddle_state.ypos,
            final(self).paddle_state.sz == old(self).paddle_state.sz,
            final(self).paddle_state.basespd == old(self).paddle_state.basespd,
            -0x8000 <= final(self).paddle_state.xpos <= old(self).w_fp() + 0x8000,
            final(self).ball_state.pos == old(self).ball_state.pos,
            final(self).ball_state.afterimages == old(self).ball_state.afterimages,
            final(self).ball_state.diameter == old(self).ball_state.diameter,
            final(self).ball_state.basespd == old(self).ball_state.basespd,
            (final(self).ball_state.spd.0 as int, final(self).ball_state.spd.1 as int) == old(
                self,
            ).spec_spd_launched(launch_rand as int),
            final(self).ball_state.stopped == old(self).spec_stopped_launched(),
            -final(self).ball_state.basespd <= final(self).ball_state.spd.0
                <= final(self).ball_state.basespd,
            -final(self).ball_state.basespd <= final(self).ball_state.spd.1
                <= final(self).ball_state.basespd,
            !final(self).ball_state.stopped && final(self).ball_state.spd.1 > 0
                ==> final(self).ball_state.pos.1 - final(self).ball_state.diameter / 2
                <= old(self).h_fp() + 16384,
    {
        self.latch_frame(host_w, host_h);
        self.key_phase(launch_rand);
        proof {
            if !self.ball_state.stopped && self.ball_state.spd.1 > 0 {
                assert(!old(self).spec_launch_now() || self.ball_state.spd.1 <= 0);
                assert(!old(self).ball_state.stopped && old(self).ball_state.spd.1 > 0);
            }
        }
    }


    /// Latches the input and tilt snapshots for the frame,
    /// reclassifies the orientation from the host proportions, and
    /// flips the full-screen flag on its key edge.
    fn latch_frame(&mut self, host_w: u32, host_h: u32)
        ensures
            final(self).input.live == old(self).input.live,
            final(self).input.current == old(self).input.live,
            final(self).input.previous == old(self).input.previous,
            final(self).tilt.active == old(self).tilt.active,
            final(self).tilt.live == old(self).tilt.live,
            old(self).tilt.active ==> final(self).tilt.current == old(self).tilt.live,
            !old(self).tilt.active ==> final(self).tilt.current == old(self).tilt.current,
            final(self).tilt.previous == old(self).tilt.previous,
            final(self).tilt.orient == old(self).spec_orient_after(host_w as int, host_h as int),
            final(self).fullscreen == (old(self).fullscreen != old(self).spec_fullscreen_edge()),
            final(self).pause == old(self).pause,
            final(self).vwpsize == old(self).vwpsize,
            final(self).ball_state == old(self).ball_state,
            final(self).paddle_state == old(self).paddle_state,
            final(self).level_blocks == old(self).level_blocks,
            final(self).block_size == old(self).block_size,
            final(self).collided == old(self).collided,
    {
        self.input.begin_frame();

        if self.tilt.active {
            self.tilt.begin_frame();
            if !self.pause {
                if host_h > host_w {
                    self.tilt.orient = OrientationType::Portrait;
                } else {
                    self.tilt.orient = OrientationType::Landscape;
                }
            }
        }

        // The full-screen flag flips exactly on the key's edge.
        self.fullscreen = self.fullscreen != self.input.edge_pressed(KeyType::FullScreen);
    }

    /// Processes the latched keys: re-evaluates the paddle speed,
    /// applies the held movement keys, launches the stopped ball
    /// while S is held, and toggles the pause on the Enter edge.
    fn key_phase(&mut self, launch_rand: u32)
        requires
            launch_rand < 460,
            0 <= old(self).ball_state.basespd <= 8192,
            0 <= old(self).paddle_state.basespd <= 8192,
            -0x10_0000 <= old(self).paddle_state.xpos <= 0x10_0000,
        ensures
            ({
                let k = old(self).input.current;
                let s = if k.a {
                    2 * old(self).paddle_state.basespd
                } else {
                    old(self).paddle_state.basespd as int
                };
                let x1 = if !old(self).pause && k.left {
                    old(self).paddle_state.xpos - s
                } else {
                    old(self).paddle_state.xpos as int
                };
                let x2 = if !old(self).pause && k.right {
                    x1 + s
                } else {
                    x1
                };
                let launching = !old(self).pause && k.s && old(self).ball_state.stopped;
                &&& final(self).paddle_state.spd as int == s
                &&& final(self).paddle_state.xpos as int == x2
                &&& final(self).ball_state.stopped == (old(self).ball_state.stopped
                    && !launching)
                &&& launching ==> (
                    final(self).ball_state.spd.0 as int,
                    final(self).ball_state.spd.1 as int,
                ) == crate::trig::spec_velocity_at(
                    old(self).ball_state.basespd as int,
                    675 + launch_rand as int,
                ) && final(self).ball_state.spd.1 <= 0
                &&& !launching ==> final(self).ball_state.spd == old(self).ball_state.spd
                &&& final(self).pause == (old(self).pause != (k.enter
                    && !old(self).input.previous.enter))
            }),
            final(self).ball_state.spd == old(self).ball_state.spd || (
            -old(self).ball_state.basespd <= final(self).ball_state.spd.0
                <= old(self).ball_state.basespd
                && -old(self).ball_state.basespd <= final(self).ball_state.spd.1
                <= old(self).ball_state.basespd),
            final(self).input == old(self).input,
            final(self).tilt == old(self).tilt,
            final(self).fullscreen == old(self).fullscreen,
            final(self).vwpsize == old(self).vwpsize,
            final(self).ball_state.pos == old(self).ball_state.pos,
            final(self).ball_state.afterimages == old(self).ball_state.afterimages,
            final(self).ball_state.diameter == old(self).ball_state.diameter,
            final(self).ball_state.basespd == old(self).ball_state.basespd,
            final(self).paddle_state.ypos == old(self).paddle_state.ypos,
            final(self).paddle_state.sz == old(self).paddle_state.sz,
            final(self).paddle_state.basespd == old(self).paddle_state.basespd,
            final(self).level_blocks == old(self).level_blocks,
            final(self).block_size == old(self).block_size,
            final(self).collided == old(self).collided,
    {
        self.paddle_state.spd = if self.input.held(KeyType::A) {
            2 * self.paddle_state.basespd
        } else {
            self.paddle_state.basespd
        };
        if !self.pause {
            if self.input.held(KeyType::Left) {
                self.paddle_state.xpos = self.paddle_state.xpos - self.paddle_state.spd;
            }
            if self.input.held(KeyType::Right) {
                self.paddle_state.xpos = self.paddle_state.xpos + self.paddle_state.spd;
            }
        }

        // Launch the stopped ball while S is held.
        if !self.pause && self.input.held(KeyType::S) && self.ball_state.stopped {
            let v = crate::trig::velocity_at(self.ball_state.basespd, 675 + launch_rand as i64);
            self.ball_state.spd = v;
            self.ball_state.stopped = false;
        }

        // The pause toggles exactly on the Enter edge.
        if self.input.edge_pressed(KeyType::Enter) {
            self.pause = !self.pause;
        }
    }

    /// Steers and clamps the paddle for an unpaused frame end, and
    /// hands back the pre-clamp position the bounce test uses.
    fn settle_paddle(&mut self, host_w: u32, host_h: u32, Ghost(w0): Ghost<World>) -> (pre_x: i64)
        requires
            w0.wf(),
            !w0.spec_pause_after(),
            old(self).vwpsize == w0.vwpsize,
            old(self).tilt.active == w0.tilt.active,
            w0.tilt.active ==> old(self).tilt.current == w0.tilt.live,
            !w0.tilt.active ==> old(self).tilt.current == w0.tilt.current,
            old(self).tilt.orient == w0.spec_orient_after(host_w as int, host_h as int),
            w0.tilt.live.spec_bounded(),
            w0.tilt.current.spec_bounded(),
            old(self).paddle_state.xpos as int == w0.spec_paddle_keys_x(),
            old(self).paddle_state.sz == w0.paddle_state.sz,
        ensures
            final(self).paddle_state.xpos as int == w0.spec_paddle_x_after(
                host_w as int,
                host_h as int,
            ),
            pre_x as int == w0.spec_paddle_steer_x(host_w as int, host_h as int),
            -0x4000_0000 <= pre_x <= 0x4000_0000,
            final(self).paddle_state.sz.0 / 2 <= final(self).paddle_state.xpos <= w0.w_fp()
                - final(self).paddle_state.sz.0 / 2,
            final(self).paddle_state.spd == old(self).paddle_state.spd,
            final(self).paddle_state.ypos == old(self).paddle_state.ypos,
            final(self).paddle_state.sz == old(self).paddle_state.sz,
            final(self).paddle_state.basespd == old(self).paddle_state.basespd,
            final(self).vwpsize == old(self).vwpsize,
            final(self).pause == old(self).pause,
            final(self).fullscreen == old(self).fullscreen,
            final(self).input == old(self).input,
            final(self).tilt == old(self).tilt,
            final(self).ball_state == old(self).ball_state,
            final(self).level_blocks == old(self).level_blocks,
            final(self).block_size == old(self).block_size,
            final(self).collided == old(self).collided,
    {
        let w_fp: i64 = (self.vwpsize.0 as i64) * FP;
        proof {
            crate::state::lemma_metric_bounds(w_fp as int, w0.h_fp());
        }

        // Tilt steering overwrites the key movement outright.
        if self.tilt.orient != OrientationType::Unknown {
            let spin = self.tilt.current.beta;
            let portrait = self.tilt.orient == OrientationType::Portrait;
            self.paddle_state.xpos = steer_x(w_fp, spin, portrait);
        }
        let pre_x = self.paddle_state.xpos;
        proof {
            assert(pre_x as int == w0.spec_paddle_steer_x(host_w as int, host_h as int));
        }

        // Clamp the paddle into the play-field.
        let ph = div_nn(self.paddle_state.sz.0, 2);
        proof {
            vstd::arithmetic::div_mod::lemma_fundamental_div_mod(self.paddle_state.sz.0 as int, 2);
            vstd::arithmetic::div_mod::lemma_fundamental_div_mod(w_fp as int, 2);
            vstd::arithmetic::div_mod::lemma_div_is_ordered(30, self.paddle_state.sz.0 as int, 2);
        }
        if self.paddle_state.xpos - ph < 0 {
            self.paddle_state.xpos = ph;
        } else if self.paddle_state.xpos + ph > w_fp {
            self.paddle_state.xpos = w_fp - ph;
        }
        pre_x
    }

    /// Moves the ball for an unpaused frame end: pinned to the paddle
    /// while stopped, one step of motion otherwise.  The paddle must
    /// already be settled for the frame.
    fn settle_ball(
        &mut self,
        pre_x: i64,
        host_w: u32,
        host_h: u32,
        launch_rand: u32,
        Ghost(w0): Ghost<World>,
    )
        requires
            w0.wf(),
            launch_rand < 460,
            !w0.spec_pause_after(),
            old(self).vwpsize == w0.vwpsize,
            old(self).ball_state.diameter == w0.ball_state.diameter,
            old(self).ball_state.basespd == w0.ball_state.basespd,
            old(self).ball_state.pos == w0.ball_state.pos,
            old(self).ball_state.afterimages == w0.ball_state.afterimages,
            (old(self).ball_state.spd.0 as int, old(self).ball_state.spd.1 as int)
                == w0.spec_spd_launched(launch_rand as int),
            old(self).ball_state.stopped == w0.spec_stopped_launched(),
            -old(self).ball_state.basespd <= old(self).ball_state.spd.0 <= old(
                self,
            ).ball_state.basespd,
            -old(self).ball_state.basespd <= old(self).ball_state.spd.1 <= old(
                self,
            ).ball_state.basespd,
            !old(self).ball_state.stopped && old(self).ball_state.spd.1 > 0 ==> old(
                self,
            ).ball_state.pos.1 - old(self).ball_state.diameter / 2 <= w0.h_fp() + 16384,
            old(self).paddle_state.xpos as int == w0.spec_paddle_x_after(
                host_w as int,
                host_h as int,
            ),
            pre_x as int == w0.spec_paddle_steer_x(host_w as int, host_h as int),
            -0x4000_0000 <= pre_x <= 0x4000_0000,
            old(self).paddle_state.ypos == w0.paddle_state.ypos,
            old(self).paddle_state.sz == w0.paddle_state.sz,
        ensures
            ({
                let bf = w0.spec_ball_frame(host_w as int, host_h as int, launch_rand as int);
                &&& (final(self).ball_state.pos.0 as int, final(self).ball_state.pos.1 as int)
                    == bf.pos
                &&& final(self).ball_state.stopped == bf.stopped
                &&& spec_trail_of(final(self).ball_state) == bf.trail
                &&& (final(self).ball_state.spd.0 as int, final(self).ball_state.spd.1 as int)
                    == bf.spd
            }),
            final(self).ball_state.diameter == old(self).ball_state.diameter,
            final(self).ball_state.basespd == old(self).ball_state.basespd,
            final(self).ball_state.wf(w0.w_fp(), w0.h_fp()),
            final(self).vwpsize == old(self).vwpsize,
            final(self).pause == old(self).pause,
            final(self).fullscreen == old(self).fullscreen,
            final(self).input == old(self).input,
            final(self).tilt == old(self).tilt,
            final(self).paddle_state == old(self).paddle_state,
            final(self).level_blocks == old(self).level_blocks,
            final(self).block_size == old(self).block_size,
            final(self).collided == old(self).collided,
    {
        let ghost hw = host_w as int;
        let ghost hh = host_h as int;
        let ghost rand = launch_rand as int;
        let h_fp: i64 = (self.vwpsize.1 as i64) * FP;
        let w_fp: i64 = (self.vwpsize.0 as i64) * FP;
        proof {
            crate::state::lemma_metric_bounds(w_fp as int, h_fp as int);
        }
        let ph = div_nn(self.paddle_state.sz.0, 2);
        proof {
            vstd::arithmetic::div_mod::lemma_div_is_ordered(30, self.paddle_state.sz.0 as int, 2);
            vstd::arithmetic::div_mod::lemma_div_is_ordered(
                self.paddle_state.sz.0 as int,
                w_fp as int,
                2,
            );
            vstd::arithmetic::div_mod::lemma_fundamental_div_mod(w_fp as int, 2);
        }
        if self.ball_state.stopped {
            self.ball_state.pos = (self.paddle_state.xpos, div_nn(21 * h_fp, 24));
            if self.ball_state.afterimages.len() > 0 {
                self.ball_state.afterimages = Vec::new();
            }
            proof {
                assert(spec_trail_of(self.ball_state) =~= Seq::<(int, int)>::empty());
            }
        } else {
            step_ball_moving(
                &mut self.ball_state,
                pre_x,
                ph,
                self.paddle_state.ypos,
                self.paddle_state.sz.1,
                w_fp,
                h_fp,
            );
        }
        proof {
            reveal(World::spec_ball_frame);
            let bf = w0.spec_ball_frame(hw, hh, rand);
            assert((self.ball_state.pos.0 as int, self.ball_state.pos.1 as int) == bf.pos);
            assert(self.ball_state.stopped == bf.stopped);
            assert(spec_trail_of(self.ball_state) == bf.trail);
        }
    }

    /// The unpaused tail of a frame: tilt steering, the paddle clamp,
    /// the ball's motion and the block resolution.  `w0` is the world
    /// as the frame began; the caller has already latched the
    /// snapshots, moved the paddle by the keys, launched the ball and
    /// settled the pause for this frame.
    #[verifier::rlimit(100)]
    fn run_physics(&mut self, host_w: u32, host_h: u32, launch_rand: u32, Ghost(w0): Ghost<World>)
        requires
            w0.wf(),
            launch_rand < 460,
            !w0.spec_pause_after(),
            !old(self).pause,
            old(self).vwpsize == w0.vwpsize,
            old(self).tilt.active == w0.tilt.active,
            w0.tilt.active ==> old(self).tilt.current == w0.tilt.live,
            !w0.tilt.active ==> old(self).tilt.current == w0.tilt.current,
            old(self).tilt.orient == w0.spec_orient_after(host_w as int, host_h as int),
            old(self).ball_state.diameter == w0.ball_state.diameter,
            old(self).ball_state.basespd == w0.ball_state.basespd,
            old(self).ball_state.pos == w0.ball_state.pos,
            old(self).ball_state.afterimages == w0.ball_state.afterimages,
            (old(self).ball_state.spd.0 as int, old(self).ball_state.spd.1 as int)
                == w0.spec_spd_launched(launch_rand as int),
            old(self).ball_state.stopped == w0.spec_stopped_launched(),
            -old(self).ball_state.basespd <= old(self).ball_state.spd.0 <= old(
                self,
            ).ball_state.basespd,
            -old(self).ball_state.basespd <= old(self).ball_state.spd.1 <= old(
                self,
            ).ball_state.basespd,
            !old(self).ball_state.stopped && old(self).ball_state.spd.1 > 0 ==> old(
                self,
            ).ball_state.pos.1 - old(self).ball_state.diameter / 2 <= w0.h_fp() + 16384,
            old(self).paddle_state.xpos as int == w0.spec_paddle_keys_x(),
            old(self).paddle_state.spd as int == w0.spec_paddle_spd_after(),
            old(self).paddle_state.ypos == w0.paddle_state.ypos,
            old(self).paddle_state.sz == w0.paddle_state.sz,
            old(self).paddle_state.basespd == w0.paddle_state.basespd,
            old(self).level_blocks == w0.level_blocks,
            old(self).block_size == w0.block_size,
        ensures
            final(self).vwpsize == old(self).vwpsize,
            final(self).pause == old(self).pause,
            final(self).fullscreen == old(self).fullscreen,
            final(self).input == old(self).input,
            final(self).tilt == old(self).tilt,
            final(self).block_size == old(self).block_size,
            final(self).ball_state.diameter == old(self).ball_state.diameter,
            final(self).ball_state.basespd == old(self).ball_state.basespd,
            final(self).paddle_state.ypos == old(self).paddle_state.ypos,
            final(self).paddle_state.sz == old(self).paddle_state.sz,
            final(self).paddle_state.basespd == old(self).paddle_state.basespd,
            final(self).paddle_state.spd == old(self).paddle_state.spd,
            final(self).paddle_state.xpos as int == w0.spec_paddle_x_after(
                host_w as int,
                host_h as int,
            ),
            ({
                let bf = w0.spec_ball_frame(host_w as int, host_h as int, launch_rand as int);
                &&& (final(self).ball_state.pos.0 as int, final(self).ball_state.pos.1 as int)
                    == bf.pos
                &&& final(self).ball_state.stopped == bf.stopped
                &&& spec_trail_of(final(self).ball_state) == bf.trail
            }),
            (final(self).ball_state.spd.0 as int, final(self).ball_state.spd.1 as int)
                == w0.spec_spd_after(host_w as int, host_h as int, launch_rand as int),
            final(self).level_blocks@ == w0.spec_blocks_after(
                host_w as int,
                host_h as int,
                launch_rand as int,
            ),
            !final(self).collided,
            final(self).ball_state.wf(w0.w_fp(), w0.h_fp()),
            final(self).paddle_state.sz.0 / 2 <= final(self).paddle_state.xpos <= w0.w_fp()
                - final(self).paddle_state.sz.0 / 2,
            final(self).level_blocks@.len() <= old(self).level_blocks@.len(),
            forall|i: int|
                0 <= i < final(self).level_blocks@.len() ==> (
                #[trigger] final(self).level_blocks@[i]).wf(w0.w_fp(), w0.h_fp()),
    {
        let ghost hw = host_w as int;
        let ghost hh = host_h as int;
        let ghost rand = launch_rand as int;
        let w_fp: i64 = (self.vwpsize.0 as i64) * FP;
        let h_fp: i64 = (self.vwpsize.1 as i64) * FP;
        proof {
            crate::state::lemma_metric_bounds(w_fp as int, h_fp as int);
        }

        let pre_x = self.settle_paddle(host_w, host_h, Ghost(w0));
        self.settle_ball(pre_x, host_w, host_h, launch_rand, Ghost(w0));

        // Resolve block collisions and apply the consensus.
        self.collided = false;
        resolve_collisions(
            &mut self.ball_state,
            &mut self.level_blocks,
            self.block_size,
            w_fp,
            h_fp,
        );
        proof {
            reveal(World::spec_ball_frame);
            reveal(World::spec_frame_hits);
            reveal(World::spec_spd_after);
            reveal(World::spec_blocks_after);
            let bf = w0.spec_ball_frame(hw, hh, rand);
            assert(self.level_blocks@ == w0.spec_blocks_after(hw, hh, rand));
            assert((self.ball_state.spd.0 as int, self.ball_state.spd.1 as int)
                == w0.spec_spd_after(hw, hh, rand));
        }
    }

}


/// Resolves this frame's block collisions against the ball's settled
/// position: removes every struck block and applies the consensus of
/// their direction hints to the ball's velocity, once.
#[verifier::rlimit(60)]
fn resolve_collisions(
    ball: &mut BallState,
    blocks: &mut Vec<Block>,
    block_size: (i64, i64),
    w_fp: i64,
    h_fp: i64,
)
    requires
        256 <= w_fp <= 327680,
        256 <= h_fp <= 184320,
        old(ball).wf(w_fp as int, h_fp as int),
        0 <= block_size.0 <= w_fp,
        0 <= block_size.1 <= 16384,
        old(blocks)@.len() <= 81,
        forall|i: int|
            0 <= i < old(blocks)@.len() ==> (#[trigger] old(blocks)@[i]).wf(
                w_fp as int,
                h_fp as int,
            ),
    ensures
        final(ball).pos == old(ball).pos,
        final(ball).stopped == old(ball).stopped,
        final(ball).afterimages == old(ball).afterimages,
        final(ball).diameter == old(ball).diameter,
        final(ball).basespd == old(ball).basespd,
        ({
            let bp = (old(ball).pos.0 as int, old(ball).pos.1 as int);
            let dia = old(ball).diameter as int;
            let bs = (block_size.0 as int, block_size.1 as int);
            let c = crate::physics::spec_consensus(
                crate::physics::spec_hit_vectors(old(blocks)@, bp, dia, bs),
            );
            &&& final(ball).spd.0 as int == crate::physics::spec_apply_axis(
                old(ball).spd.0 as int,
                c.0,
            )
            &&& final(ball).spd.1 as int == crate::physics::spec_apply_axis(
                old(ball).spd.1 as int,
                c.1,
            )
            &&& final(blocks)@ == crate::physics::spec_surviving(old(blocks)@, bp, dia, bs)
        }),
        final(ball).wf(w_fp as int, h_fp as int),
        final(blocks)@.len() <= old(blocks)@.len(),
        forall|i: int|
            0 <= i < final(blocks)@.len() ==> (#[trigger] final(blocks)@[i]).wf(
                w_fp as int,
                h_fp as int,
            ),
{
    let ghost bp = (ball.pos.0 as int, ball.pos.1 as int);
    let ghost dia = ball.diameter as int;
    let ghost bs = (block_size.0 as int, block_size.1 as int);
    let cols = crate::physics::collect_hits(ball, blocks, block_size);
    proof {
        crate::physics::lemma_surviving_bounds(old(blocks)@, bp, dia, bs);
        assert(crate::physics::spec_vectors_of(cols@) =~= crate::physics::spec_hit_vectors(
            old(blocks)@,
            bp,
            dia,
            bs,
        ));
    }
    let cons = crate::physics::consensus(&cols);
    ball.spd = crate::physics::apply_consensus(ball.spd, &cons);
    proof {
        if ball.spd.1 > 0 && !ball.stopped && !(old(ball).spd.1 > 0) {
            assert(crate::physics::spec_hit_vectors(old(blocks)@, bp, dia, bs).len() > 0);
            crate::physics::lemma_hits_imply_near(old(blocks)@, bp, dia, bs, h_fp as int);
        }
    }
}

/// The trail law: over any frame of a well-formed world, the ball's
/// trail never exceeds seven entries; on the frame that pins a stopped
/// ball it is cleared outright; and a moving ball appends its new
/// position, evicting the oldest entry once the trail is full.
pub proof fn lemma_trail_law(w: World, host_w: int, host_h: int, rand: int)
    requires
        w.wf(),
        0 <= rand < 460,
    ensures
        ({
            let bf = w.spec_ball_frame(host_w, host_h, rand);
            let before = spec_trail_of(w.ball_state);
            &&& bf.trail.len() <= 7
            &&& !w.spec_pause_after() && w.spec_stopped_launched() ==> bf.trail.len() == 0
            &&& !w.spec_pause_after() && !w.spec_stopped_launched() ==> {
                &&& bf.trail.last() == bf.pos
                &&& before.len() >= 7 ==> bf.trail == before.subrange(1, before.len() as int).push(
                    bf.pos,
                )
                &&& before.len() < 7 ==> bf.trail == before.push(bf.pos)
            }
        }),
{
    reveal(World::spec_ball_frame);
    reveal(spec_ball_move);
}

/// The launch law at the frame level: whenever a frame launches the
/// ball (S held, unpaused, ball stopped), the velocity it leaves with
/// points strictly upward, keeps its squared magnitude within minus
/// five to plus three per cent of the base speed squared, and stays
/// inside the cone of the launch-angle band.  The base-speed floor
/// excludes only play-fields under 36 pixels of height, where a single
/// fixed-point unit outweighs the stated tolerance.
pub proof fn lemma_launch_law(w: World, rand: int)
    requires
        w.wf(),
        0 <= rand < 460,
        w.spec_launch_now(),
        w.ball_state.basespd >= 128,
    ensures
        ({
            let v = w.spec_spd_launched(rand);
            let b = w.ball_state.basespd as int;
            &&& v.1 < 0
            &&& 100 * (v.0 * v.0 + v.1 * v.1) <= 103 * (b * b)
            &&& 100 * (v.0 * v.0 + v.1 * v.1) >= 95 * (b * b)
            &&& 32768 * (if v.0 >= 0 {
                v.0
            } else {
                -v.0
            }) <= 13848 * b
        }),
{
    crate::trig::lemma_launch_velocity(w.ball_state.basespd as int, rand);
}

/// The tilt-steered paddle position: the field centre, pushed aside
/// by half the play-field width scaled by the roll — three times as
/// hard in portrait, three and a half in landscape.
fn steer_x(w_fp: i64, spin: i64, portrait: bool) -> (x: i64)
    requires
        256 <= w_fp <= 327680,
        -TILT_LIMIT <= spin <= TILT_LIMIT,
    ensures
        portrait ==> x as int == w_fp as int / 2 + spec_mul_div(w_fp as int / 2, 3 * spin, 65536),
        !portrait ==> x as int == w_fp as int / 2 + spec_mul_div(
            w_fp as int / 2,
            7 * spin,
            131072,
        ),
        -0x4000_0000 <= x <= 0x4000_0000,
{
    let halfw = div_nn(w_fp, 2);
    proof {
        let hi = halfw as int;
        let si = spin as int;
        assert(-(163840 * (7 * 0x20_0000int)) <= hi * (3 * si) <= 163840 * (7 * 0x20_0000int)
            && -(163840 * (7 * 0x20_0000int)) <= hi * (7 * si) <= 163840 * (7 * 0x20_0000int))
            by (nonlinear_arith)
            requires
                0 <= hi <= 163840,
                -0x20_0000 <= si <= 0x20_0000,
        ;
        vstd::arithmetic::div_mod::lemma_div_is_ordered(hi * (3 * si), 163840 * (7 * 0x20_0000int), 65536)
            ;
        vstd::arithmetic::div_mod::lemma_div_is_ordered(
            -(hi * (3 * si)),
            163840 * (7 * 0x20_0000int),
            65536,
        );
        vstd::arithmetic::div_mod::lemma_div_is_ordered(hi * (7 * si), 163840 * (7 * 0x20_0000int), 131072)
            ;
        vstd::arithmetic::div_mod::lemma_div_is_ordered(
            -(hi * (7 * si)),
            163840 * (7 * 0x20_0000int),
            131072,
        );
    }
    if portrait {
        halfw + mul_div(halfw, 3 * spin, 65536)
    } else {
        halfw + mul_div(halfw, 7 * spin, 131072)
    }
}

/// Runs one step of motion on a moving ball, exactly as
/// [`spec_ball_move`] describes it, keeping the ball well-formed.
#[verifier::rlimit(80)]
fn step_ball_moving(
    ball: &mut BallState,
    pre_x: i64,
    ph: i64,
    pypos: i64,
    psz1: i64,
    w_fp: i64,
    h_fp: i64,
)
    requires
        !old(ball).stopped,
        0 <= old(ball).diameter <= 16384,
        0 <= old(ball).basespd <= 8192,
        -old(ball).basespd <= old(ball).spd.0 <= old(ball).basespd,
        -old(ball).basespd <= old(ball).spd.1 <= old(ball).basespd,
        -8192 <= old(ball).pos.0 <= w_fp + 8192,
        -8192 <= old(ball).pos.1 <= h_fp + 0x8000,
        old(ball).spd.1 > 0 ==> old(ball).pos.1 - old(ball).diameter / 2 <= h_fp + 16384,
        old(ball).afterimages@.len() <= 7,
        256 <= w_fp <= 327680,
        256 <= h_fp <= 184320,
        -0x4000_0000 <= pre_x <= 0x4000_0000,
        1 <= ph <= w_fp,
        0 <= pypos <= h_fp,
        0 <= psz1 <= 16384,
    ensures
        ({
            let bf = spec_ball_move(
                (old(ball).pos.0 as int, old(ball).pos.1 as int),
                (old(ball).spd.0 as int, old(ball).spd.1 as int),
                old(ball).diameter as int,
                old(ball).basespd as int,
                spec_trail_of(*old(ball)),
                pre_x as int,
                ph as int,
                pypos as int,
                psz1 as int,
                w_fp as int,
                h_fp as int,
            );
            &&& (final(ball).pos.0 as int, final(ball).pos.1 as int) == bf.pos
            &&& (final(ball).spd.0 as int, final(ball).spd.1 as int) == bf.spd
            &&& final(ball).stopped == bf.stopped
            &&& spec_trail_of(*final(ball)) == bf.trail
        }),
        final(ball).diameter == old(ball).diameter,
        final(ball).basespd == old(ball).basespd,
        -final(ball).basespd <= final(ball).spd.0 <= final(ball).basespd,
        -final(ball).basespd <= final(ball).spd.1 <= final(ball).basespd,
        -8192 <= final(ball).pos.0 <= w_fp + 8192,
        -8192 <= final(ball).pos.1 <= h_fp + 0x8000,
        !final(ball).stopped && final(ball).spd.1 > 0 ==> final(ball).pos.1 - final(ball).diameter
            / 2 <= h_fp,
        final(ball).afterimages@.len() <= 7,
{
    proof {
        reveal(spec_ball_move);
    }
    let r = div_nn(ball.diameter, 2);
    let p1 = (ball.pos.0 + ball.spd.0, ball.pos.1 + ball.spd.1);
    ball.pos = p1;

    if p1.0 - r < 0 && ball.spd.0 < 0 {
        ball.pos.0 = r;
        ball.spd.0 = -ball.spd.0;
    } else if p1.0 + r > w_fp && ball.spd.0 > 0 {
        ball.pos.0 = w_fp - r;
        ball.spd.0 = -ball.spd.0;
    }

    if p1.1 - r < 0 && ball.spd.1 < 0 {
        ball.pos.1 = r;
        ball.spd.1 = -ball.spd.1;
    } else if p1.1 - r > h_fp && ball.spd.1 > 0 {
        ball.stopped = true;
    }

    let pleft = pre_x - ph;
    let pright = pre_x + ph;
    if ball.spd.1 > 0 && p1.1 + r >= pypos && p1.1 + r <= pypos + psz1 && p1.0 + r >= pleft && p1.0
        - r <= pright {
        let ratio0 = 32768 - mul_div(ball.pos.0 - pleft, 65536, pright - pleft);
        let ratio = if ratio0 > 32768 {
            32768
        } else if ratio0 < -32768 {
            -32768
        } else {
            ratio0
        };
        proof {
            vstd::arithmetic::div_mod::lemma_div_is_ordered(450 * ratio as int, 14745600int, 32768);
            vstd::arithmetic::div_mod::lemma_div_multiples_vanish(450, 32768);
            vstd::arithmetic::div_mod::lemma_div_is_ordered(-(450 * ratio as int), 14745600int, 32768);
        }
        let theta = 900 + mul_div(450, ratio, 32768);
        let v = crate::trig::velocity_at(ball.basespd, theta);
        ball.spd = v;
    }

    if ball.afterimages.len() >= 7 {
        ball.afterimages.remove(0);
    }
    ball.afterimages.push(ball.pos);
    proof {
        assert(spec_trail_of(*ball) =~= spec_ball_move(
            (old(ball).pos.0 as int, old(ball).pos.1 as int),
            (old(ball).spd.0 as int, old(ball).spd.1 as int),
            old(ball).diameter as int,
            old(ball).basespd as int,
            spec_trail_of(*old(ball)),
            pre_x as int,
            ph as int,
            pypos as int,
            psz1 as int,
            w_fp as int,
            h_fp as int,
        ).trail);
    }
}

/// The colour every level block starts with.
fn block_color() -> (r: String)
    ensures
        r@ == "#fff"@,
{
    String::from_str("#fff")
}

} // verus!
