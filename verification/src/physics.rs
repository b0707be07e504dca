//! Ball-versus-block collision resolution.
//!
//! Each frame, every surviving block is tested against the ball: the
//! closest point of the block's bounds to the ball centre decides the
//! hit (the effective collision radius is a quarter of the diameter,
//! half the visual radius — a deliberate quirk of the game), and the
//! direction from that point to the ball centre is classified into one
//! of eight sectors, each contributing a unit direction hint.  Struck
//! blocks are removed in the same pass, and all hints are merged into
//! one consensus vector — the sign of the component-wise sum — which is
//! applied to the ball's velocity once, so that several simultaneous
//! hits never reverse an axis twice.
//!
//! The sector boundaries sit at 25, 66, 115, 156, 205, 246, 295 and
//! 336 degrees.  Membership is decided by cross products against the
//! boundary directions, whose components come from the quarter-wave
//! sine table, so the classification is exact integer geometry.

use vstd::prelude::*;
use crate::fixed::spec_signum;
use crate::fixed::signum;
use crate::state::BallState;
use crate::state::Block;

verus! {

/// Cross product of two plane vectors; positive when `v` lies to the
/// counter-clockwise side of `u` (in screen coordinates: rotated from
/// `u` toward growing angles).
pub open spec fn spec_cross(ux: int, uy: int, vx: int, vy: int) -> int {
    ux * vy - uy * vx
}

/// The unit direction hint for a collision whose displacement from the
/// closest point to the ball centre is `(dx, dy)`.  Corner sectors about
/// 45, 135, 225 and 315 degrees push on both axes; the four edge
/// sectors in between push on one.
pub open spec fn spec_sector_vector(dx: int, dy: int) -> (int, int) {
    if spec_cross(29698, 13848, dx, dy) >= 0 && spec_cross(13328, 29935, dx, dy) < 0 {
        (1, 1)
    } else if spec_cross(13328, 29935, dx, dy) >= 0 && spec_cross(-13848, 29698, dx, dy) < 0 {
        (0, 1)
    } else if spec_cross(-13848, 29698, dx, dy) >= 0 && spec_cross(-29935, 13328, dx, dy) < 0 {
        (-1, 1)
    } else if spec_cross(-29935, 13328, dx, dy) >= 0 && spec_cross(-29698, -13848, dx, dy) < 0 {
        (1, 0)
    } else if spec_cross(-29698, -13848, dx, dy) >= 0 && spec_cross(-13328, -29935, dx, dy) < 0 {
        (-1, -1)
    } else if spec_cross(-13328, -29935, dx, dy) >= 0 && spec_cross(13848, -29698, dx, dy) < 0 {
        (0, -1)
    } else if spec_cross(13848, -29698, dx, dy) >= 0 && spec_cross(29935, -13328, dx, dy) < 0 {
        (1, -1)
    } else {
        (-1, 0)
    }
}

/// Every sector hint is a unit vector: each component is -1, 0 or 1.
pub proof fn lemma_sector_vector_unit(dx: int, dy: int)
    ensures
        -1 <= spec_sector_vector(dx, dy).0 <= 1,
        -1 <= spec_sector_vector(dx, dy).1 <= 1,
{
}

pub fn sector_vector(dx: i64, dy: i64) -> (v: (i64, i64))
    requires
        -0x80_0000 <= dx <= 0x80_0000,
        -0x80_0000 <= dy <= 0x80_0000,
    ensures
        (v.0 as int, v.1 as int) == spec_sector_vector(dx as int, dy as int),
{
    let c025: i64 = 29698 * dy - 13848 * dx;
    let c066: i64 = 13328 * dy - 29935 * dx;
    let c115: i64 = -(13848 * dy + 29698 * dx);
    let c156: i64 = -(29935 * dy + 13328 * dx);
    let c205: i64 = -c025;
    let c246: i64 = -c066;
    let c295: i64 = -c115;
    let c336: i64 = -c156;
    if c025 >= 0 && c066 < 0 {
        (1, 1)
    } else if c066 >= 0 && c115 < 0 {
        (0, 1)
    } else if c115 >= 0 && c156 < 0 {
        (-1, 1)
    } else if c156 >= 0 && c205 < 0 {
        (1, 0)
    } else if c205 >= 0 && c246 < 0 {
        (-1, -1)
    } else if c246 >= 0 && c295 < 0 {
        (0, -1)
    } else if c295 >= 0 && c336 < 0 {
        (1, -1)
    } else {
        (-1, 0)
    }
}

/// The closest point of an axis-aligned box to the ball centre, one
/// axis at a time: inside the box's span the centre itself, outside it
/// the nearer edge.  `tb` is (left, right, top, bottom).
pub open spec fn spec_closest_point(bp: (int, int), tp: (int, int), tb: (int, int, int, int)) -> (
    int,
    int,
) {
    (
        if bp.0 < tp.0 {
            if bp.0 >= tb.0 {
                bp.0
            } else {
                tb.0
            }
        } else {
            if bp.0 <= tb.1 {
                bp.0
            } else {
                tb.1
            }
        },
        if bp.1 < tp.1 {
            if bp.1 >= tb.2 {
                bp.1
            } else {
                tb.2
            }
        } else {
            if bp.1 <= tb.3 {
                bp.1
            } else {
                tb.3
            }
        },
    )
}

/// Whether the ball overlaps the box: the squared distance from the
/// closest point to the ball centre is under the square of a quarter
/// of the diameter.
pub open spec fn spec_hit(bp: (int, int), diameter: int, tp: (int, int), tb: (int, int, int, int)) -> bool {
    let cp = spec_closest_point(bp, tp, tb);
    let ddx = cp.0 - bp.0;
    let ddy = cp.1 - bp.1;
    ddx * ddx + ddy * ddy < (diameter / 4) * (diameter / 4)
}

/// A collision found this frame: where the ball was, and the unit
/// direction hint it contributes.  Never kept across frames.
#[derive(Clone, Copy, Debug)]
pub struct Collision {
    pub pos: (i64, i64),
    pub vector: (i64, i64),
    pub valid: bool,
}

impl Collision {
    /// The empty, invalid collision.
    pub fn new() -> (r: Collision)
        ensures
            r.pos == (0i64, 0i64),
            r.vector == (0i64, 0i64),
            !r.valid,
    {
        Collision { pos: (0, 0), vector: (0, 0), valid: false }
    }

    /// A valid collision at `position` with hint `vector`.
    pub fn from(position: (i64, i64), vector: (i64, i64)) -> (r: Collision)
        ensures
            r.pos == position,
            r.vector == vector,
            r.valid,
    {
        Collision { pos: position, vector: vector, valid: true }
    }

    /// Tests the ball against one block's bounds `tile_bounds` (left,
    /// right, top, bottom) around the centre `tile_pos`.  Returns a
    /// collision exactly when the closest point of the bounds is
    /// nearer to the ball centre than a quarter of its diameter.
    pub fn collides(ball_state: &BallState, tile_pos: (i64, i64), tile_bounds: (i64, i64, i64, i64)) -> (r:
        Option<Collision>)
        requires
            -0x40_0000 <= ball_state.pos.0 <= 0x40_0000,
            -0x40_0000 <= ball_state.pos.1 <= 0x40_0000,
            0 <= ball_state.diameter <= 0x1_0000,
            -0x40_0000 <= tile_bounds.0 <= 0x40_0000,
            -0x40_0000 <= tile_bounds.1 <= 0x40_0000,
            -0x40_0000 <= tile_bounds.2 <= 0x40_0000,
            -0x40_0000 <= tile_bounds.3 <= 0x40_0000,
        ensures
            ({
                let bp = (ball_state.pos.0 as int, ball_state.pos.1 as int);
                let tp = (tile_pos.0 as int, tile_pos.1 as int);
                let tb = (
                    tile_bounds.0 as int,
                    tile_bounds.1 as int,
                    tile_bounds.2 as int,
                    tile_bounds.3 as int,
                );
                let cp = spec_closest_point(bp, tp, tb);
                &&& r is Some <==> spec_hit(bp, ball_state.diameter as int, tp, tb)
                &&& r is Some ==> {
                    let col = r->Some_0;
                    &&& col.pos == ball_state.pos
                    &&& col.valid
                    &&& (col.vector.0 as int, col.vector.1 as int) == spec_sector_vector(
                        bp.0 - cp.0,
                        bp.1 - cp.1,
                    )
                }
            }),
    {
        let ball_pos = ball_state.pos;
        let ball_radius = crate::fixed::div_nn(ball_state.diameter, 4);

        let closest_point = (
            if ball_pos.0 < tile_pos.0 {
                if ball_pos.0 >= tile_bounds.0 {
                    ball_pos.0
                } else {
                    tile_bounds.0
                }
            } else {
                if ball_pos.0 <= tile_bounds.1 {
                    ball_pos.0
                } else {
                    tile_bounds.1
                }
            },
            if ball_pos.1 < tile_pos.1 {
                if ball_pos.1 >= tile_bounds.2 {
                    ball_pos.1
                } else {
                    tile_bounds.2
                }
            } else {
                if ball_pos.1 <= tile_bounds.3 {
                    ball_pos.1
                } else {
                    tile_bounds.3
                }
            },
        );

        let delta_pos = (closest_point.0 - ball_pos.0, closest_point.1 - ball_pos.1);
        proof {
            let ddx = delta_pos.0 as int;
            let ddy = delta_pos.1 as int;
            assert(0 <= ddx * ddx <= 0x80_0000 * 0x80_0000) by (nonlinear_arith)
                requires
                    -0x80_0000 <= ddx <= 0x80_0000,
            ;
            assert(0 <= ddy * ddy <= 0x80_0000 * 0x80_0000) by (nonlinear_arith)
                requires
                    -0x80_0000 <= ddy <= 0x80_0000,
            ;
            let br = ball_radius as int;
            assert(0 <= br * br <= 0x1_0000 * 0x1_0000) by (nonlinear_arith)
                requires
                    0 <= br <= 0x1_0000,
            ;
        }
        let square_distance = delta_pos.0 * delta_pos.0 + delta_pos.1 * delta_pos.1;

        if square_distance < ball_radius * ball_radius {
            let collision_point = (ball_pos.0 - closest_point.0, ball_pos.1 - closest_point.1);
            let vector = sector_vector(collision_point.0, collision_point.1);
            Some(Collision::from(ball_pos, vector))
        } else {
            None
        }
    }
}

/// Collision bounds of a block: its centre pushed out by the full
/// block size on every side, so the box is twice the drawn tile.
pub open spec fn spec_tile_bounds(p: (int, int), bs: (int, int)) -> (int, int, int, int) {
    (p.0 - bs.0, p.0 + bs.0, p.1 - bs.1, p.1 + bs.1)
}

/// Whether the ball at `bp` with the given diameter strikes `b`.
pub open spec fn spec_block_hit(b: Block, bp: (int, int), dia: int, bs: (int, int)) -> bool {
    let tp = (b.pos.0 as int, b.pos.1 as int);
    spec_hit(bp, dia, tp, spec_tile_bounds(tp, bs))
}

/// The direction hint a strike against `b` contributes.
pub open spec fn spec_block_vector(b: Block, bp: (int, int), bs: (int, int)) -> (int, int) {
    let tp = (b.pos.0 as int, b.pos.1 as int);
    let cp = spec_closest_point(bp, tp, spec_tile_bounds(tp, bs));
    spec_sector_vector(bp.0 - cp.0, bp.1 - cp.1)
}

/// The blocks of `s` the ball misses, in their original order.
pub open spec fn spec_surviving(s: Seq<Block>, bp: (int, int), dia: int, bs: (int, int)) -> Seq<
    Block,
>
    decreases s.len(),
{
    if s.len() == 0 {
        Seq::empty()
    } else {
        let rest = spec_surviving(s.drop_last(), bp, dia, bs);
        if spec_block_hit(s.last(), bp, dia, bs) {
            rest
        } else {
            rest.push(s.last())
        }
    }
}

/// The hints of the struck blocks of `s`, in block order.
pub open spec fn spec_hit_vectors(s: Seq<Block>, bp: (int, int), dia: int, bs: (int, int)) -> Seq<
    (int, int),
>
    decreases s.len(),
{
    if s.len() == 0 {
        Seq::empty()
    } else {
        let rest = spec_hit_vectors(s.drop_last(), bp, dia, bs);
        if spec_block_hit(s.last(), bp, dia, bs) {
            rest.push(spec_block_vector(s.last(), bp, bs))
        } else {
            rest
        }
    }
}

/// Removes every struck block from `blocks`, keeping the survivors in
/// their order, and returns one collision per struck block, in block
/// order.
pub fn collect_hits(ball: &BallState, blocks: &mut Vec<Block>, block_size: (i64, i64)) -> (cols:
    Vec<Collision>)
    requires
        -0x40_0000 <= ball.pos.0 <= 0x40_0000,
        -0x40_0000 <= ball.pos.1 <= 0x40_0000,
        0 <= ball.diameter <= 0x1_0000,
        0 <= block_size.0 <= 0x20_0000,
        0 <= block_size.1 <= 0x20_0000,
        forall|i: int|
            0 <= i < old(blocks)@.len() ==> {
                &&& -0x20_0000 <= (#[trigger] old(blocks)@[i]).pos.0 <= 0x20_0000
                &&& -0x20_0000 <= old(blocks)@[i].pos.1 <= 0x20_0000
            },
    ensures
        ({
            let bp = (ball.pos.0 as int, ball.pos.1 as int);
            let dia = ball.diameter as int;
            let bs = (block_size.0 as int, block_size.1 as int);
            &&& final(blocks)@ == spec_surviving(old(blocks)@, bp, dia, bs)
            &&& cols@.len() == spec_hit_vectors(old(blocks)@, bp, dia, bs).len()
            &&& forall|i: int|
                0 <= i < cols@.len() ==> {
                    &&& (#[trigger] cols@[i]).valid
                    &&& cols@[i].pos == ball.pos
                    &&& (cols@[i].vector.0 as int, cols@[i].vector.1 as int)
                        == spec_hit_vectors(old(blocks)@, bp, dia, bs)[i]
                    &&& -1 <= cols@[i].vector.0 <= 1
                    &&& -1 <= cols@[i].vector.1 <= 1
                }
        }),
{
    let ghost s0 = blocks@;
    let ghost bp = (ball.pos.0 as int, ball.pos.1 as int);
    let ghost dia = ball.diameter as int;
    let ghost bs = (block_size.0 as int, block_size.1 as int);
    let mut kept: Vec<Block> = Vec::new();
    let mut cols: Vec<Collision> = Vec::new();
    let original_len = blocks.len();
    let mut j: usize = 0;
    while j < original_len
        invariant
            original_len == s0.len(),
            j == original_len - blocks.len(),
            blocks@ =~= s0.skip(j as int),
            kept@ == spec_surviving(s0.take(j as int), bp, dia, bs),
            cols@.len() == spec_hit_vectors(s0.take(j as int), bp, dia, bs).len(),
            forall|i: int|
                0 <= i < cols@.len() ==> {
                    &&& (#[trigger] cols@[i]).valid
                    &&& cols@[i].pos == ball.pos
                    &&& (cols@[i].vector.0 as int, cols@[i].vector.1 as int)
                        == spec_hit_vectors(s0.take(j as int), bp, dia, bs)[i]
                    &&& -1 <= cols@[i].vector.0 <= 1
                    &&& -1 <= cols@[i].vector.1 <= 1
                },
            -0x40_0000 <= ball.pos.0 <= 0x40_0000,
            -0x40_0000 <= ball.pos.1 <= 0x40_0000,
            0 <= ball.diameter <= 0x1_0000,
            0 <= block_size.0 <= 0x20_0000,
            0 <= block_size.1 <= 0x20_0000,
            forall|i: int|
                0 <= i < s0.len() ==> {
                    &&& -0x20_0000 <= (#[trigger] s0[i]).pos.0 <= 0x20_0000
                    &&& -0x20_0000 <= s0[i].pos.1 <= 0x20_0000
                },
            bp == (ball.pos.0 as int, ball.pos.1 as int),
            dia == ball.diameter as int,
            bs == (block_size.0 as int, block_size.1 as int),
        decreases original_len - j,
    {
        let block = blocks.remove(0);
        proof {
            assert(s0.skip(j as int)[0] == s0[j as int]);
            assert(blocks@ =~= s0.skip(j as int + 1));
        }
        let tile_bounds = (
            block.pos.0 - block_size.0,
            block.pos.0 + block_size.0,
            block.pos.1 - block_size.1,
            block.pos.1 + block_size.1,
        );
        proof {
            assert(s0.take(j as int + 1).drop_last() =~= s0.take(j as int));
            assert(s0.take(j as int + 1).last() == s0[j as int]);
        }
        if let Some(collision) = Collision::collides(ball, block.pos, tile_bounds) {
            proof {
                lemma_sector_vector_unit(
                    bp.0 - spec_closest_point(
                        bp,
                        (block.pos.0 as int, block.pos.1 as int),
                        spec_tile_bounds((block.pos.0 as int, block.pos.1 as int), bs),
                    ).0,
                    bp.1 - spec_closest_point(
                        bp,
                        (block.pos.0 as int, block.pos.1 as int),
                        spec_tile_bounds((block.pos.0 as int, block.pos.1 as int), bs),
                    ).1,
                );
            }
            cols.push(collision);
        } else {
            kept.push(block);
        }
        j = j + 1;
    }
    proof {
        assert(s0.take(s0.len() as int) =~= s0);
    }
    *blocks = kept;
    cols
}

/// The resolution pass only removes: there are never more survivors
/// or strikes than blocks, and every survivor is one of the blocks.
pub proof fn lemma_surviving_bounds(s: Seq<Block>, bp: (int, int), dia: int, bs: (int, int))
    ensures
        spec_surviving(s, bp, dia, bs).len() <= s.len(),
        spec_hit_vectors(s, bp, dia, bs).len() <= s.len(),
        forall|k: int|
            0 <= k < spec_surviving(s, bp, dia, bs).len() ==> exists|j: int|
                0 <= j < s.len() && #[trigger] spec_surviving(s, bp, dia, bs)[k] == s[j],
    decreases s.len(),
{
    if s.len() > 0 {
        lemma_surviving_bounds(s.drop_last(), bp, dia, bs);
        let prev = spec_surviving(s.drop_last(), bp, dia, bs);
        let surv = spec_surviving(s, bp, dia, bs);
        assert forall|k: int| 0 <= k < surv.len() implies exists|j: int|
            0 <= j < s.len() && #[trigger] surv[k] == s[j] by {
            if k < prev.len() {
                assert(surv[k] == prev[k]);
                let j = choose|j: int| 0 <= j < s.drop_last().len() && prev[k] == s.drop_last()[j];
                assert(s.drop_last()[j] == s[j]);
                assert(0 <= j < s.len() && surv[k] == s[j]);
            } else {
                assert(surv[k] == s[s.len() - 1]);
            }
        }
    }
}

/// A frame with at least one strike pins the ball near the block
/// field: no block reaches below `h`, so the ball centre is within a
/// block half-height and a quarter diameter of it.
pub proof fn lemma_hits_imply_near(s: Seq<Block>, bp: (int, int), dia: int, bs: (int, int), h: int)
    requires
        spec_hit_vectors(s, bp, dia, bs).len() > 0,
        forall|i: int| 0 <= i < s.len() ==> (#[trigger] s[i]).pos.1 <= h,
        0 <= dia,
        0 <= bs.1,
    ensures
        bp.1 < h + bs.1 + dia / 4,
    decreases s.len(),
{
    let last = s.last();
    if spec_block_hit(last, bp, dia, bs) {
        let tp = (last.pos.0 as int, last.pos.1 as int);
        let tb = spec_tile_bounds(tp, bs);
        let cp = spec_closest_point(bp, tp, tb);
        let ddy = cp.1 - bp.1;
        let ddx = cp.0 - bp.0;
        let q = dia / 4;
        assert(s[s.len() - 1].pos.1 <= h);
        assert(cp.1 <= h + bs.1);
        assert(ddx * ddx >= 0) by (nonlinear_arith);
        assert(-q < ddy) by (nonlinear_arith)
            requires
                ddy * ddy < q * q,
                0 <= q,
        ;
    } else {
        assert(forall|i: int|
            0 <= i < s.drop_last().len() ==> (#[trigger] s.drop_last()[i]).pos.1 <= h);
        lemma_hits_imply_near(s.drop_last(), bp, dia, bs, h);
    }
}

/// Sum of the horizontal components of a list of hints.
pub open spec fn spec_sum_x(vs: Seq<(int, int)>) -> int
    decreases vs.len(),
{
    if vs.len() == 0 {
        0
    } else {
        spec_sum_x(vs.drop_last()) + vs.last().0
    }
}

/// Sum of the vertical components of a list of hints.
pub open spec fn spec_sum_y(vs: Seq<(int, int)>) -> int
    decreases vs.len(),
{
    if vs.len() == 0 {
        0
    } else {
        spec_sum_y(vs.drop_last()) + vs.last().1
    }
}

/// The consensus of several simultaneous hints: the sign of the
/// component-wise sum, each axis on its own.
pub open spec fn spec_consensus(vs: Seq<(int, int)>) -> (int, int) {
    (spec_signum(spec_sum_x(vs)), spec_signum(spec_sum_y(vs)))
}

/// The hints of a list of collisions, in order.
pub open spec fn spec_vectors_of(cs: Seq<Collision>) -> Seq<(int, int)> {
    cs.map_values(|c: Collision| (c.vector.0 as int, c.vector.1 as int))
}

/// Folds all collisions of the frame into one: invalid when there was
/// none, otherwise valid and carrying the consensus hint.
pub fn consensus(cols: &Vec<Collision>) -> (r: Collision)
    requires
        cols@.len() <= 0x1000_0000,
        forall|i: int|
            0 <= i < cols@.len() ==> {
                &&& -1 <= (#[trigger] cols@[i]).vector.0 <= 1
                &&& -1 <= cols@[i].vector.1 <= 1
            },
    ensures
        r.valid == (cols@.len() > 0),
        (r.vector.0 as int, r.vector.1 as int) == spec_consensus(spec_vectors_of(cols@)),
        -1 <= r.vector.0 <= 1,
        -1 <= r.vector.1 <= 1,
{
    let ghost vs = spec_vectors_of(cols@);
    let mut sx: i64 = 0;
    let mut sy: i64 = 0;
    let mut i: usize = 0;
    while i < cols.len()
        invariant
            i <= cols@.len() <= 0x1000_0000,
            vs == spec_vectors_of(cols@),
            vs.len() == cols@.len(),
            sx == spec_sum_x(vs.take(i as int)),
            sy == spec_sum_y(vs.take(i as int)),
            -(i as int) <= sx <= i as int,
            -(i as int) <= sy <= i as int,
            forall|k: int|
                0 <= k < cols@.len() ==> {
                    &&& -1 <= (#[trigger] cols@[k]).vector.0 <= 1
                    &&& -1 <= cols@[k].vector.1 <= 1
                },
        decreases cols@.len() - i,
    {
        proof {
            assert(vs.take(i as int + 1).drop_last() =~= vs.take(i as int));
            assert(vs.take(i as int + 1).last() == vs[i as int]);
        }
        sx = sx + cols[i].vector.0;
        sy = sy + cols[i].vector.1;
        i = i + 1;
    }
    proof {
        assert(vs.take(vs.len() as int) =~= vs);
    }
    if cols.len() > 0 {
        Collision { pos: (0, 0), vector: (signum(sx), signum(sy)), valid: true }
    } else {
        proof {
            assert(vs.len() == 0);
        }
        Collision { pos: (0, 0), vector: (0, 0), valid: false }
    }
}

/// One axis of the consensus applied to a velocity: reversed when the
/// hint is nonzero and disagrees with the velocity's sign, untouched
/// otherwise.
pub open spec fn spec_apply_axis(v: int, c: int) -> int {
    if c != 0 && spec_signum(v) != c {
        -v
    } else {
        v
    }
}

/// Applies the consensus to the ball's velocity, each axis on its own.
/// An invalid consensus (no collision this frame) changes nothing.
pub fn apply_consensus(spd: (i64, i64), hint: &Collision) -> (r: (i64, i64))
    requires
        -0x10_0000 <= spd.0 <= 0x10_0000,
        -0x10_0000 <= spd.1 <= 0x10_0000,
    ensures
        !hint.valid ==> r == spd,
        hint.valid ==> r.0 as int == spec_apply_axis(spd.0 as int, hint.vector.0 as int),
        hint.valid ==> r.1 as int == spec_apply_axis(spd.1 as int, hint.vector.1 as int),
        r.0 as int == spd.0 as int || r.0 as int == -(spd.0 as int),
        r.1 as int == spd.1 as int || r.1 as int == -(spd.1 as int),
{
    if !hint.valid {
        return spd;
    }
    let mut vx = spd.0;
    let mut vy = spd.1;
    if hint.vector.0 != 0 && signum(vx) != hint.vector.0 {
        vx = -vx;
    }
    if hint.vector.1 != 0 && signum(vy) != hint.vector.1 {
        vy = -vy;
    }
    (vx, vy)
}

} // verus!
