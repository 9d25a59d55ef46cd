//! The piece: shape catalog, authoritative logical state, and the whole-piece
//! bounding box used by collision checks.
//!
//! The catalog maps each of the seven canonical piece kinds to four block
//! grid positions and one pivot point. The logical state owns the composite
//! shape (four block centers in world units, relative to the pivot), the
//! world pose, and the fixed pivot; the pose changes only by composition with
//! a delta, never by direct assignment.

use crate::geometry::Aabb;
use crate::geometry::AabbModel;
use crate::geometry::Vec2;
use crate::isometry::FULL_TURN;
use crate::isometry::Isometry;
use crate::isometry::Pose;
use crate::isometry::QUARTER_TURN;
use crate::isometry::bounded_pose;
use crate::isometry::pose_within;
use crate::isometry::compose_fits;
use crate::isometry::compose_pose;
use crate::square_block::SquareBlock;
use crate::transformations::queue_fits;
use crate::transformations::queue_model;
use crate::transformations::tick_fits;
use crate::transformations::tick_model;
use crate::transformations::empty_model;
use vstd::math::max;
use vstd::math::min;
use vstd::prelude::*;

verus! {

/// Horizontal world coordinate at which a freshly spawned piece's pivot is
/// placed.
pub const SPAWN_X: i64 = 300;

/// Vertical world coordinate at which a freshly spawned piece's pivot is
/// placed.
pub const SPAWN_Y: i64 = 300;

/// Largest accepted block size, in world units.
pub const MAX_BLOCK_SIZE: i64 = 0x10000;

/// A block size must be even (the pivot sits on half-block boundaries and a
/// block's half extent must be whole) and small enough that all derived
/// geometry stays far from the integer limits.
pub open spec fn valid_block_size(bs: int) -> bool {
    &&& 2 <= bs <= MAX_BLOCK_SIZE
    &&& bs % 2 == 0
}

/// Which way the piece rotation system is oriented. Recorded at construction;
/// a declared extension point with no behavioral effect yet.
#[derive(Clone, Copy, Debug, PartialEq, Eq, Structural)]
pub enum Direction {
    LeftToRight,
    RightToLeft,
}

/// The seven canonical piece kinds.
#[derive(Clone, Copy, Debug, PartialEq, Eq, Structural)]
pub enum TetrominoShape {
    Z,
    S,
    O,
    L,
    J,
    I,
    T,
}

/// The catalog's grid position of block `i` of a piece kind, in block units.
/// Defined for `0 <= i < 4`; out-of-range indices repeat the last block.
pub open spec fn grid_offset(shape: TetrominoShape, i: int) -> Vec2 {
    match shape {
        TetrominoShape::Z => if i == 0 {
            Vec2 { x: 0, y: 0 }
        } else if i == 1 {
            Vec2 { x: 1, y: 0 }
        } else if i == 2 {
            Vec2 { x: 1, y: 1 }
        } else {
            Vec2 { x: 2, y: 1 }
        },
        TetrominoShape::S => if i == 0 {
            Vec2 { x: 1, y: 0 }
        } else if i == 1 {
            Vec2 { x: 2, y: 0 }
        } else if i == 2 {
            Vec2 { x: 0, y: 1 }
        } else {
            Vec2 { x: 1, y: 1 }
        },
        TetrominoShape::O => if i == 0 {
            Vec2 { x: 1, y: 0 }
        } else if i == 1 {
            Vec2 { x: 2, y: 0 }
        } else if i == 2 {
            Vec2 { x: 1, y: 1 }
        } else {
            Vec2 { x: 2, y: 1 }
        },
        TetrominoShape::L => if i == 0 {
            Vec2 { x: 1, y: 0 }
        } else if i == 1 {
            Vec2 { x: 1, y: 1 }
        } else if i == 2 {
            Vec2 { x: 1, y: 2 }
        } else {
            Vec2 { x: 2, y: 2 }
        },
        TetrominoShape::J => if i == 0 {
            Vec2 { x: 1, y: 0 }
        } else if i == 1 {
            Vec2 { x: 1, y: 1 }
        } else if i == 2 {
            Vec2 { x: 1, y: 2 }
        } else {
            Vec2 { x: 0, y: 2 }
        },
        TetrominoShape::I => if i == 0 {
            Vec2 { x: 0, y: 1 }
        } else if i == 1 {
            Vec2 { x: 1, y: 1 }
        } else if i == 2 {
            Vec2 { x: 2, y: 1 }
        } else {
            Vec2 { x: 3, y: 1 }
        },
        TetrominoShape::T => if i == 0 {
            Vec2 { x: 1, y: 0 }
        } else if i == 1 {
            Vec2 { x: 0, y: 1 }
        } else if i == 2 {
            Vec2 { x: 1, y: 1 }
        } else {
            Vec2 { x: 2, y: 1 }
        },
    }
}

/// The catalog's pivot of a piece kind, in half-block units. The square and
/// the bar pivot at the centers of their 2-by-2 and 4-by-1 footprints; every
/// other kind pivots at the single corner cell its arms share.
pub open spec fn pivot_half(shape: TetrominoShape) -> Vec2 {
    match shape {
        TetrominoShape::O => Vec2 { x: 3, y: 1 },
        TetrominoShape::I => Vec2 { x: 3, y: 3 },
        _ => Vec2 { x: 2, y: 2 },
    }
}

/// Horizontal pivot coordinate in world units, for an even block size.
pub open spec fn pivot_world_x(shape: TetrominoShape, bs: int) -> int {
    pivot_half(shape).x * (bs / 2)
}

/// Vertical pivot coordinate in world units, for an even block size.
pub open spec fn pivot_world_y(shape: TetrominoShape, bs: int) -> int {
    pivot_half(shape).y * (bs / 2)
}

/// Horizontal center of block `i` in world units, relative to the pivot.
pub open spec fn block_center_x(shape: TetrominoShape, bs: int, i: int) -> int {
    grid_offset(shape, i).x * bs - pivot_world_x(shape, bs)
}

/// Vertical center of block `i` in world units, relative to the pivot.
pub open spec fn block_center_y(shape: TetrominoShape, bs: int, i: int) -> int {
    grid_offset(shape, i).y * bs - pivot_world_y(shape, bs)
}

/// The pose a freshly spawned piece gets: its pivot at the spawn point, no
/// rotation.
pub open spec fn spawn_pose(shape: TetrominoShape, bs: int) -> Pose {
    Pose {
        x: SPAWN_X - pivot_world_x(shape, bs),
        y: SPAWN_Y - pivot_world_y(shape, bs),
        rot: 0,
    }
}

/// The canonical delta of one discrete move up: one block size toward
/// negative y.
pub open spec fn move_up_delta(bs: int) -> Pose {
    Pose { x: 0, y: -bs, rot: 0 }
}

/// The canonical delta of one discrete move down: one block size toward
/// positive y.
pub open spec fn move_down_delta(bs: int) -> Pose {
    Pose { x: 0, y: bs, rot: 0 }
}

/// The canonical delta of one discrete left rotation: a quarter turn of
/// negative angle.
pub open spec fn rotate_left_delta() -> Pose {
    Pose { x: 0, y: 0, rot: -(QUARTER_TURN as int) }
}

/// The canonical delta of one discrete right rotation: a quarter turn of
/// positive angle.
pub open spec fn rotate_right_delta() -> Pose {
    Pose { x: 0, y: 0, rot: QUARTER_TURN as int }
}

/// Law: rotating a piece left and then right, or right and then left,
/// returns its logical pose to the original value exactly, angle and
/// translation both: the two canonical deltas are exact inverses under
/// composition.
pub proof fn lemma_rotation_round_trip(p: Pose)
    ensures
        compose_pose(compose_pose(p, rotate_left_delta()), rotate_right_delta()) == p,
        compose_pose(compose_pose(p, rotate_right_delta()), rotate_left_delta()) == p,
{
    assert(compose_pose(compose_pose(p, rotate_left_delta()), rotate_right_delta()) =~= p);
    assert(compose_pose(compose_pose(p, rotate_right_delta()), rotate_left_delta()) =~= p);
}

/// Law: four canonical left rotations leave the translation untouched and
/// return the rotation component to its original value modulo a full turn.
pub proof fn lemma_four_left_rotations(p: Pose)
    ensures
        ({
            let q = compose_pose(
                compose_pose(
                    compose_pose(compose_pose(p, rotate_left_delta()), rotate_left_delta()),
                    rotate_left_delta(),
                ),
                rotate_left_delta(),
            );
            &&& q.x == p.x
            &&& q.y == p.y
            &&& q.rot % (FULL_TURN as int) == p.rot % (FULL_TURN as int)
        }),
{
    vstd::arithmetic::div_mod::lemma_mod_sub_multiples_vanish(p.rot, FULL_TURN as int);
}

/// Law: each piece kind has four pairwise distinct grid offsets.
pub proof fn lemma_initial_layout_offsets_distinct(shape: TetrominoShape)
    ensures
        forall|i: int, j: int|
            0 <= i < 4 && 0 <= j < 4 && i != j ==> grid_offset(shape, i) != grid_offset(shape, j),
{
}

/// Catalog entries are small: grid offsets lie in `[0, 3]` and the pivot in
/// `[1, 3]` half-blocks on each axis.
pub proof fn lemma_catalog_bounds(shape: TetrominoShape)
    ensures
        forall|i: int|
            0 <= i < 4 ==> 0 <= (#[trigger] grid_offset(shape, i)).x <= 3 && 0 <= grid_offset(
                shape,
                i,
            ).y <= 3,
        1 <= pivot_half(shape).x <= 3,
        1 <= pivot_half(shape).y <= 3,
{
}

/// The shape catalog: the four grid offsets (in block units) and the pivot
/// (in half-block units) of a piece kind. The single source of truth for
/// piece geometry.
pub fn initial_layout(shape: &TetrominoShape) -> (r: (Vec<Vec2>, Vec2))
    ensures
        r.0@.len() == 4,
        forall|i: int| 0 <= i < 4 ==> r.0@[i] == grid_offset(*shape, i),
        r.1 == pivot_half(*shape),
{
    let mut offsets: Vec<Vec2> = Vec::new();
    match shape {
        TetrominoShape::Z => {
            offsets.push(Vec2 { x: 0, y: 0 });
            offsets.push(Vec2 { x: 1, y: 0 });
            offsets.push(Vec2 { x: 1, y: 1 });
            offsets.push(Vec2 { x: 2, y: 1 });
        },
        TetrominoShape::S => {
            offsets.push(Vec2 { x: 1, y: 0 });
            offsets.push(Vec2 { x: 2, y: 0 });
            offsets.push(Vec2 { x: 0, y: 1 });
            offsets.push(Vec2 { x: 1, y: 1 });
        },
        TetrominoShape::O => {
            offsets.push(Vec2 { x: 1, y: 0 });
            offsets.push(Vec2 { x: 2, y: 0 });
            offsets.push(Vec2 { x: 1, y: 1 });
            offsets.push(Vec2 { x: 2, y: 1 });
        },
        TetrominoShape::L => {
            offsets.push(Vec2 { x: 1, y: 0 });
            offsets.push(Vec2 { x: 1, y: 1 });
            offsets.push(Vec2 { x: 1, y: 2 });
            offsets.push(Vec2 { x: 2, y: 2 });
        },
        TetrominoShape::J => {
            offsets.push(Vec2 { x: 1, y: 0 });
            offsets.push(Vec2 { x: 1, y: 1 });
            offsets.push(Vec2 { x: 1, y: 2 });
            offsets.push(Vec2 { x: 0, y: 2 });
        },
        TetrominoShape::I => {
            offsets.push(Vec2 { x: 0, y: 1 });
            offsets.push(Vec2 { x: 1, y: 1 });
            offsets.push(Vec2 { x: 2, y: 1 });
            offsets.push(Vec2 { x: 3, y: 1 });
        },
        TetrominoShape::T => {
            offsets.push(Vec2 { x: 1, y: 0 });
            offsets.push(Vec2 { x: 0, y: 1 });
            offsets.push(Vec2 { x: 1, y: 1 });
            offsets.push(Vec2 { x: 2, y: 1 });
        },
    }
    let pivot = match shape {
        TetrominoShape::O => Vec2 { x: 3, y: 1 },
        TetrominoShape::I => Vec2 { x: 3, y: 3 },
        _ => Vec2 { x: 2, y: 2 },
    };
    (offsets, pivot)
}

/// The authoritative logical state of a piece: its composite shape (four
/// block centers in world units, relative to the pivot), its world pose, its
/// fixed pivot point in piece-local space, and the configured block size.
#[derive(Debug)]
pub struct TetrominoState {
    /// Centers of the four blocks relative to the pivot, in world units.
    pub shape: Vec<Vec2>,
    /// The piece's world pose. Changed only by composing deltas onto it.
    pub isometry: Isometry,
    /// The pivot point in piece-local world units; fixed for the piece's
    /// lifetime.
    pub rotation_point: Vec2,
    /// The configured block size in world units.
    pub block_size: i64,
}

impl TetrominoState {
    /// Well-formedness: a valid block size and four block centers within
    /// three block sizes of the pivot.
    pub open spec fn wf(self) -> bool {
        &&& valid_block_size(self.block_size as int)
        &&& self.shape@.len() == 4
        &&& forall|i: int|
            0 <= i < 4 ==> -3 * (self.block_size as int) <= (#[trigger] self.shape@[i]).x <= 3 * (
            self.block_size as int) && -3 * (self.block_size as int) <= self.shape@[i].y <= 3 * (
            self.block_size as int)
    }

    /// The fixed-magnitude delta of one discrete move up.
    pub fn canonical_move_up(&self) -> (r: Isometry)
        requires
            self.block_size != i64::MIN,
        ensures
            r@ == move_up_delta(self.block_size as int),
    {
        Isometry::new(0, -self.block_size, 0)
    }

    /// The fixed-magnitude delta of one discrete move down.
    pub fn canonical_move_down(&self) -> (r: Isometry)
        ensures
            r@ == move_down_delta(self.block_size as int),
    {
        Isometry::new(0, self.block_size, 0)
    }

    /// The fixed delta of one discrete left rotation about the pivot.
    pub fn canonical_rotate_left(&self) -> (r: Isometry)
        ensures
            r@ == rotate_left_delta(),
    {
        Isometry::new(0, 0, -QUARTER_TURN)
    }

    /// The fixed delta of one discrete right rotation about the pivot.
    pub fn canonical_rotate_right(&self) -> (r: Isometry)
        ensures
            r@ == rotate_right_delta(),
    {
        Isometry::new(0, 0, QUARTER_TURN)
    }

    /// Composes `iso` onto the pose. No validation happens here: the caller
    /// runs the collision resolver first and applies the corrected delta.
    pub fn apply(&mut self, iso: &Isometry)
        requires
            compose_fits(old(self).isometry@, iso@),
        ensures
            final(self).isometry@ == compose_pose(old(self).isometry@, iso@),
            final(self).shape == old(self).shape,
            final(self).rotation_point == old(self).rotation_point,
            final(self).block_size == old(self).block_size,
    {
        self.isometry = crate::isometry::add_isometries(&self.isometry, iso);
    }

    /// One discrete move up, applied through the canonical delta.
    pub fn mov_up(&mut self)
        requires
            old(self).block_size != i64::MIN,
            compose_fits(old(self).isometry@, move_up_delta(old(self).block_size as int)),
        ensures
            final(self).isometry@ == compose_pose(
                old(self).isometry@,
                move_up_delta(old(self).block_size as int),
            ),
            final(self).shape == old(self).shape,
            final(self).rotation_point == old(self).rotation_point,
            final(self).block_size == old(self).block_size,
    {
        let d = self.canonical_move_up();
        self.apply(&d);
    }

    /// One discrete move down, applied through the canonical delta.
    pub fn mov_down(&mut self)
        requires
            compose_fits(old(self).isometry@, move_down_delta(old(self).block_size as int)),
        ensures
            final(self).isometry@ == compose_pose(
                old(self).isometry@,
                move_down_delta(old(self).block_size as int),
            ),
            final(self).shape == old(self).shape,
            final(self).rotation_point == old(self).rotation_point,
            final(self).block_size == old(self).block_size,
    {
        let d = self.canonical_move_down();
        self.apply(&d);
    }

    /// One discrete left rotation, applied through the canonical delta.
    pub fn rot_left(&mut self)
        requires
            compose_fits(old(self).isometry@, rotate_left_delta()),
        ensures
            final(self).isometry@ == compose_pose(old(self).isometry@, rotate_left_delta()),
            final(self).shape == old(self).shape,
            final(self).rotation_point == old(self).rotation_point,
            final(self).block_size == old(self).block_size,
    {
        let d = self.canonical_rotate_left();
        self.apply(&d);
    }

    /// One discrete right rotation, applied through the canonical delta.
    pub fn rot_right(&mut self)
        requires
            compose_fits(old(self).isometry@, rotate_right_delta()),
        ensures
            final(self).isometry@ == compose_pose(old(self).isometry@, rotate_right_delta()),
            final(self).shape == old(self).shape,
            final(self).rotation_point == old(self).rotation_point,
            final(self).block_size == old(self).block_size,
    {
        let d = self.canonical_rotate_right();
        self.apply(&d);
    }

    /// A simulation tick does not touch the logical state; only the blocks'
    /// animation controllers move.
    pub fn update(&mut self)
        ensures
            *final(self) == *old(self),
    {
    }

    /// The axis-aligned box enclosing all four blocks under the current pose.
    pub fn bounding_box(&self) -> (r: Aabb)
        requires
            self.wf(),
            bounded_pose(self.isometry@),
        ensures
            r@ == piece_bbox(*self, self.isometry@),
    {
        let pose = self.isometry;
        self.bounding_box_under(&pose)
    }

    /// The axis-aligned box enclosing all four blocks under a hypothetical
    /// pose, used to test a move before committing it. The box is exact when
    /// the pose's rotation is a whole number of quarter turns, which every
    /// pose reachable by canonical deltas is; a fractional rotation is read
    /// as its enclosing whole quarter.
    pub fn bounding_box_under(&self, pose: &Isometry) -> (r: Aabb)
        requires
            self.wf(),
            pose_within(pose@, 2 * (crate::isometry::COORD_LIMIT as int)),
        ensures
            r@ == piece_bbox(*self, pose@),
    {
        let k = quarter_turns(pose.rot);
        let h = self.block_size / 2;
        let b0 = rotate_quarter(&self.shape[0], k);
        let b1 = rotate_quarter(&self.shape[1], k);
        let b2 = rotate_quarter(&self.shape[2], k);
        let b3 = rotate_quarter(&self.shape[3], k);
        let cx0 = pose.x + b0.x;
        let cx1 = pose.x + b1.x;
        let cx2 = pose.x + b2.x;
        let cx3 = pose.x + b3.x;
        let cy0 = pose.y + b0.y;
        let cy1 = pose.y + b1.y;
        let cy2 = pose.y + b2.y;
        let cy3 = pose.y + b3.y;
        let min_x = min_i64(min_i64(cx0, cx1), min_i64(cx2, cx3));
        let max_x = max_i64(max_i64(cx0, cx1), max_i64(cx2, cx3));
        let min_y = min_i64(min_i64(cy0, cy1), min_i64(cy2, cy3));
        let max_y = max_i64(max_i64(cy0, cy1), max_i64(cy2, cy3));
        Aabb {
            mins: Vec2 { x: min_x - h, y: min_y - h },
            maxs: Vec2 { x: max_x + h, y: max_y + h },
        }
    }
}

/// Which quarter turn a rotation angle lies in, once normalized into one
/// full turn: a value in `[0, 3]`.
pub open spec fn quarter_index(rot: int) -> int {
    (rot % (FULL_TURN as int)) / (QUARTER_TURN as int)
}

/// Horizontal component of the point `(x, y)` rotated by `k` quarter turns.
pub open spec fn rotate_x(x: int, y: int, k: int) -> int {
    if k == 0 {
        x
    } else if k == 1 {
        -y
    } else if k == 2 {
        -x
    } else {
        y
    }
}

/// Vertical component of the point `(x, y)` rotated by `k` quarter turns.
pub open spec fn rotate_y(x: int, y: int, k: int) -> int {
    if k == 0 {
        y
    } else if k == 1 {
        x
    } else if k == 2 {
        -y
    } else {
        -x
    }
}

/// Horizontal component of a point rotated by `k` quarter turns.
pub open spec fn rotate_quarter_x(v: Vec2, k: int) -> int {
    rotate_x(v.x as int, v.y as int, k)
}

/// Vertical component of a point rotated by `k` quarter turns.
pub open spec fn rotate_quarter_y(v: Vec2, k: int) -> int {
    rotate_y(v.x as int, v.y as int, k)
}

/// The box enclosing all four blocks of a piece under the given pose: each
/// block is a square of one block size centered on its rotated offset.
pub open spec fn piece_bbox(s: TetrominoState, pose: Pose) -> AabbModel {
    let k = quarter_index(pose.rot);
    let h = (s.block_size as int) / 2;
    let cx0 = pose.x + rotate_quarter_x(s.shape@[0], k);
    let cx1 = pose.x + rotate_quarter_x(s.shape@[1], k);
    let cx2 = pose.x + rotate_quarter_x(s.shape@[2], k);
    let cx3 = pose.x + rotate_quarter_x(s.shape@[3], k);
    let cy0 = pose.y + rotate_quarter_y(s.shape@[0], k);
    let cy1 = pose.y + rotate_quarter_y(s.shape@[1], k);
    let cy2 = pose.y + rotate_quarter_y(s.shape@[2], k);
    let cy3 = pose.y + rotate_quarter_y(s.shape@[3], k);
    AabbModel {
        min_x: min(min(cx0, cx1), min(cx2, cx3)) - h,
        min_y: min(min(cy0, cy1), min(cy2, cy3)) - h,
        max_x: max(max(cx0, cx1), max(cx2, cx3)) + h,
        max_y: max(max(cy0, cy1), max(cy2, cy3)) + h,
    }
}

/// Normalizes a rotation angle into one full turn and buckets it into
/// quarters.
pub(crate) fn quarter_turns(rot: i64) -> (k: i64)
    ensures
        k == quarter_index(rot as int),
        0 <= k <= 3,
{
    proof {
        vstd::arithmetic::div_mod::lemma_mod_bound(rot as int, FULL_TURN as int);
    }
    let r = rot.checked_rem_euclid(FULL_TURN).unwrap();
    proof {
        vstd::arithmetic::div_mod::lemma_div_pos_is_pos(r as int, QUARTER_TURN as int);
        vstd::arithmetic::div_mod::lemma_div_is_ordered(r as int, 399, QUARTER_TURN as int);
        assert(399int / (QUARTER_TURN as int) == 3);
    }
    r / QUARTER_TURN
}

/// Rotates a point by `k` quarter turns about the origin.
pub(crate) fn rotate_quarter(v: &Vec2, k: i64) -> (r: Vec2)
    requires
        0 <= k <= 3,
        v.x != i64::MIN,
        v.y != i64::MIN,
    ensures
        r.x == rotate_quarter_x(*v, k as int),
        r.y == rotate_quarter_y(*v, k as int),
{
    if k == 0 {
        Vec2 { x: v.x, y: v.y }
    } else if k == 1 {
        Vec2 { x: -v.y, y: v.x }
    } else if k == 2 {
        Vec2 { x: -v.x, y: -v.y }
    } else {
        Vec2 { x: v.y, y: -v.x }
    }
}

/// A whole falling piece: its authoritative logical state, one animated
/// block per catalog entry, and the recorded rotation-system direction.
#[derive(Debug)]
pub struct Tetromino {
    /// The authoritative logical state, read by collision math.
    pub state: TetrominoState,
    /// One animated block per catalog entry.
    pub blocks: Vec<SquareBlock>,
    /// Recorded rotation-system direction; an extension point with no
    /// behavioral effect yet.
    pub direction: Direction,
}

/// Whether a piece is exactly as `Tetromino::new` spawns it: shape and pivot
/// from the catalog scaled by the block size, the pivot at the spawn point,
/// identity pose, and every block's animation at rest.
pub open spec fn is_spawn(
    t: Tetromino,
    shape: TetrominoShape,
    dir: Direction,
    bs: int,
) -> bool {
    &&& t.state.block_size == bs
    &&& t.state.isometry@ == spawn_pose(shape, bs)
    &&& t.state.rotation_point.x == pivot_world_x(shape, bs)
    &&& t.state.rotation_point.y == pivot_world_y(shape, bs)
    &&& t.state.shape@.len() == 4
    &&& forall|i: int|
        0 <= i < 4 ==> (#[trigger] t.state.shape@[i]).x == block_center_x(shape, bs, i)
            && t.state.shape@[i].y == block_center_y(shape, bs, i)
    &&& t.blocks_view().len() == 4
    &&& forall|i: int|
        0 <= i < 4 ==> (#[trigger] t.blocks_view()[i])@.local.x == block_center_x(shape, bs, i) - bs
            / 2 && t.blocks_view()[i]@.local.y == block_center_y(shape, bs, i) - bs / 2
    &&& forall|i: int| 0 <= i < 4 ==> (#[trigger] t.blocks_view()[i])@.trans == empty_model(bs)
    &&& t.direction == dir
}

impl Tetromino {
    /// The piece's four animated blocks.
    pub open spec fn blocks_view(self) -> Seq<SquareBlock> {
        self.blocks@
    }

    /// Well-formedness: a well-formed logical state and exactly four blocks.
    pub open spec fn wf(self) -> bool {
        &&& self.state.wf()
        &&& self.blocks_view().len() == 4
    }

    /// Whether composing `delta` onto the pose and queuing it into every
    /// block stays within `i64`.
    pub open spec fn can_apply(self, delta: Pose) -> bool {
        &&& compose_fits(self.state.isometry@, delta)
        &&& forall|i: int|
            0 <= i < self.blocks_view().len() ==> queue_fits(
                (#[trigger] self.blocks_view()[i])@.trans,
                delta,
            )
    }

    /// The outcome `apply` promises: `delta` composed onto the logical pose,
    /// queued into every block's animation, and everything else untouched.
    pub open spec fn applied(self, o: Tetromino, delta: Pose) -> bool {
        &&& self.state.isometry@ == compose_pose(o.state.isometry@, delta)
        &&& self.state.shape == o.state.shape
        &&& self.state.rotation_point == o.state.rotation_point
        &&& self.state.block_size == o.state.block_size
        &&& self.direction == o.direction
        &&& self.blocks_view().len() == o.blocks_view().len()
        &&& forall|i: int|
            0 <= i < o.blocks_view().len() ==> (#[trigger] self.blocks_view()[i])@.trans
                == queue_model(o.blocks_view()[i]@.trans, delta)
                && self.blocks_view()[i]@.local == o.blocks_view()[i]@.local
    }

    /// Builds a piece of the given kind: blocks from the shape catalog scaled
    /// by `block_size`, the pivot placed at the fixed spawn position, and the
    /// pose at identity relative to that spawn translation.
    pub fn new(shape: TetrominoShape, dir: Direction, block_size: i64) -> (r: Tetromino)
        requires
            valid_block_size(block_size as int),
        ensures
            is_spawn(r, shape, dir, block_size as int),
            r.wf(),
    {
        proof {
            lemma_catalog_bounds(shape);
            vstd::arithmetic::div_mod::lemma_fundamental_div_mod(block_size as int, 2);
        }
        let (grid, pivot) = initial_layout(&shape);
        proof {
            assert(grid@[0] == grid_offset(shape, 0) && grid@[1] == grid_offset(shape, 1)
                && grid@[2] == grid_offset(shape, 2) && grid@[3] == grid_offset(shape, 3));
            assert(0 <= grid_offset(shape, 0).x <= 3 && 0 <= grid_offset(shape, 0).y <= 3);
            assert(0 <= grid_offset(shape, 1).x <= 3 && 0 <= grid_offset(shape, 1).y <= 3);
            assert(0 <= grid_offset(shape, 2).x <= 3 && 0 <= grid_offset(shape, 2).y <= 3);
            assert(0 <= grid_offset(shape, 3).x <= 3 && 0 <= grid_offset(shape, 3).y <= 3);
        }
        let half = block_size / 2;
        let pwx = scale_coord(pivot.x, half);
        let pwy = scale_coord(pivot.y, half);
        let c0 = Vec2 {
            x: scale_coord(grid[0].x, block_size) - pwx,
            y: scale_coord(grid[0].y, block_size) - pwy,
        };
        let c1 = Vec2 {
            x: scale_coord(grid[1].x, block_size) - pwx,
            y: scale_coord(grid[1].y, block_size) - pwy,
        };
        let c2 = Vec2 {
            x: scale_coord(grid[2].x, block_size) - pwx,
            y: scale_coord(grid[2].y, block_size) - pwy,
        };
        let c3 = Vec2 {
            x: scale_coord(grid[3].x, block_size) - pwx,
            y: scale_coord(grid[3].y, block_size) - pwy,
        };
        let mut shape_centers: Vec<Vec2> = Vec::new();
        shape_centers.push(c0);
        shape_centers.push(c1);
        shape_centers.push(c2);
        shape_centers.push(c3);
        let mut blocks: Vec<SquareBlock> = Vec::new();
        blocks.push(SquareBlock::new(Vec2 { x: c0.x - half, y: c0.y - half }, block_size));
        blocks.push(SquareBlock::new(Vec2 { x: c1.x - half, y: c1.y - half }, block_size));
        blocks.push(SquareBlock::new(Vec2 { x: c2.x - half, y: c2.y - half }, block_size));
        blocks.push(SquareBlock::new(Vec2 { x: c3.x - half, y: c3.y - half }, block_size));
        let state = TetrominoState {
            shape: shape_centers,
            isometry: Isometry::new(SPAWN_X - pwx, SPAWN_Y - pwy, 0),
            rotation_point: Vec2 { x: pwx, y: pwy },
            block_size,
        };
        Tetromino { state, blocks, direction: dir }
    }

    /// Applies an effective delta to the whole piece: composes it onto the
    /// logical pose and queues it into every block's animation controller.
    pub fn apply(&mut self, iso: &Isometry)
        requires
            old(self).can_apply(iso@),
        ensures
            final(self).applied(*old(self), iso@),
    {
        self.state.apply(iso);
        let n = self.blocks.len();
        let mut i: usize = 0;
        while i < n
            invariant
                old(self).can_apply(iso@),
                i <= n,
                n == self.blocks@.len(),
                n == old(self).blocks_view().len(),
                self.state.isometry@ == compose_pose(old(self).state.isometry@, iso@),
                self.state.shape == old(self).state.shape,
                self.state.rotation_point == old(self).state.rotation_point,
                self.state.block_size == old(self).state.block_size,
                self.direction == old(self).direction,
                forall|j: int|
                    0 <= j < i ==> (#[trigger] self.blocks@[j])@.trans == queue_model(
                        old(self).blocks_view()[j]@.trans,
                        iso@,
                    ) && self.blocks@[j]@.local == old(self).blocks_view()[j]@.local,
                forall|j: int|
                    i <= j < n ==> #[trigger] self.blocks@[j] == old(self).blocks_view()[j],
            decreases n - i,
        {
            proof {
                assert(self.blocks@[i as int] == old(self).blocks_view()[i as int]);
                assert(queue_fits(old(self).blocks_view()[i as int]@.trans, iso@));
            }
            let blk = &mut self.blocks[i];
            blk.apply(iso);
            i = i + 1;
        }
    }

    /// One discrete move up, through the canonical delta.
    pub fn mov_up(&mut self)
        requires
            old(self).state.block_size != i64::MIN,
            old(self).can_apply(move_up_delta(old(self).state.block_size as int)),
        ensures
            final(self).applied(
                *old(self),
                move_up_delta(old(self).state.block_size as int),
            ),
    {
        let d = self.state.canonical_move_up();
        self.apply(&d);
    }

    /// One discrete move down, through the canonical delta.
    pub fn mov_down(&mut self)
        requires
            old(self).can_apply(move_down_delta(old(self).state.block_size as int)),
        ensures
            final(self).applied(
                *old(self),
                move_down_delta(old(self).state.block_size as int),
            ),
    {
        let d = self.state.canonical_move_down();
        self.apply(&d);
    }

    /// One discrete left rotation, through the canonical delta.
    pub fn rot_left(&mut self)
        requires
            old(self).can_apply(rotate_left_delta()),
        ensures
            final(self).applied(*old(self), rotate_left_delta()),
    {
        let d = self.state.canonical_rotate_left();
        self.apply(&d);
    }

    /// One discrete right rotation, through the canonical delta.
    pub fn rot_right(&mut self)
        requires
            old(self).can_apply(rotate_right_delta()),
        ensures
            final(self).applied(*old(self), rotate_right_delta()),
    {
        let d = self.state.canonical_rotate_right();
        self.apply(&d);
    }

    /// Whether a tick of every block's animation stays within `i64`.
    pub open spec fn can_tick(self) -> bool {
        forall|i: int|
            0 <= i < self.blocks_view().len() ==> tick_fits(
                (#[trigger] self.blocks_view()[i])@.trans,
            )
    }

    /// One simulation tick: advances every block's animation controller. The
    /// logical state does not move.
    pub fn update(&mut self)
        requires
            old(self).can_tick(),
        ensures
            final(self).state == old(self).state,
            final(self).direction == old(self).direction,
            final(self).blocks_view().len() == old(self).blocks_view().len(),
            forall|i: int|
                0 <= i < old(self).blocks_view().len() ==> (#[trigger] final(self).blocks_view()[i])@.trans
                    == tick_model(old(self).blocks_view()[i]@.trans)
                    && final(self).blocks_view()[i]@.local == old(self).blocks_view()[i]@.local,
    {
        let n = self.blocks.len();
        let mut i: usize = 0;
        while i < n
            invariant
                old(self).can_tick(),
                i <= n,
                n == self.blocks@.len(),
                n == old(self).blocks_view().len(),
                self.state == old(self).state,
                self.direction == old(self).direction,
                forall|j: int|
                    0 <= j < i ==> (#[trigger] self.blocks@[j])@.trans == tick_model(
                        old(self).blocks_view()[j]@.trans,
                    ) && self.blocks@[j]@.local == old(self).blocks_view()[j]@.local,
                forall|j: int|
                    i <= j < n ==> #[trigger] self.blocks@[j] == old(self).blocks_view()[j],
            decreases n - i,
        {
            proof {
                assert(self.blocks@[i as int] == old(self).blocks_view()[i as int]);
                assert(tick_fits(old(self).blocks_view()[i as int]@.trans));
            }
            let blk = &mut self.blocks[i];
            blk.update();
            i = i + 1;
        }
    }
}

/// Scales a small non-negative catalog coordinate by a block-sized factor.
fn scale_coord(c: i64, f: i64) -> (r: i64)
    requires
        0 <= c <= 3,
        0 <= f <= MAX_BLOCK_SIZE,
    ensures
        r == c * f,
        0 <= r <= 3 * f,
{
    proof {
        assert(0 <= c * f <= 3 * f && 3 * f <= 3 * 0x10000) by (nonlinear_arith)
            requires
                0 <= c <= 3,
                0 <= f <= 0x10000,
        ;
    }
    c * f
}

/// The smaller of two values.
pub(crate) fn min_i64(a: i64, b: i64) -> (r: i64)
    ensures
        r == min(a as int, b as int),
{
    if a < b {
        a
    } else {
        b
    }
}

/// The larger of two values.
pub(crate) fn max_i64(a: i64, b: i64) -> (r: i64)
    ensures
        r == max(a as int, b as int),
{
    if a > b {
        a
    } else {
        b
    }
}

} // verus!
