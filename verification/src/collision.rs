//! Collision resolver: classifies an attempted move of the piece against the
//! playing-field boundary and produces the corrective delta.
//!
//! The field box is loosened by one block size before comparison, a tolerance
//! band around the playable area. A move is unobstructed when the loosened
//! field box fully contains the piece's proposed box; a proposed box whose
//! top edge lies above the loosened field's top edge overruns the top; every
//! other obstructed case falls through to the bottom-overrun branch, the
//! documented default. The correction is a single-axis one-block clamp: it
//! assumes overlaps resolve within one block step, which holds because every
//! input delta is exactly one block in magnitude.

use crate::geometry::Aabb;
use crate::geometry::AabbModel;
use crate::geometry::Vec2;
use crate::geometry::contains_model;
use crate::geometry::loosen_model;
use crate::geometry::overlap_model;
use crate::isometry::COORD_LIMIT;
use crate::isometry::Isometry;
use crate::isometry::Pose;
use crate::isometry::add_isometries;
use crate::isometry::bounded_pose;
use crate::isometry::compose_pose;
use crate::isometry::identity_pose;
use crate::tetromino::TetrominoState;
use crate::tetromino::piece_bbox;
use crate::tetromino::quarter_index;
use crate::tetromino::quarter_turns;
use crate::tetromino::rotate_quarter;
use crate::tetromino::rotate_x;
use crate::tetromino::rotate_y;
use vstd::prelude::*;

verus! {

/// Tolerance margin of the per-block intersection test, in world units.
pub const INTERSECT_MARGIN: i64 = 1;

/// Outcome of a boundary collision query. Produced fresh per query, never
/// persisted.
#[derive(Clone, Copy, Debug, PartialEq, Eq, Structural)]
pub enum BoundaryClassification {
    /// The loosened field box fully contains the piece's proposed box.
    Unobstructed,
    /// The proposed box's top edge lies above the loosened field's top edge.
    OverrunTop,
    /// Any other obstruction; the fallback branch of the classifier.
    OverrunBottom,
}

/// The playing-field boundary: a fixed rectangle given as its center and
/// half-extents, supplied at construction time and read-only afterwards.
#[derive(Clone, Copy, Debug, PartialEq, Eq, Structural)]
pub struct Field {
    pub center: Vec2,
    pub half_extents: Vec2,
}

/// The field's box over unbounded integers.
pub open spec fn field_box(f: Field) -> AabbModel {
    AabbModel {
        min_x: f.center.x - f.half_extents.x,
        min_y: f.center.y - f.half_extents.y,
        max_x: f.center.x + f.half_extents.x,
        max_y: f.center.y + f.half_extents.y,
    }
}

impl Field {
    /// Well-formedness: non-negative extents, everything in working range.
    pub open spec fn wf(self) -> bool {
        &&& 0 <= self.half_extents.x <= COORD_LIMIT
        &&& 0 <= self.half_extents.y <= COORD_LIMIT
        &&& -COORD_LIMIT <= self.center.x <= COORD_LIMIT
        &&& -COORD_LIMIT <= self.center.y <= COORD_LIMIT
    }

    /// The field's axis-aligned box.
    pub fn aabb(&self) -> (r: Aabb)
        requires
            self.wf(),
        ensures
            r@ == field_box(*self),
    {
        Aabb {
            mins: Vec2 {
                x: self.center.x - self.half_extents.x,
                y: self.center.y - self.half_extents.y,
            },
            maxs: Vec2 {
                x: self.center.x + self.half_extents.x,
                y: self.center.y + self.half_extents.y,
            },
        }
    }
}

/// What a boundary query of `piece` moving by `delta` in `field` answers.
pub open spec fn classify_model(
    piece: TetrominoState,
    delta: Pose,
    field: Field,
) -> BoundaryClassification {
    let fb = loosen_model(field_box(field), piece.block_size as int);
    let pb = piece_bbox(piece, compose_pose(piece.isometry@, delta));
    if contains_model(fb, pb) {
        BoundaryClassification::Unobstructed
    } else if pb.min_y < fb.min_y {
        BoundaryClassification::OverrunTop
    } else {
        BoundaryClassification::OverrunBottom
    }
}

/// Everything a boundary query needs to stay within `i64`: a well-formed
/// piece and field, and the pose and delta in working range.
pub open spec fn query_fits(piece: TetrominoState, delta: Pose, field: Field) -> bool {
    &&& piece.wf()
    &&& field.wf()
    &&& bounded_pose(piece.isometry@)
    &&& bounded_pose(delta)
}

/// Classifies the move of `piece` by `delta` against the field boundary,
/// comparing the piece's proposed bounding box with the field box loosened by
/// one block size.
pub fn classify(piece: &TetrominoState, delta: &Isometry, field: &Field) -> (r:
    BoundaryClassification)
    requires
        query_fits(*piece, delta@, *field),
    ensures
        r == classify_model(*piece, delta@, *field),
{
    let board_bv = field.aabb().loosened(piece.block_size);
    let transformed = add_isometries(&piece.isometry, delta);
    let shape_bv = piece.bounding_box_under(&transformed);
    if board_bv.contains_box(&shape_bv) {
        BoundaryClassification::Unobstructed
    } else if shape_bv.mins.y < board_bv.mins.y {
        BoundaryClassification::OverrunTop
    } else {
        BoundaryClassification::OverrunBottom
    }
}

/// The corrective delta of a classification: identity when unobstructed, one
/// block size back down after a top overrun, one block size back up after a
/// bottom overrun.
pub open spec fn correction_delta(c: BoundaryClassification, bs: int) -> Pose {
    match c {
        BoundaryClassification::Unobstructed => identity_pose(),
        BoundaryClassification::OverrunTop => Pose { x: 0, y: bs, rot: 0 },
        BoundaryClassification::OverrunBottom => Pose { x: 0, y: -bs, rot: 0 },
    }
}

/// The corrective delta for a classification, at the given block size.
pub fn correction_for(c: BoundaryClassification, block_size: i64) -> (r: Isometry)
    requires
        block_size != i64::MIN,
    ensures
        r@ == correction_delta(c, block_size as int),
{
    match c {
        BoundaryClassification::Unobstructed => Isometry::identity(),
        BoundaryClassification::OverrunTop => Isometry::new(0, block_size, 0),
        BoundaryClassification::OverrunBottom => Isometry::new(0, -block_size, 0),
    }
}

/// The delta that is actually committed for a proposed move: the proposal
/// composed with the correction of its classification. Callers apply this to
/// the logical state and queue it into every block's animation.
pub fn effective_delta(piece: &TetrominoState, delta: &Isometry, field: &Field) -> (r: Isometry)
    requires
        query_fits(*piece, delta@, *field),
    ensures
        r@ == compose_pose(
            delta@,
            correction_delta(classify_model(*piece, delta@, *field), piece.block_size as int),
        ),
{
    let c = classify(piece, delta, field);
    let correction = correction_for(c, piece.block_size);
    add_isometries(delta, &correction)
}

/// The box of block `i` of a piece under a proposed delta, as the per-block
/// intersection test sees it: the sum of the delta translation and the
/// block's offset is rotated by the piece's current rotation about the
/// piece's position, and the block's square has half a block size on each
/// side of the rotated center.
pub open spec fn block_box(piece: TetrominoState, delta: Pose, i: int) -> AabbModel {
    let k = quarter_index(piece.isometry@.rot);
    let h = (piece.block_size as int) / 2;
    let vx = delta.x + piece.shape@[i].x;
    let vy = delta.y + piece.shape@[i].y;
    let cx = piece.isometry@.x + rotate_x(vx, vy, k);
    let cy = piece.isometry@.y + rotate_y(vx, vy, k);
    AabbModel { min_x: cx - h, min_y: cy - h, max_x: cx + h, max_y: cy + h }
}

/// Whether any block of the piece, moved by `delta`, overlaps the other box
/// loosened by the intersection margin.
pub open spec fn intersects_model(piece: TetrominoState, other: Aabb, delta: Pose) -> bool {
    exists|i: int|
        0 <= i < 4 && overlap_model(
            loosen_model(other@, INTERSECT_MARGIN as int),
            #[trigger] block_box(piece, delta, i),
        )
}

/// Per-block intersection test of the piece, moved by `delta`, against
/// another bounding box loosened by a small fixed margin. More general than
/// the whole-piece boundary check: it supports piece-versus-obstacle overlap
/// without re-deriving the per-block iteration.
pub fn intersects(piece: &TetrominoState, other_bv: &Aabb, delta: &Isometry) -> (r: bool)
    requires
        piece.wf(),
        bounded_pose(piece.isometry@),
        bounded_pose(delta@),
        -COORD_LIMIT <= other_bv.mins.x,
        -COORD_LIMIT <= other_bv.mins.y,
        other_bv.maxs.x <= COORD_LIMIT,
        other_bv.maxs.y <= COORD_LIMIT,
    ensures
        r == intersects_model(*piece, *other_bv, delta@),
{
    let loosened_oth_bv = other_bv.loosened(INTERSECT_MARGIN);
    let b0 = loosened_oth_bv.intersects(&block_box_at(piece, delta, 0));
    let b1 = loosened_oth_bv.intersects(&block_box_at(piece, delta, 1));
    let b2 = loosened_oth_bv.intersects(&block_box_at(piece, delta, 2));
    let b3 = loosened_oth_bv.intersects(&block_box_at(piece, delta, 3));
    let r = b0 || b1 || b2 || b3;
    proof {
        if r {
            assert(intersects_model(*piece, *other_bv, delta@)) by {
                if b0 {
                    assert(overlap_model(
                        loosen_model(other_bv@, INTERSECT_MARGIN as int),
                        block_box(*piece, delta@, 0),
                    ));
                } else if b1 {
                    assert(overlap_model(
                        loosen_model(other_bv@, INTERSECT_MARGIN as int),
                        block_box(*piece, delta@, 1),
                    ));
                } else if b2 {
                    assert(overlap_model(
                        loosen_model(other_bv@, INTERSECT_MARGIN as int),
                        block_box(*piece, delta@, 2),
                    ));
                } else {
                    assert(overlap_model(
                        loosen_model(other_bv@, INTERSECT_MARGIN as int),
                        block_box(*piece, delta@, 3),
                    ));
                }
            }
        }
    }
    r
}

/// The box of one block of the piece under a proposed delta.
fn block_box_at(piece: &TetrominoState, delta: &Isometry, i: usize) -> (r: Aabb)
    requires
        piece.wf(),
        bounded_pose(piece.isometry@),
        bounded_pose(delta@),
        i < 4,
    ensures
        r@ == block_box(*piece, delta@, i as int),
{
    let k = quarter_turns(piece.isometry.rot);
    let h = piece.block_size / 2;
    let v = Vec2 { x: delta.x + piece.shape[i].x, y: delta.y + piece.shape[i].y };
    let c = rotate_quarter(&v, k);
    let cx = piece.isometry.x + c.x;
    let cy = piece.isometry.y + c.y;
    Aabb { mins: Vec2 { x: cx - h, y: cy - h }, maxs: Vec2 { x: cx + h, y: cy + h } }
}

/// Law: classification is a pure function of the piece, the delta and the
/// bounds. Querying the same triple again, with no delta applied in between,
/// answers the same.
pub proof fn lemma_classification_repeatable(
    p1: TetrominoState,
    d1: Pose,
    f1: Field,
    p2: TetrominoState,
    d2: Pose,
    f2: Field,
)
    requires
        p1 == p2,
        d1 == d2,
        f1 == f2,
    ensures
        classify_model(p1, d1, f1) == classify_model(p2, d2, f2),
{
}

/// Translating a pose translates the piece's bounding box with it; the
/// rotation bucket does not move.
pub proof fn lemma_bbox_translation(s: TetrominoState, pose: Pose, dx: int, dy: int)
    ensures
        piece_bbox(s, Pose { x: pose.x + dx, y: pose.y + dy, rot: pose.rot }) == (AabbModel {
            min_x: piece_bbox(s, pose).min_x + dx,
            min_y: piece_bbox(s, pose).min_y + dy,
            max_x: piece_bbox(s, pose).max_x + dx,
            max_y: piece_bbox(s, pose).max_y + dy,
        }),
{
    assert(piece_bbox(s, Pose { x: pose.x + dx, y: pose.y + dy, rot: pose.rot }) =~= (AabbModel {
        min_x: piece_bbox(s, pose).min_x + dx,
        min_y: piece_bbox(s, pose).min_y + dy,
        max_x: piece_bbox(s, pose).max_x + dx,
        max_y: piece_bbox(s, pose).max_y + dy,
    }));
}

/// Law: when a proposed move overruns the top boundary and its box's top
/// edge sits exactly one block size above the loosened field's top edge, the
/// corrective one-block push down puts that top edge exactly on the loosened
/// boundary.
pub proof fn lemma_top_correction_restores_boundary(
    piece: TetrominoState,
    delta: Pose,
    field: Field,
)
    requires
        classify_model(piece, delta, field) == BoundaryClassification::OverrunTop,
        piece_bbox(piece, compose_pose(piece.isometry@, delta)).min_y == loosen_model(
            field_box(field),
            piece.block_size as int,
        ).min_y - piece.block_size as int,
    ensures
        piece_bbox(
            piece,
            compose_pose(
                piece.isometry@,
                compose_pose(
                    delta,
                    correction_delta(
                        BoundaryClassification::OverrunTop,
                        piece.block_size as int,
                    ),
                ),
            ),
        ).min_y == loosen_model(field_box(field), piece.block_size as int).min_y,
{
    let proposed = compose_pose(piece.isometry@, delta);
    let corrected = compose_pose(
        piece.isometry@,
        compose_pose(
            delta,
            correction_delta(BoundaryClassification::OverrunTop, piece.block_size as int),
        ),
    );
    assert(corrected == (Pose {
        x: proposed.x,
        y: proposed.y + piece.block_size as int,
        rot: proposed.rot,
    })) by {
        assert(corrected =~= (Pose {
            x: proposed.x,
            y: proposed.y + piece.block_size as int,
            rot: proposed.rot,
        }));
    }
    lemma_bbox_translation(piece, proposed, 0, piece.block_size as int);
}

} // verus!
