//! The per-frame decision core of the game: one discrete command becomes a
//! canonical delta, the collision resolver corrects it against the field
//! boundary, and the effective delta is applied to the logical piece state
//! and queued into every block's animation, in that order. The surrounding
//! event loop (window, keyboard, rendering) lives outside this library and
//! calls in with plain values.

use crate::collision::BoundaryClassification;
use crate::collision::Field;
use crate::collision::classify;
use crate::collision::classify_model;
use crate::collision::correction_delta;
use crate::collision::correction_for;
use crate::geometry::Vec2;
use crate::isometry::COORD_LIMIT;
use crate::isometry::Isometry;
use crate::isometry::Pose;
use crate::isometry::add_isometries;
use crate::isometry::bounded_pose;
use crate::isometry::compose_pose;
use crate::isometry::pose_within;
use crate::tetromino::Direction;
use crate::tetromino::MAX_BLOCK_SIZE;
use crate::tetromino::Tetromino;
use crate::tetromino::TetrominoShape;
use crate::tetromino::move_down_delta;
use crate::tetromino::move_up_delta;
use crate::tetromino::rotate_left_delta;
use crate::tetromino::rotate_right_delta;
use vstd::prelude::*;

verus! {

/// Block size of the default board, in world units.
pub const DEFAULT_BLOCK_SIZE: i64 = 40;

/// Horizontal center of the default field.
pub const FIELD_CENTER_X: i64 = 200;

/// Vertical center of the default field.
pub const FIELD_CENTER_Y: i64 = 240;

/// Horizontal half-extent of the default field.
pub const FIELD_HALF_EXTENT_X: i64 = 200;

/// Vertical half-extent of the default field.
pub const FIELD_HALF_EXTENT_Y: i64 = 200;

/// One discrete input command, mapped from a physical key outside this
/// library. Absence of a command in a frame is valid and moves nothing.
#[derive(Clone, Copy, Debug, PartialEq, Eq, Structural)]
pub enum Command {
    MoveUp,
    MoveDown,
    RotateLeft,
    RotateRight,
}

/// The canonical delta of a command at the given block size.
pub open spec fn command_delta(cmd: Command, bs: int) -> Pose {
    match cmd {
        Command::MoveUp => move_up_delta(bs),
        Command::MoveDown => move_down_delta(bs),
        Command::RotateLeft => rotate_left_delta(),
        Command::RotateRight => rotate_right_delta(),
    }
}

/// The one falling piece and the fixed field boundary it lives in.
#[derive(Debug)]
pub struct Game {
    pub tetromino: Tetromino,
    pub field: Field,
}

impl Game {
    /// Well-formedness: a well-formed piece and field.
    pub open spec fn wf(self) -> bool {
        &&& self.tetromino.wf()
        &&& self.field.wf()
    }

    /// Whether every block's animation state is within the working range.
    pub open spec fn blocks_bounded(self) -> bool {
        forall|i: int|
            0 <= i < self.tetromino.blocks_view().len() ==> {
                let t = (#[trigger] self.tetromino.blocks_view()[i])@.trans;
                &&& pose_within(t.to, COORD_LIMIT as int)
                &&& pose_within(t.step, COORD_LIMIT as int)
                &&& pose_within(t.state, COORD_LIMIT as int)
            }
    }

    /// Whether one more command can be processed with all arithmetic in
    /// range: well-formed state, pose and animations within the working
    /// range. Real boards sit many orders of magnitude below the range, so
    /// this only ever excludes astronomically long sessions.
    pub open spec fn can_step(self) -> bool {
        &&& self.wf()
        &&& bounded_pose(self.tetromino.state.isometry@)
        &&& self.blocks_bounded()
    }

    /// Whether one more animation tick stays in range.
    pub open spec fn can_tick(self) -> bool {
        &&& self.wf()
        &&& self.blocks_bounded()
    }

    /// The default board: a T piece spawned over a field of half-extents
    /// (200, 200) centered at (200, 240), with a block size of 40.
    pub fn new() -> (r: Game)
        ensures
            r.wf(),
            r.can_step(),
            r.can_tick(),
            crate::tetromino::is_spawn(
                r.tetromino,
                TetrominoShape::T,
                Direction::LeftToRight,
                DEFAULT_BLOCK_SIZE as int,
            ),
            r.field == (Field {
                center: Vec2 { x: FIELD_CENTER_X, y: FIELD_CENTER_Y },
                half_extents: Vec2 { x: FIELD_HALF_EXTENT_X, y: FIELD_HALF_EXTENT_Y },
            }),
    {
        let tetromino = Tetromino::new(
            TetrominoShape::T,
            Direction::LeftToRight,
            DEFAULT_BLOCK_SIZE,
        );
        let field = Field {
            center: Vec2 { x: FIELD_CENTER_X, y: FIELD_CENTER_Y },
            half_extents: Vec2 { x: FIELD_HALF_EXTENT_X, y: FIELD_HALF_EXTENT_Y },
        };
        Game { tetromino, field }
    }

    /// Processes one discrete command: maps it to its canonical delta, asks
    /// the collision resolver for the correction, and applies the effective
    /// delta to the logical state and every block's animation. Returns the
    /// boundary classification of the proposed move.
    pub fn on_input(&mut self, cmd: Command) -> (r: BoundaryClassification)
        requires
            old(self).can_step(),
        ensures
            r == classify_model(
                old(self).tetromino.state,
                command_delta(cmd, old(self).tetromino.state.block_size as int),
                old(self).field,
            ),
            final(self).tetromino.applied(
                old(self).tetromino,
                compose_pose(
                    command_delta(cmd, old(self).tetromino.state.block_size as int),
                    correction_delta(r, old(self).tetromino.state.block_size as int),
                ),
            ),
            final(self).field == old(self).field,
    {
        let delta = match cmd {
            Command::MoveUp => self.tetromino.state.canonical_move_up(),
            Command::MoveDown => self.tetromino.state.canonical_move_down(),
            Command::RotateLeft => self.tetromino.state.canonical_rotate_left(),
            Command::RotateRight => self.tetromino.state.canonical_rotate_right(),
        };
        let classification = classify(&self.tetromino.state, &delta, &self.field);
        let correction = correction_for(classification, self.tetromino.state.block_size);
        let effective = add_isometries(&delta, &correction);
        self.tetromino.apply(&effective);
        classification
    }

    /// One simulation tick: advances every block's animation controller. The
    /// logical state and the field do not move.
    pub fn on_update(&mut self)
        requires
            old(self).can_tick(),
        ensures
            final(self).tetromino.state == old(self).tetromino.state,
            final(self).tetromino.direction == old(self).tetromino.direction,
            final(self).tetromino.blocks_view().len() == old(self).tetromino.blocks_view().len(),
            forall|i: int|
                0 <= i < old(self).tetromino.blocks_view().len()
                    ==> (#[trigger] final(self).tetromino.blocks_view()[i])@.trans
                    == crate::transformations::tick_model(
                    old(self).tetromino.blocks_view()[i]@.trans,
                ) && final(self).tetromino.blocks_view()[i]@.local
                    == old(self).tetromino.blocks_view()[i]@.local,
            final(self).field == old(self).field,
    {
        self.tetromino.update();
    }

    /// Runtime check of `can_step`, for callers outside the verified world.
    pub fn check_can_step(&self) -> (r: bool)
        ensures
            r == self.can_step(),
    {
        self.check_wf() && pose_in_range(&self.tetromino.state.isometry) && self.check_blocks()
    }

    /// Runtime check of `can_tick`, for callers outside the verified world.
    pub fn check_can_tick(&self) -> (r: bool)
        ensures
            r == self.can_tick(),
    {
        self.check_wf() && self.check_blocks()
    }

    /// Runtime check of well-formedness.
    fn check_wf(&self) -> (r: bool)
        ensures
            r == self.wf(),
    {
        let bs = self.tetromino.state.block_size;
        let field_ok = 0 <= self.field.half_extents.x && self.field.half_extents.x <= COORD_LIMIT
            && 0 <= self.field.half_extents.y && self.field.half_extents.y <= COORD_LIMIT
            && -COORD_LIMIT <= self.field.center.x && self.field.center.x <= COORD_LIMIT
            && -COORD_LIMIT <= self.field.center.y && self.field.center.y <= COORD_LIMIT;
        if !field_ok {
            return false;
        }
        if !(2 <= bs && bs <= MAX_BLOCK_SIZE && bs % 2 == 0) {
            return false;
        }
        if self.tetromino.state.shape.len() != 4 || self.tetromino.blocks.len() != 4 {
            return false;
        }
        let lim = 3 * bs;
        let mut i: usize = 0;
        let mut ok = true;
        while i < 4
            invariant
                i <= 4,
                self.tetromino.state.shape@.len() == 4,
                lim == 3 * (self.tetromino.state.block_size as int),
                ok == forall|j: int|
                    0 <= j < i ==> -lim <= (#[trigger] self.tetromino.state.shape@[j]).x <= lim
                        && -lim <= self.tetromino.state.shape@[j].y <= lim,
            decreases 4 - i,
        {
            let v = &self.tetromino.state.shape[i];
            ok = ok && -lim <= v.x && v.x <= lim && -lim <= v.y && v.y <= lim;
            i = i + 1;
        }
        ok
    }

    /// Runtime check that every block's animation state is in range.
    fn check_blocks(&self) -> (r: bool)
        ensures
            r == self.blocks_bounded(),
    {
        let n = self.tetromino.blocks.len();
        let mut i: usize = 0;
        let mut ok = true;
        while i < n
            invariant
                i <= n,
                n == self.tetromino.blocks_view().len(),
                ok == forall|j: int|
                    0 <= j < i ==> {
                        let t = (#[trigger] self.tetromino.blocks_view()[j])@.trans;
                        &&& pose_within(t.to, COORD_LIMIT as int)
                        &&& pose_within(t.step, COORD_LIMIT as int)
                        &&& pose_within(t.state, COORD_LIMIT as int)
                    },
            decreases n - i,
        {
            let b = &self.tetromino.blocks[i];
            let t = b.transformation();
            ok = ok && pose_in_range(&t.target_pose()) && pose_in_range(&t.step_pose())
                && pose_in_range(&t.current_pose());
            i = i + 1;
        }
        ok
    }
}

/// Whether every component of a motion is within the working range.
fn pose_in_range(iso: &Isometry) -> (r: bool)
    ensures
        r == pose_within(iso@, COORD_LIMIT as int),
{
    -COORD_LIMIT <= iso.x && iso.x <= COORD_LIMIT && -COORD_LIMIT <= iso.y && iso.y <= COORD_LIMIT
        && -COORD_LIMIT <= iso.rot && iso.rot <= COORD_LIMIT
}

} // verus!
