//! One unit cell of a piece: a fixed local offset in world units together
//! with the animation controller that interpolates the block's visual pose.
//! The offset never changes after construction; only the controller moves.

use crate::geometry::Vec2;
use crate::isometry::Isometry;
use crate::transformations::TransModel;
use crate::transformations::Transformation;
use crate::transformations::empty_model;
use crate::transformations::queue_fits;
use crate::transformations::queue_model;
use crate::transformations::tick_fits;
use crate::transformations::tick_model;
use vstd::prelude::*;

verus! {

/// Mathematical model of a block: its fixed local offset and the state of
/// its animation controller.
#[verifier::ext_equal]
pub ghost struct BlockModel {
    pub local: Vec2,
    pub trans: TransModel,
}

/// One square block of a piece.
#[derive(Clone, Copy, Debug)]
pub struct SquareBlock {
    local_coords: Vec2,
    trans: Transformation,
}

impl View for SquareBlock {
    type V = BlockModel;

    closed spec fn view(&self) -> BlockModel {
        BlockModel { local: self.local_coords, trans: self.trans@ }
    }
}

impl SquareBlock {
    /// A block at the given local offset, with its animation at rest.
    pub fn new(local_coords: Vec2, block_size: i64) -> (r: SquareBlock)
        ensures
            r@.local == local_coords,
            r@.trans == empty_model(block_size as int),
    {
        SquareBlock { local_coords, trans: Transformation::empty(block_size) }
    }

    /// The block's fixed local offset, for rendering.
    pub fn local_coords(&self) -> (r: Vec2)
        ensures
            r == self@.local,
    {
        self.local_coords
    }

    /// The block's animation controller, read-only.
    pub fn transformation(&self) -> (r: &Transformation)
        ensures
            r@ == self@.trans,
    {
        &self.trans
    }

    /// The block's current interpolated pose, for rendering.
    pub fn current_pose(&self) -> (r: Isometry)
        ensures
            r@ == self@.trans.state,
    {
        self.trans.current_pose()
    }

    /// Queues a motion delta into the block's animation controller.
    pub fn apply(&mut self, iso: &Isometry)
        requires
            queue_fits(old(self)@.trans, iso@),
        ensures
            final(self)@.trans == queue_model(old(self)@.trans, iso@),
            final(self)@.local == old(self)@.local,
    {
        self.trans.queue_delta(iso);
    }

    /// Advances the block's animation by one tick.
    pub fn update(&mut self)
        requires
            tick_fits(old(self)@.trans),
        ensures
            final(self)@.trans == tick_model(old(self)@.trans),
            final(self)@.local == old(self)@.local,
    {
        self.trans.update();
    }
}

} // verus!
