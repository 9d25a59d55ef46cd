use tetromino_core::geometry::Vec2;
use tetromino_core::isometry::Isometry;
use tetromino_core::square_block::SquareBlock;
use tetromino_core::transformations::Transformation;

#[test]
fn empty_controller_is_at_rest() {
    let mut t = Transformation::empty(40);
    assert_eq!(t.x(), 0);
    assert_eq!(t.y(), 0);
    assert_eq!(t.rot(), 0);
    t.update();
    assert_eq!(t.current_pose(), Isometry { x: 0, y: 0, rot: 0 });
}

#[test]
fn move_down_sets_target_and_step() {
    let t = Transformation::move_down(40, 40);
    assert_eq!(t.target_pose(), Isometry { x: 0, y: 40, rot: 0 });
    assert_eq!(t.step_pose(), Isometry { x: 0, y: 2, rot: 0 });
    assert_eq!(t.current_pose(), Isometry { x: 0, y: 0, rot: 0 });
}

#[test]
fn move_up_sets_negative_target() {
    let t = Transformation::move_up(40, 40);
    assert_eq!(t.target_pose(), Isometry { x: 0, y: -40, rot: 0 });
    assert_eq!(t.step_pose(), Isometry { x: 0, y: -2, rot: 0 });
}

#[test]
fn one_block_down_converges_in_exactly_twenty_ticks() {
    let mut t = Transformation::move_down(40, 40);
    for _ in 0..19 {
        t.update();
    }
    assert_ne!(t.y(), 40);
    assert_eq!(t.y(), 38);
    t.update();
    assert_eq!(t.current_pose(), Isometry { x: 0, y: 40, rot: 0 });
    assert_eq!(t.step_pose(), Isometry { x: 0, y: 0, rot: 0 });
}

#[test]
fn ticks_after_convergence_change_nothing() {
    let mut t = Transformation::move_down(40, 40);
    for _ in 0..25 {
        t.update();
    }
    assert_eq!(t.current_pose(), Isometry { x: 0, y: 40, rot: 0 });
}

#[test]
fn quarter_turn_converges_in_twenty_ticks() {
    let mut t = Transformation::rot_right(100, 40);
    assert_eq!(t.step_pose(), Isometry { x: 0, y: 0, rot: 5 });
    for _ in 0..19 {
        t.update();
    }
    assert_eq!(t.rot(), 95);
    t.update();
    assert_eq!(t.rot(), 100);
}

#[test]
fn left_rotation_has_negative_angle() {
    let t = Transformation::rot_left(100, 40);
    assert_eq!(t.target_pose(), Isometry { x: 0, y: 0, rot: -100 });
}

#[test]
fn queueing_mid_flight_relevels_the_step() {
    let mut t = Transformation::move_down(40, 40);
    for _ in 0..10 {
        t.update();
    }
    assert_eq!(t.y(), 20);
    t.queue_delta(&Isometry::new(0, 40, 0));
    assert_eq!(t.target_pose(), Isometry { x: 0, y: 80, rot: 0 });
    assert_eq!(t.step_pose(), Isometry { x: 0, y: 3, rot: 0 });
    t.update();
    assert_eq!(t.y(), 23);
}

#[test]
fn block_keeps_its_local_offset_while_animating() {
    let mut b = SquareBlock::new(Vec2 { x: -60, y: -60 }, 40);
    assert_eq!(b.local_coords(), Vec2 { x: -60, y: -60 });
    b.apply(&Isometry::new(0, 40, 0));
    for _ in 0..20 {
        b.update();
    }
    assert_eq!(b.local_coords(), Vec2 { x: -60, y: -60 });
    assert_eq!(b.current_pose(), Isometry { x: 0, y: 40, rot: 0 });
}

#[test]
fn block_animation_advances_by_steps() {
    let mut b = SquareBlock::new(Vec2 { x: 0, y: 0 }, 40);
    b.apply(&Isometry::new(0, -40, 0));
    b.update();
    assert_eq!(b.current_pose(), Isometry { x: 0, y: -2, rot: 0 });
    assert_eq!(b.transformation().target_pose(), Isometry { x: 0, y: -40, rot: 0 });
}

#[test]
fn releveled_flight_converges_within_twenty_ticks_of_the_queue() {
    let mut t = Transformation::move_down(40, 40);
    t.update();
    assert_eq!(t.y(), 2);
    t.queue_delta(&Isometry::new(0, 40, 0));
    // Remaining 78 over 20 ticks, rounded away from zero.
    assert_eq!(t.target_pose(), Isometry { x: 0, y: 80, rot: 0 });
    assert_eq!(t.step_pose(), Isometry { x: 0, y: 4, rot: 0 });
    for _ in 0..19 {
        t.update();
    }
    assert_ne!(t.y(), 80);
    t.update();
    assert_eq!(t.current_pose(), Isometry { x: 0, y: 80, rot: 0 });
    assert_eq!(t.step_pose(), Isometry { x: 0, y: 0, rot: 0 });
}

#[test]
fn reversing_mid_flight_converges_instead_of_stalling() {
    let mut t = Transformation::move_down(40, 40);
    for _ in 0..5 {
        t.update();
    }
    assert_eq!(t.y(), 10);
    t.queue_delta(&Isometry::new(0, -40, 0));
    // Remaining -10: a short way back still steps one unit per tick.
    assert_eq!(t.target_pose(), Isometry { x: 0, y: 0, rot: 0 });
    assert_eq!(t.step_pose(), Isometry { x: 0, y: -1, rot: 0 });
    for _ in 0..20 {
        t.update();
    }
    assert_eq!(t.current_pose(), Isometry { x: 0, y: 0, rot: 0 });
}

#[test]
fn block_sizes_below_steps_still_converge() {
    let mut t = Transformation::move_down(6, 6);
    assert_eq!(t.step_pose(), Isometry { x: 0, y: 1, rot: 0 });
    for _ in 0..20 {
        t.update();
    }
    assert_eq!(t.current_pose(), Isometry { x: 0, y: 6, rot: 0 });
}
