use tetromino_core::collision::BoundaryClassification;
use tetromino_core::collision::Field;
use tetromino_core::collision::classify;
use tetromino_core::collision::correction_for;
use tetromino_core::collision::effective_delta;
use tetromino_core::collision::intersects;
use tetromino_core::geometry::Aabb;
use tetromino_core::geometry::Vec2;
use tetromino_core::isometry::Isometry;
use tetromino_core::isometry::add_isometries;
use tetromino_core::tetromino::Direction;
use tetromino_core::tetromino::Tetromino;
use tetromino_core::tetromino::TetrominoShape;

fn default_field() -> Field {
    Field { center: Vec2 { x: 200, y: 240 }, half_extents: Vec2 { x: 200, y: 200 } }
}

#[test]
fn field_box_from_center_and_half_extents() {
    let b = default_field().aabb();
    assert_eq!(b.mins, Vec2 { x: 0, y: 40 });
    assert_eq!(b.maxs, Vec2 { x: 400, y: 440 });
}

#[test]
fn loosened_grows_every_side() {
    let b = default_field().aabb().loosened(40);
    assert_eq!(b.mins, Vec2 { x: -40, y: 0 });
    assert_eq!(b.maxs, Vec2 { x: 440, y: 480 });
}

#[test]
fn aabb_overlap_counts_touching() {
    let a = Aabb { mins: Vec2 { x: 0, y: 0 }, maxs: Vec2 { x: 10, y: 10 } };
    let b = Aabb { mins: Vec2 { x: 10, y: 10 }, maxs: Vec2 { x: 20, y: 20 } };
    let c = Aabb { mins: Vec2 { x: 11, y: 0 }, maxs: Vec2 { x: 20, y: 10 } };
    assert!(a.intersects(&b));
    assert!(!a.intersects(&c));
    assert!(a.contains_box(&Aabb { mins: Vec2 { x: 1, y: 2 }, maxs: Vec2 { x: 9, y: 9 } }));
    assert!(!a.contains_box(&b));
}

#[test]
fn spawned_piece_moving_down_is_unobstructed() {
    let t = Tetromino::new(TetrominoShape::T, Direction::LeftToRight, 40);
    let c = classify(&t.state, &t.state.canonical_move_down(), &default_field());
    assert_eq!(c, BoundaryClassification::Unobstructed);
}

#[test]
fn spawn_bounding_box_of_bar_piece() {
    let t = Tetromino::new(TetrominoShape::I, Direction::LeftToRight, 40);
    let b = t.state.bounding_box();
    assert_eq!(b.mins, Vec2 { x: 160, y: 200 });
    assert_eq!(b.maxs, Vec2 { x: 320, y: 240 });
}

#[test]
fn one_block_above_loosened_edge_classifies_as_top_overrun() {
    // The proposed box's top edge lands exactly one block size above the
    // loosened field edge (at y == -40, the loosened edge being y == 0).
    let t = Tetromino::new(TetrominoShape::I, Direction::LeftToRight, 40);
    let proposal = Isometry::new(0, -240, 0);
    let c = classify(&t.state, &proposal, &default_field());
    assert_eq!(c, BoundaryClassification::OverrunTop);
    let correction = correction_for(c, t.state.block_size);
    assert_eq!(correction, Isometry { x: 0, y: 40, rot: 0 });
    // Composing the correction leaves the top edge exactly on the loosened
    // boundary.
    let committed = add_isometries(&proposal, &correction);
    let pose = add_isometries(&t.state.isometry, &committed);
    let b = t.state.bounding_box_under(&pose);
    assert_eq!(b.mins.y, 0);
}

#[test]
fn deep_overshoot_downward_classifies_as_bottom_overrun() {
    let t = Tetromino::new(TetrominoShape::I, Direction::LeftToRight, 40);
    let proposal = Isometry::new(0, 280, 0);
    let c = classify(&t.state, &proposal, &default_field());
    assert_eq!(c, BoundaryClassification::OverrunBottom);
}

#[test]
fn corrections_per_classification() {
    assert_eq!(
        correction_for(BoundaryClassification::Unobstructed, 40),
        Isometry { x: 0, y: 0, rot: 0 }
    );
    assert_eq!(
        correction_for(BoundaryClassification::OverrunTop, 40),
        Isometry { x: 0, y: 40, rot: 0 }
    );
    assert_eq!(
        correction_for(BoundaryClassification::OverrunBottom, 40),
        Isometry { x: 0, y: -40, rot: 0 }
    );
}

#[test]
fn effective_delta_composes_proposal_and_correction() {
    let t = Tetromino::new(TetrominoShape::I, Direction::LeftToRight, 40);
    let field = default_field();
    let unobstructed = effective_delta(&t.state, &Isometry::new(0, 40, 0), &field);
    assert_eq!(unobstructed, Isometry { x: 0, y: 40, rot: 0 });
    let clamped = effective_delta(&t.state, &Isometry::new(0, -280, 0), &field);
    assert_eq!(clamped, Isometry { x: 0, y: -240, rot: 0 });
}

#[test]
fn classification_is_idempotent_without_applying() {
    let t = Tetromino::new(TetrominoShape::T, Direction::LeftToRight, 40);
    let field = default_field();
    let delta = t.state.canonical_move_down();
    let first = classify(&t.state, &delta, &field);
    for _ in 0..5 {
        assert_eq!(classify(&t.state, &delta, &field), first);
    }
}

#[test]
fn per_block_intersection_against_an_obstacle() {
    let t = Tetromino::new(TetrominoShape::T, Direction::LeftToRight, 40);
    let obstacle = Aabb { mins: Vec2 { x: 200, y: 80 }, maxs: Vec2 { x: 240, y: 120 } };
    assert!(!intersects(&t.state, &obstacle, &Isometry::new(0, 0, 0)));
    assert!(intersects(&t.state, &obstacle, &Isometry::new(0, -140, 0)));
}

#[test]
fn bounding_box_follows_a_right_quarter_turn() {
    let mut t = Tetromino::new(TetrominoShape::I, Direction::LeftToRight, 40);
    t.rot_right();
    assert_eq!(t.state.isometry.rot, 100);
    let b = t.state.bounding_box();
    // The horizontal bar stands upright: block centers move from
    // x in {-60..60} to y in {-60..60}, each center at x == 20.
    assert_eq!(b.mins, Vec2 { x: 240, y: 160 });
    assert_eq!(b.maxs, Vec2 { x: 280, y: 320 });
}

#[test]
fn bounding_box_normalizes_negative_angles() {
    let mut t = Tetromino::new(TetrominoShape::I, Direction::LeftToRight, 40);
    t.rot_left();
    assert_eq!(t.state.isometry.rot, -100);
    let b = t.state.bounding_box();
    // One left quarter turn equals three right ones: centers at x == -20.
    assert_eq!(b.mins, Vec2 { x: 200, y: 160 });
    assert_eq!(b.maxs, Vec2 { x: 240, y: 320 });
}

#[test]
fn two_quarter_turns_mirror_the_bar() {
    let mut t = Tetromino::new(TetrominoShape::I, Direction::LeftToRight, 40);
    t.rot_right();
    t.rot_right();
    let b = t.state.bounding_box();
    // Centers at y == 20, x mirrored back over {-60..60}.
    assert_eq!(b.mins, Vec2 { x: 160, y: 240 });
    assert_eq!(b.maxs, Vec2 { x: 320, y: 280 });
}

#[test]
fn double_overrun_resolves_to_the_top_branch() {
    // A piece taller than the loosened field overruns both edges at once.
    // The classifier tests the top edge before falling through to the
    // bottom branch, so the top wins; this pins that documented tie-break.
    let mut t = Tetromino::new(TetrominoShape::I, Direction::LeftToRight, 40);
    t.rot_right();
    let small_field = Field { center: Vec2 { x: 200, y: 240 }, half_extents: Vec2 { x: 10, y: 10 } };
    let c = classify(&t.state, &Isometry::new(0, 0, 0), &small_field);
    assert_eq!(c, BoundaryClassification::OverrunTop);
}

#[test]
fn per_block_intersection_follows_the_piece_rotation() {
    let mut t = Tetromino::new(TetrominoShape::T, Direction::LeftToRight, 40);
    let obstacle = Aabb { mins: Vec2 { x: 250, y: 310 }, maxs: Vec2 { x: 270, y: 330 } };
    let stay = Isometry::new(0, 0, 0);
    assert!(!intersects(&t.state, &obstacle, &stay));
    t.rot_right();
    assert!(intersects(&t.state, &obstacle, &stay));
}
