use tetromino_core::collision::BoundaryClassification;
use tetromino_core::collision::Field;
use tetromino_core::game::Command;
use tetromino_core::game::Game;
use tetromino_core::geometry::Vec2;
use tetromino_core::isometry::Isometry;
use tetromino_core::tetromino::Direction;
use tetromino_core::tetromino::Tetromino;
use tetromino_core::tetromino::TetrominoShape;

#[test]
fn default_board_spawns_a_t_piece_over_the_field() {
    let g = Game::new();
    assert_eq!(g.field.center, Vec2 { x: 200, y: 240 });
    assert_eq!(g.field.half_extents, Vec2 { x: 200, y: 200 });
    assert_eq!(g.tetromino.state.block_size, 40);
    assert_eq!(g.tetromino.state.isometry, Isometry { x: 260, y: 260, rot: 0 });
    assert_eq!(g.tetromino.state.rotation_point, Vec2 { x: 40, y: 40 });
    assert_eq!(g.tetromino.blocks.len(), 4);
    assert!(g.check_can_step());
    assert!(g.check_can_tick());
}

#[test]
fn one_move_down_advances_the_pose_one_block() {
    let mut g = Game::new();
    let c = g.on_input(Command::MoveDown);
    assert_eq!(c, BoundaryClassification::Unobstructed);
    assert_eq!(g.tetromino.state.isometry, Isometry { x: 260, y: 300, rot: 0 });
}

#[test]
fn rotate_left_then_right_restores_the_pose() {
    let mut g = Game::new();
    let before = g.tetromino.state.isometry;
    g.on_input(Command::RotateLeft);
    assert_eq!(g.tetromino.state.isometry, Isometry { x: 260, y: 260, rot: -100 });
    g.on_input(Command::RotateRight);
    assert_eq!(g.tetromino.state.isometry, before);
}

#[test]
fn four_left_rotations_are_a_full_turn() {
    let mut g = Game::new();
    for _ in 0..4 {
        g.on_input(Command::RotateLeft);
    }
    let rot = g.tetromino.state.isometry.rot;
    assert_eq!(rot, -400);
    assert_eq!(rot.rem_euclid(400), 0);
}

#[test]
fn animation_follows_a_committed_move() {
    let mut g = Game::new();
    g.on_input(Command::MoveDown);
    for _ in 0..20 {
        assert!(g.check_can_tick());
        g.on_update();
    }
    for b in g.tetromino.blocks.iter() {
        assert_eq!(b.current_pose(), Isometry { x: 0, y: 40, rot: 0 });
    }
}

#[test]
fn move_up_at_spawn_is_unobstructed_by_the_loose_margin() {
    let mut g = Game::new();
    let c = g.on_input(Command::MoveUp);
    assert_eq!(c, BoundaryClassification::Unobstructed);
    assert_eq!(g.tetromino.state.isometry.y, 220);
}

#[test]
fn bar_piece_falls_nine_blocks_then_clamps_at_the_bottom() {
    // A field tall enough for exactly nine unobstructed downward moves of a
    // bar piece spawned at the board-center spawn pose.
    let mut g = Game {
        tetromino: Tetromino::new(TetrominoShape::I, Direction::LeftToRight, 40),
        field: Field { center: Vec2 { x: 200, y: 360 }, half_extents: Vec2 { x: 200, y: 200 } },
    };
    let spawn_y = g.tetromino.state.isometry.y;
    assert_eq!(spawn_y, 240);
    for _ in 0..9 {
        assert!(g.check_can_step());
        let c = g.on_input(Command::MoveDown);
        assert_eq!(c, BoundaryClassification::Unobstructed);
    }
    assert_eq!(g.tetromino.state.isometry.y - spawn_y, 9 * 40);
    let before = g.tetromino.state.isometry.y;
    let c = g.on_input(Command::MoveDown);
    assert_eq!(c, BoundaryClassification::OverrunBottom);
    // The committed vertical translation advances by less than a full block:
    // the one-block correction cancels the proposal entirely.
    assert!(g.tetromino.state.isometry.y - before < 40);
    assert_eq!(g.tetromino.state.isometry.y, before);
}

#[test]
fn reversed_command_mid_animation_still_settles() {
    let mut g = Game::new();
    g.on_input(Command::MoveDown);
    for _ in 0..5 {
        g.on_update();
    }
    for b in g.tetromino.blocks.iter() {
        assert_eq!(b.current_pose(), Isometry { x: 0, y: 10, rot: 0 });
    }
    g.on_input(Command::MoveUp);
    for _ in 0..20 {
        g.on_update();
    }
    for b in g.tetromino.blocks.iter() {
        assert_eq!(b.current_pose(), Isometry { x: 0, y: 0, rot: 0 });
    }
}
