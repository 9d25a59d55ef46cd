use tetromino_core::geometry::Vec2;
use tetromino_core::tetromino::TetrominoShape;
use tetromino_core::tetromino::initial_layout;

fn all_kinds() -> Vec<TetrominoShape> {
    vec![
        TetrominoShape::Z,
        TetrominoShape::S,
        TetrominoShape::O,
        TetrominoShape::L,
        TetrominoShape::J,
        TetrominoShape::I,
        TetrominoShape::T,
    ]
}

#[test]
fn every_kind_has_four_distinct_offsets() {
    for kind in all_kinds() {
        let (offsets, _) = initial_layout(&kind);
        assert_eq!(offsets.len(), 4);
        for i in 0..4 {
            for j in 0..4 {
                if i != j {
                    assert_ne!(offsets[i], offsets[j], "{:?}", kind);
                }
            }
        }
    }
}

#[test]
fn z_layout_matches_catalog() {
    let (offsets, pivot) = initial_layout(&TetrominoShape::Z);
    assert_eq!(
        offsets,
        vec![
            Vec2 { x: 0, y: 0 },
            Vec2 { x: 1, y: 0 },
            Vec2 { x: 1, y: 1 },
            Vec2 { x: 2, y: 1 },
        ]
    );
    assert_eq!(pivot, Vec2 { x: 2, y: 2 });
}

#[test]
fn i_layout_matches_catalog() {
    let (offsets, pivot) = initial_layout(&TetrominoShape::I);
    assert_eq!(
        offsets,
        vec![
            Vec2 { x: 0, y: 1 },
            Vec2 { x: 1, y: 1 },
            Vec2 { x: 2, y: 1 },
            Vec2 { x: 3, y: 1 },
        ]
    );
    assert_eq!(pivot, Vec2 { x: 3, y: 3 });
}

#[test]
fn o_pivot_is_footprint_center() {
    let (_, pivot) = initial_layout(&TetrominoShape::O);
    assert_eq!(pivot, Vec2 { x: 3, y: 1 });
}

#[test]
fn t_layout_matches_catalog() {
    let (offsets, pivot) = initial_layout(&TetrominoShape::T);
    assert_eq!(
        offsets,
        vec![
            Vec2 { x: 1, y: 0 },
            Vec2 { x: 0, y: 1 },
            Vec2 { x: 1, y: 1 },
            Vec2 { x: 2, y: 1 },
        ]
    );
    assert_eq!(pivot, Vec2 { x: 2, y: 2 });
}
