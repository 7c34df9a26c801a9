use tetris::shapes::{relative_cells, rotation_count, shape_coordinates, ShapeKind};

fn all_kinds() -> [ShapeKind; 7] {
    [
        ShapeKind::I,
        ShapeKind::J,
        ShapeKind::L,
        ShapeKind::O,
        ShapeKind::S,
        ShapeKind::T,
        ShapeKind::Z,
    ]
}

#[test]
fn rotation_counts_match_catalog() {
    assert_eq!(rotation_count(ShapeKind::I), 2);
    assert_eq!(rotation_count(ShapeKind::J), 4);
    assert_eq!(rotation_count(ShapeKind::L), 4);
    assert_eq!(rotation_count(ShapeKind::O), 1);
    assert_eq!(rotation_count(ShapeKind::S), 2);
    assert_eq!(rotation_count(ShapeKind::T), 4);
    assert_eq!(rotation_count(ShapeKind::Z), 2);
}

#[test]
fn every_variant_nonempty_and_within_extent() {
    for kind in all_kinds() {
        for rotation in 0..rotation_count(kind) {
            let cells = relative_cells(kind, rotation);
            assert!(!cells.is_empty());
            assert_eq!(cells.len(), 4, "a tetromino occupies four cells");
            for (dx, dy) in cells {
                assert!(dx <= 3, "column offset out of the variant box");
                assert!(dy <= 3, "row offset out of the variant box");
            }
        }
    }
}

#[test]
fn out_of_range_rotation_falls_back_to_zero() {
    for kind in all_kinds() {
        let first = relative_cells(kind, 0);
        let count = rotation_count(kind);
        assert_eq!(relative_cells(kind, count), first);
        assert_eq!(relative_cells(kind, 99), first);
        assert_eq!(relative_cells(kind, usize::MAX), first);
    }
}

#[test]
fn exact_variants() {
    assert_eq!(relative_cells(ShapeKind::I, 0), vec![(0, 0), (0, 1), (0, 2), (0, 3)]);
    assert_eq!(relative_cells(ShapeKind::I, 1), vec![(0, 1), (1, 1), (2, 1), (3, 1)]);
    assert_eq!(relative_cells(ShapeKind::O, 0), vec![(0, 0), (1, 0), (0, 1), (1, 1)]);
    assert_eq!(relative_cells(ShapeKind::T, 0), vec![(0, 0), (1, 0), (2, 0), (1, 1)]);
    assert_eq!(relative_cells(ShapeKind::S, 0), vec![(1, 0), (2, 0), (0, 1), (1, 1)]);
    assert_eq!(relative_cells(ShapeKind::Z, 0), vec![(0, 0), (1, 0), (1, 1), (2, 1)]);
}

#[test]
fn each_rotation_keeps_four_distinct_cells() {
    for kind in all_kinds() {
        for rotation in 0..rotation_count(kind) {
            let mut cells = relative_cells(kind, rotation);
            cells.sort();
            cells.dedup();
            assert_eq!(cells.len(), 4, "rotation variants never overlap themselves");
        }
    }
}

#[test]
fn shape_coordinates_shift_by_origin() {
    let coords = shape_coordinates(ShapeKind::T, 0, 5, 3);
    assert_eq!(coords, vec![(5, 3), (6, 3), (7, 3), (6, 4)]);
    let coords = shape_coordinates(ShapeKind::I, 1, 0, 0);
    assert_eq!(coords, vec![(0, 1), (1, 1), (2, 1), (3, 1)]);
}
