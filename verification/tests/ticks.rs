use tetris::game::{Game, GlassPixel};
use tetris::piece::ShapeState;
use tetris::shapes::{rotation_count, ShapeKind};
use tetris::{GLASS_HEIGHT, GLASS_WIDTH};

#[test]
fn spawn_origin_and_rotation_fallback() {
    let piece = ShapeState::new(ShapeKind::S);
    assert_eq!(piece.origin_x(), GLASS_WIDTH / 2);
    assert_eq!(piece.origin_y(), 0);
    assert_eq!(piece.rotation(), 0);

    let piece = ShapeState::new_position(ShapeKind::J, 3);
    assert_eq!(piece.rotation(), 3);
    let piece = ShapeState::new_position(ShapeKind::J, 4);
    assert_eq!(piece.rotation(), 0, "an out-of-range rotation falls back to 0");
    let piece = ShapeState::new_position(ShapeKind::O, 1);
    assert_eq!(piece.rotation(), 0);
}

#[test]
fn random_spawn_is_well_placed() {
    for _ in 0..50 {
        let piece = ShapeState::new_random();
        assert_eq!(piece.origin_x(), GLASS_WIDTH / 2);
        assert_eq!(piece.origin_y(), 0);
        assert!(piece.rotation() < rotation_count(piece.kind()));
    }
}

#[test]
fn translate_is_speculative_and_exact() {
    let piece = ShapeState::new(ShapeKind::L);
    let moved = piece.translate(-2, 3);
    assert_eq!(moved.origin_x(), 3);
    assert_eq!(moved.origin_y(), 3);
    assert_eq!(moved.kind(), ShapeKind::L);
    assert_eq!(moved.rotation(), piece.rotation());
    // the original piece is untouched
    assert_eq!(piece.origin_x(), GLASS_WIDTH / 2);
    assert_eq!(piece.origin_y(), 0);
    // no validation happens here: the origin may leave the field
    let outside = piece.translate(7, 30);
    assert_eq!(outside.origin_x(), 12);
    assert_eq!(outside.origin_y(), 30);
}

#[test]
fn landing_tick_ignores_pending_input() {
    let mut game = Game::new();
    for _ in 0..19 {
        let over = game.tick(None);
        assert!(!over);
    }
    // on the landing tick the out-of-bounds check comes first: the
    // pending input is not processed, the piece freezes and respawns
    let over = game.tick(Some('7'));
    assert!(!over);
    assert_eq!(game.piece().origin_x(), GLASS_WIDTH / 2);
    assert_eq!(game.piece().origin_y(), 1);
    assert_eq!(game.pixel_at(5, 18), GlassPixel::Frozen);
}

#[test]
fn twenty_ticks_without_input_land_the_piece() {
    let mut game = Game::new();
    for tick_number in 1..=19usize {
        let over = game.tick(None);
        assert!(!over);
        assert_eq!(game.piece().origin_y(), tick_number);
        assert_eq!(game.piece().origin_x(), GLASS_WIDTH / 2);
        for y in 0..GLASS_HEIGHT {
            for x in 0..GLASS_WIDTH {
                assert_ne!(
                    game.pixel_at(x, y),
                    GlassPixel::Frozen,
                    "nothing lands during the first 19 ticks"
                );
            }
        }
    }
    // the 20th tick finds the piece past the floor: freeze and respawn
    let over = game.tick(None);
    assert!(!over);
    assert_eq!(game.piece().origin_y(), 1, "the respawned piece has fallen one row");
    assert_eq!(game.piece().origin_x(), GLASS_WIDTH / 2);
    // the landed T piece was last stamped with its origin at row 18
    assert_eq!(game.pixel_at(5, 18), GlassPixel::Frozen);
    assert_eq!(game.pixel_at(6, 18), GlassPixel::Frozen);
    assert_eq!(game.pixel_at(7, 18), GlassPixel::Frozen);
    assert_eq!(game.pixel_at(6, 19), GlassPixel::Frozen);
}

#[test]
fn active_marks_follow_the_piece() {
    let mut game = Game::new();
    let over = game.tick(None);
    assert!(!over);
    // the T piece was stamped where the tick saw it, at row 0
    assert_eq!(game.pixel_at(5, 0), GlassPixel::Figure);
    assert_eq!(game.pixel_at(6, 0), GlassPixel::Figure);
    assert_eq!(game.pixel_at(7, 0), GlassPixel::Figure);
    assert_eq!(game.pixel_at(6, 1), GlassPixel::Figure);
    let over = game.tick(None);
    assert!(!over);
    // one row further down, and no stale mark above
    assert_eq!(game.pixel_at(5, 0), GlassPixel::Empty);
    assert_eq!(game.pixel_at(6, 0), GlassPixel::Empty);
    assert_eq!(game.pixel_at(5, 1), GlassPixel::Figure);
    assert_eq!(game.pixel_at(6, 1), GlassPixel::Figure);
    assert_eq!(game.pixel_at(7, 1), GlassPixel::Figure);
    assert_eq!(game.pixel_at(6, 2), GlassPixel::Figure);
}

#[test]
fn left_shift_at_the_wall_is_rejected() {
    let mut game = Game::new();
    for expected_x in (0..5usize).rev() {
        let over = game.tick(Some('7'));
        assert!(!over);
        assert_eq!(game.piece().origin_x(), expected_x);
    }
    assert_eq!(game.piece().origin_x(), 0);
    // one more leftward request would need column -1: all-or-nothing
    let over = game.tick(Some('7'));
    assert!(!over);
    assert_eq!(game.piece().origin_x(), 0, "the rejected shift leaves the origin unchanged");
}

#[test]
fn right_shift_at_the_wall_is_rejected() {
    let mut game = Game::new();
    // the T piece is three cells wide: its origin can reach column 7
    for expected_x in 6..=7usize {
        let over = game.tick(Some('9'));
        assert!(!over);
        assert_eq!(game.piece().origin_x(), expected_x);
    }
    let over = game.tick(Some('9'));
    assert!(!over);
    assert_eq!(game.piece().origin_x(), 7, "a shift past the right wall is rejected");
}

#[test]
fn alternating_inputs_leave_the_column_unchanged() {
    let mut game = Game::new();
    let start_x = game.piece().origin_x();
    let over = game.tick(Some('7'));
    assert!(!over);
    assert_eq!(game.piece().origin_x(), start_x - 1);
    let over = game.tick(Some('9'));
    assert!(!over);
    assert_eq!(game.piece().origin_x(), start_x, "a left-right pair drifts nowhere");
}

#[test]
fn respawn_into_frozen_cells_ends_the_game() {
    let mut game = Game::new();
    // freeze the whole spawn region, rows 0..4
    let mut plug: Vec<(usize, usize)> = Vec::new();
    for y in 0..4usize {
        for x in 0..GLASS_WIDTH {
            plug.push((x, y));
        }
    }
    game.stamp_shape(&plug);
    game.freeze_shape();
    // the piece at (5, 0) overlaps: it freezes and respawns, and the
    // fresh piece overlaps too, on the same tick
    let over = game.update_glass(None);
    assert!(over, "a respawn into frozen cells is the end of the game");
}

#[test]
fn blocked_shift_into_frozen_cells_is_rejected() {
    let mut game = Game::new();
    // a frozen column just left of the spawned T piece
    game.stamp_shape(&vec![(4usize, 0usize), (4usize, 1usize)]);
    game.freeze_shape();
    let over = game.update_glass(Some('7'));
    assert!(!over);
    assert_eq!(
        game.piece().origin_x(),
        GLASS_WIDTH / 2,
        "a shift into frozen cells keeps the old origin"
    );
}
