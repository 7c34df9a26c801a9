use tetris::game::{Game, GlassPixel};
use tetris::ioscreen::Canvas;
use tetris::{GAME_CANVAS_WIDTH, GLASS_HEIGHT, GLASS_WIDTH};

#[test]
fn glass_pixel_default_is_empty() {
    assert_eq!(GlassPixel::default(), GlassPixel::Empty);
}

#[test]
fn new_game_has_empty_glass_and_centered_piece() {
    let game = Game::new();
    for y in 0..GLASS_HEIGHT {
        for x in 0..GLASS_WIDTH {
            assert_eq!(game.pixel_at(x, y), GlassPixel::Empty);
        }
    }
    let piece = game.piece();
    assert_eq!(piece.origin_x(), GLASS_WIDTH / 2);
    assert_eq!(piece.origin_y(), 0);
    assert_eq!(piece.rotation(), 0);
}

#[test]
fn validate_accepts_the_field_and_rejects_the_rest() {
    assert!(Game::validate_coordinates(&vec![]));
    assert!(Game::validate_coordinates(&vec![(0, 0), (9, 19), (5, 10)]));
    assert!(!Game::validate_coordinates(&vec![(10, 0)]));
    assert!(!Game::validate_coordinates(&vec![(0, 20)]));
    assert!(!Game::validate_coordinates(&vec![(10, 19)]));
    assert!(!Game::validate_coordinates(&vec![(9, 20)]));
    assert!(!Game::validate_coordinates(&vec![(usize::MAX, 0)]));
    assert!(!Game::validate_coordinates(&vec![(0, 0), (9, 19), (10, 20)]));
}

#[test]
fn stamp_then_freeze_then_clear() {
    let mut game = Game::new();
    let landing = vec![(0usize, 19usize), (1usize, 19usize)];
    game.stamp_shape(&landing);
    assert_eq!(game.pixel_at(0, 19), GlassPixel::Figure);
    assert_eq!(game.pixel_at(1, 19), GlassPixel::Figure);
    assert_eq!(game.pixel_at(2, 19), GlassPixel::Empty);

    game.freeze_shape();
    assert_eq!(game.pixel_at(0, 19), GlassPixel::Frozen);
    assert_eq!(game.pixel_at(1, 19), GlassPixel::Frozen);

    let falling = vec![(4usize, 3usize)];
    game.stamp_shape(&falling);
    game.clear_shape_in_glass();
    assert_eq!(game.pixel_at(4, 3), GlassPixel::Empty, "active marks are cleared");
    assert_eq!(game.pixel_at(0, 19), GlassPixel::Frozen, "frozen cells survive clearing");
    assert_eq!(game.pixel_at(1, 19), GlassPixel::Frozen);
}

#[test]
fn freezing_is_idempotent_and_keeps_frozen_cells() {
    let mut game = Game::new();
    game.stamp_shape(&vec![(3usize, 18usize), (4usize, 18usize)]);
    game.freeze_shape();
    let after_once: Vec<GlassPixel> =
        (0..GLASS_HEIGHT).flat_map(|y| (0..GLASS_WIDTH).map(move |x| (x, y)))
            .map(|(x, y)| game.pixel_at(x, y))
            .collect();
    game.freeze_shape();
    let after_twice: Vec<GlassPixel> =
        (0..GLASS_HEIGHT).flat_map(|y| (0..GLASS_WIDTH).map(move |x| (x, y)))
            .map(|(x, y)| game.pixel_at(x, y))
            .collect();
    assert_eq!(after_once, after_twice);
    assert_eq!(game.pixel_at(3, 18), GlassPixel::Frozen);
    assert_eq!(game.pixel_at(4, 18), GlassPixel::Frozen);
}

#[test]
fn intersects_frozen_only_on_frozen_cells() {
    let mut game = Game::new();
    game.stamp_shape(&vec![(5usize, 10usize)]);
    assert!(
        !game.intersects_frozen_pixels(&vec![(5, 10)]),
        "an Active cell is not a Frozen one"
    );
    game.freeze_shape();
    assert!(game.intersects_frozen_pixels(&vec![(5, 10)]));
    assert!(game.intersects_frozen_pixels(&vec![(0, 0), (5, 10)]));
    assert!(!game.intersects_frozen_pixels(&vec![(4, 10), (5, 9), (6, 11)]));
    assert!(!game.intersects_frozen_pixels(&vec![]));
    assert!(
        !game.intersects_frozen_pixels(&vec![(usize::MAX, usize::MAX)]),
        "a coordinate off the field addresses no cell"
    );
}

#[test]
fn canvas_starts_blank_and_set_char_writes_one_cell() {
    let mut canvas = Canvas::new(8, 3);
    assert_eq!(canvas.display_data.len(), 3);
    for row in &canvas.display_data {
        assert_eq!(row.len(), 8);
        assert!(row.iter().all(|&c| c == ' '));
    }
    canvas.set_char(2, 1, 'x');
    assert_eq!(canvas.display_data[1][2], 'x');
    assert_eq!(canvas.display_data[1][3], ' ');
    assert_eq!(canvas.display_data[0][2], ' ');
    canvas.clear();
    assert_eq!(canvas.display_data[1][2], ' ');
}

#[test]
fn draw_glass_inside_renders_the_glass() {
    let mut game = Game::new();
    game.stamp_shape(&vec![(0usize, 0usize)]);
    game.draw_glass_inside();
    let left = GAME_CANVAS_WIDTH / 2 - GLASS_WIDTH;
    assert_eq!(game.screen_canvas.display_data[0][left], '\u{2588}');
    assert_eq!(game.screen_canvas.display_data[0][left + 1], '\u{2588}');
    assert_eq!(game.screen_canvas.display_data[0][left + 2], ' ');
    assert_eq!(game.screen_canvas.display_data[0][left + 3], '.');
    assert_eq!(game.screen_canvas.display_data[19][left + 18], ' ');
    assert_eq!(game.screen_canvas.display_data[19][left + 19], '.');
}

#[test]
fn draw_text_writes_the_glyphs_in_place() {
    let mut game = Game::new();
    game.draw_text("abc", 4, 2);
    assert_eq!(game.screen_canvas.display_data[2][4], 'a');
    assert_eq!(game.screen_canvas.display_data[2][5], 'b');
    assert_eq!(game.screen_canvas.display_data[2][6], 'c');
    assert_eq!(game.screen_canvas.display_data[2][7], ' ');
    assert_eq!(game.screen_canvas.display_data[2][3], ' ');
    assert_eq!(game.screen_canvas.display_data[1][4], ' ');
}
