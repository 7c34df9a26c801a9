//! The playing field and the tick state machine: cell states, bounds
//! validation, frozen-overlap detection, stamping, clearing and
//! freezing, and the once-per-tick transition that applies input,
//! detects landing, respawns the piece and detects the end of the
//! game.

use vstd::prelude::*;
use crate::ioscreen::Canvas;
use crate::piece::ShapeState;
use crate::shapes::{
    ShapeKind, absolute_cells_of, effective_rotation, relative_cells_spec,
    lemma_relative_cells_within_extent, lemma_offsets_small,
};
use crate::{GLASS_WIDTH, GLASS_HEIGHT, GLASS_AREA, GAME_CANVAS_WIDTH, GAME_CANVAS_HEIGHT};

verus! {

/// The state of one grid cell: unoccupied, occupied by the falling
/// piece (recomputed every tick), or occupied for good by a piece
/// that has landed.
#[derive(Clone, Copy, PartialEq, Eq, Structural, Debug)]
pub enum GlassPixel {
    Empty,
    Figure,
    Frozen,
}

impl Default for GlassPixel {
    /// A cell starts unoccupied.
    fn default() -> (p: Self)
        ensures
            p == GlassPixel::Empty,
    {
        GlassPixel::Empty
    }
}

/// Where the cell at column x, row y lives in the row-major glass.
pub open spec fn cell_index(x: int, y: int) -> int {
    y * (GLASS_WIDTH as int) + x
}

/// Whether one coordinate lies on the playing field.
pub open spec fn coord_in_bounds(c: (usize, usize)) -> bool {
    c.0 < GLASS_WIDTH && c.1 < GLASS_HEIGHT
}

/// Whether every coordinate of the list lies on the playing field.
pub open spec fn all_in_bounds(coords: Seq<(usize, usize)>) -> bool {
    forall|i: int| 0 <= i < coords.len() ==> coord_in_bounds(#[trigger] coords[i])
}

/// Whether the coordinate addresses a Frozen cell of the glass; a
/// coordinate off the field addresses no cell at all.
pub open spec fn frozen_at(g: Seq<GlassPixel>, c: (usize, usize)) -> bool {
    coord_in_bounds(c) && g[cell_index(c.0 as int, c.1 as int)] == GlassPixel::Frozen
}

/// Whether any coordinate of the list addresses a Frozen cell.
pub open spec fn hits_frozen(g: Seq<GlassPixel>, coords: Seq<(usize, usize)>) -> bool {
    exists|i: int| 0 <= i < coords.len() && frozen_at(g, #[trigger] coords[i])
}

/// The glass after every Figure cell is reset to Empty.
pub open spec fn clear_active_cells(g: Seq<GlassPixel>) -> Seq<GlassPixel> {
    Seq::new(
        g.len(),
        |i: int|
            if g[i] == GlassPixel::Figure {
                GlassPixel::Empty
            } else {
                g[i]
            },
    )
}

/// The glass after every Figure cell is turned Frozen.
pub open spec fn freeze_cells(g: Seq<GlassPixel>) -> Seq<GlassPixel> {
    Seq::new(
        g.len(),
        |i: int|
            if g[i] == GlassPixel::Figure {
                GlassPixel::Frozen
            } else {
                g[i]
            },
    )
}

/// Whether one of the first n coordinates of the list addresses the
/// row-major glass index t.
pub open spec fn covered_by_prefix(coords: Seq<(usize, usize)>, n: int, t: int) -> bool {
    exists|j: int|
        0 <= j < n && cell_index((#[trigger] coords[j]).0 as int, coords[j].1 as int) == t
}

/// The glass after every listed coordinate is stamped Figure.
pub open spec fn stamp_cells(g: Seq<GlassPixel>, coords: Seq<(usize, usize)>) -> Seq<GlassPixel> {
    Seq::new(
        g.len(),
        |t: int|
            if covered_by_prefix(coords, coords.len() as int, t) {
                GlassPixel::Figure
            } else {
                g[t]
            },
    )
}

/// Clearing then re-stamping leaves no stale mark: a cell is Figure
/// afterwards exactly when a stamped coordinate addresses it, so at
/// most one piece's cells are ever marked Active.
pub proof fn lemma_no_stale_marks(g: Seq<GlassPixel>, coords: Seq<(usize, usize)>, t: int)
    requires
        0 <= t < g.len(),
    ensures
        stamp_cells(clear_active_cells(g), coords)[t] == GlassPixel::Figure <==> covered_by_prefix(
            coords,
            coords.len() as int,
            t,
        ),
{
}

/// Freezing never unfreezes: a Frozen cell is still Frozen after the
/// glass is frozen again.
pub proof fn lemma_freeze_keeps_frozen(g: Seq<GlassPixel>, i: int)
    requires
        0 <= i < g.len(),
        g[i] == GlassPixel::Frozen,
    ensures
        freeze_cells(g)[i] == GlassPixel::Frozen,
{
}

/// Freezing is idempotent: freezing an already frozen glass changes
/// nothing, since no Figure cell is left after the first pass.
pub proof fn lemma_freeze_idempotent(g: Seq<GlassPixel>)
    ensures
        freeze_cells(freeze_cells(g)) == freeze_cells(g),
{
    assert(freeze_cells(freeze_cells(g)) =~= freeze_cells(g));
}

/// The column a pressed key asks the piece's origin to move to:
/// '7' asks one column left, '9' one column right, anything else
/// leaves it where it is.
pub open spec fn shift_target(x: usize, key: Option<char>) -> int {
    if key == Some('7') {
        x - 1
    } else if key == Some('9') {
        x + 1
    } else {
        x as int
    }
}

/// Whether the piece may stand with its origin at column nx: such a
/// column exists, every cell there lies on the field, and none of
/// them addresses a Frozen cell.
pub open spec fn shift_ok(g: Seq<GlassPixel>, s: ShapeState, nx: int) -> bool {
    &&& 0 <= nx <= usize::MAX
    &&& all_in_bounds(absolute_cells_of(s.shape, s.position as int, nx as usize, s.y))
    &&& !hits_frozen(g, absolute_cells_of(s.shape, s.position as int, nx as usize, s.y))
}

/// The origin column after the tick's horizontal input is resolved:
/// the asked column when the whole move is possible, and exactly the
/// old column when the candidate is rejected — all or nothing.
pub open spec fn shifted_x(g: Seq<GlassPixel>, s: ShapeState, key: Option<char>) -> usize {
    let nx = shift_target(s.x, key);
    if nx == s.x {
        s.x
    } else if shift_ok(g, s, nx) {
        nx as usize
    } else {
        s.x
    }
}

/// What holds of every freshly spawned piece: well formed, with its
/// origin at the middle column of the top row. Its kind and rotation
/// are drawn at random, so nothing more can be said of them.
pub open spec fn is_spawn(s: ShapeState) -> bool {
    &&& s.x == GLASS_WIDTH as int / 2
    &&& s.y == 0
    &&& s.wf()
}

/// A rejected horizontal shift is all-or-nothing: when the candidate
/// column is not possible, the resolved origin column is bit-for-bit
/// the old one.
pub proof fn lemma_shift_all_or_nothing(g: Seq<GlassPixel>, s: ShapeState, key: Option<char>)
    requires
        !shift_ok(g, s, shift_target(s.x, key)),
    ensures
        shifted_x(g, s, key) == s.x,
{
}

/// A piece standing wholly on the field has its origin on the field:
/// the origin is its topmost-leftmost reference, and every occupied
/// cell lies at or below, at or right of it.
pub proof fn lemma_origin_in_bounds(s: ShapeState)
    requires
        s.wf(),
        all_in_bounds(s.cells()),
    ensures
        s.x < GLASS_WIDTH,
        s.y < GLASS_HEIGHT,
{
    let rot = effective_rotation(s.shape, s.position as int);
    lemma_relative_cells_within_extent(s.shape, rot);
    lemma_offsets_small(s.shape, rot);
    let rel = relative_cells_spec(s.shape, rot);
    assert(s.cells().len() == rel.len());
    assert(s.cells()[0] == (((s.x + rel[0].0) as usize), ((s.y + rel[0].1) as usize)));
    assert(coord_in_bounds(s.cells()[0]));
}

/// How one tick's collision resolution — pending input, landing
/// detection, freezing, respawn, stamping — relates the state after
/// (post) to the state before (pre). The respawned piece is drawn at
/// random, so of it only the spawn placement is stated.
pub open spec fn update_post(pre: Game, post: Game, key: Option<char>, game_over: bool) -> bool {
    let g0 = pre.glass@;
    let p0 = pre.current_shape;
    &&& post.screen_canvas == pre.screen_canvas
    &&& if !all_in_bounds(p0.cells()) {
        // the piece has left the field: freeze it, spawn a fresh
        // piece, and do not process the pending input this tick
        &&& post.glass@ == freeze_cells(g0)
        &&& is_spawn(post.current_shape)
        &&& game_over == false
    } else {
        let p1 = ShapeState { x: shifted_x(g0, p0, key), ..p0 };
        if hits_frozen(g0, p1.cells()) {
            // landing on frozen cells: freeze, respawn; the game is
            // over exactly when even the fresh piece overlaps
            &&& post.glass@ == freeze_cells(g0)
            &&& is_spawn(post.current_shape)
            &&& game_over == hits_frozen(post.glass@, post.current_shape.cells())
        } else {
            // an ordinary fall step: commit the resolved column,
            // clear the stale marks and re-stamp the piece
            &&& post.glass@ == stamp_cells(clear_active_cells(g0), p1.cells())
            &&& post.current_shape == p1
            &&& game_over == false
        }
    }
}

/// Frozen cells persist across a tick: whichever branch the collision
/// resolution takes, a cell that was Frozen before it is still Frozen
/// after it. Freezing keeps Frozen cells, clearing touches only
/// Figure cells, and a piece is only ever stamped where it overlaps
/// no Frozen cell.
pub proof fn lemma_frozen_cells_persist(
    pre: Game,
    post: Game,
    key: Option<char>,
    game_over: bool,
    t: int,
)
    requires
        update_post(pre, post, key, game_over),
        0 <= t < pre.glass@.len(),
        pre.glass@[t] == GlassPixel::Frozen,
    ensures
        post.glass@.len() == pre.glass@.len(),
        post.glass@[t] == GlassPixel::Frozen,
{
    let g0 = pre.glass@;
    let p0 = pre.current_shape;
    if all_in_bounds(p0.cells()) {
        let p1 = ShapeState { x: shifted_x(g0, p0, key), ..p0 };
        if !hits_frozen(g0, p1.cells()) {
            let nx = shift_target(p0.x, key);
            if nx == p0.x {
                assert(p1 == p0);
            } else if shift_ok(g0, p0, nx) {
                assert(p1.cells() == absolute_cells_of(
                    p0.shape,
                    p0.position as int,
                    nx as usize,
                    p0.y,
                ));
            } else {
                assert(p1 == p0);
            }
            assert(all_in_bounds(p1.cells()));
            let cells = p1.cells();
            if covered_by_prefix(cells, cells.len() as int, t) {
                let j = choose|j: int|
                    0 <= j < cells.len() && cell_index(
                        (#[trigger] cells[j]).0 as int,
                        cells[j].1 as int,
                    ) == t;
                assert(coord_in_bounds(cells[j]));
                assert(frozen_at(g0, cells[j]));
                assert(hits_frozen(g0, cells));
            }
            assert(post.glass@[t] == clear_active_cells(g0)[t]);
        }
    }
}

/// The whole game state: the falling piece, the canvas the frame is
/// drawn on, and the glass, a row-major 10 x 20 field of cells.
pub struct Game {
    pub current_shape: ShapeState,
    pub screen_canvas: Canvas,
    pub glass: Vec<GlassPixel>,
}

impl Game {
    /// The game is well formed: the glass covers the whole field, the
    /// piece is well formed, and the canvas has the fixed frame size.
    pub open spec fn wf(self) -> bool {
        &&& self.glass@.len() == GLASS_AREA
        &&& self.current_shape.wf()
        &&& self.screen_canvas.wf_dims(GAME_CANVAS_WIDTH as int, GAME_CANVAS_HEIGHT as int)
    }

    /// A fresh game: an all-Empty glass, a blank canvas, and a T
    /// piece at the spawn origin.
    pub fn new() -> (game: Self)
        ensures
            game.wf(),
            forall|i: int| 0 <= i < GLASS_AREA ==> game.glass@[i] == GlassPixel::Empty,
            game.current_shape == (ShapeState {
                shape: ShapeKind::T,
                position: 0,
                x: GLASS_WIDTH / 2,
                y: 0,
            }),
    {
        let mut glass: Vec<GlassPixel> = Vec::new();
        let mut i: usize = 0;
        while i < GLASS_AREA
            invariant
                i <= GLASS_AREA,
                glass@.len() == i,
                forall|j: int| 0 <= j < i ==> glass@[j] == GlassPixel::Empty,
            decreases GLASS_AREA - i,
        {
            glass.push(GlassPixel::Empty);
            i = i + 1;
        }
        Game {
            current_shape: ShapeState::new(ShapeKind::T),
            screen_canvas: Canvas::new(GAME_CANVAS_WIDTH, GAME_CANVAS_HEIGHT),
            glass,
        }
    }

    /// Bounds validation: accepts the coordinate list exactly when
    /// every coordinate has column below 10 and row below 20. Any
    /// violating coordinate means the move that produced the list
    /// must be rejected.
    pub fn validate_coordinates(coordinates: &Vec<(usize, usize)>) -> (ok: bool)
        ensures
            ok == all_in_bounds(coordinates@),
    {
        let mut i: usize = 0;
        while i < coordinates.len()
            invariant
                i <= coordinates@.len(),
                forall|j: int| 0 <= j < i ==> coord_in_bounds(#[trigger] coordinates@[j]),
            decreases coordinates@.len() - i,
        {
            let (x, y) = coordinates[i];
            if x >= GLASS_WIDTH || y >= GLASS_HEIGHT {
                assert(!coord_in_bounds(coordinates@[i as int]));
                return false;
            }
            i = i + 1;
        }
        true
    }

    /// Frozen-overlap detection: true exactly when some coordinate of
    /// the list addresses a Frozen cell of the glass. Coordinates off
    /// the field address no cell and cannot overlap.
    pub fn intersects_frozen_pixels(&self, coordinates: &Vec<(usize, usize)>) -> (hit: bool)
        requires
            self.glass@.len() == GLASS_AREA,
        ensures
            hit == hits_frozen(self.glass@, coordinates@),
    {
        let mut i: usize = 0;
        while i < coordinates.len()
            invariant
                self.glass@.len() == GLASS_AREA,
                i <= coordinates@.len(),
                forall|j: int| 0 <= j < i ==> !frozen_at(self.glass@, #[trigger] coordinates@[j]),
            decreases coordinates@.len() - i,
        {
            let (x, y) = coordinates[i];
            if x < GLASS_WIDTH && y < GLASS_HEIGHT {
                let pixel = self.glass[y * GLASS_WIDTH + x];
                if pixel == GlassPixel::Frozen {
                    assert(frozen_at(self.glass@, coordinates@[i as int]));
                    return true;
                }
            }
            i = i + 1;
        }
        false
    }

    /// Clears the transient marks: every Figure cell becomes Empty,
    /// every other cell keeps its state. Idempotent, and called
    /// before re-stamping so no stale mark survives.
    pub fn clear_shape_in_glass(&mut self)
        requires
            old(self).glass@.len() == GLASS_AREA,
        ensures
            final(self).glass@ == clear_active_cells(old(self).glass@),
            final(self).current_shape == old(self).current_shape,
            final(self).screen_canvas == old(self).screen_canvas,
    {
        let mut i: usize = 0;
        while i < GLASS_AREA
            invariant
                i <= GLASS_AREA,
                self.glass@.len() == GLASS_AREA,
                old(self).glass@.len() == GLASS_AREA,
                self.current_shape == old(self).current_shape,
                self.screen_canvas == old(self).screen_canvas,
                forall|j: int|
                    0 <= j < i ==> self.glass@[j] == clear_active_cells(old(self).glass@)[j],
                forall|j: int| i <= j < GLASS_AREA ==> self.glass@[j] == old(self).glass@[j],
            decreases GLASS_AREA - i,
        {
            if self.glass[i] == GlassPixel::Figure {
                self.glass.set(i, GlassPixel::Empty);
            }
            i = i + 1;
        }
        proof {
            assert(self.glass@ =~= clear_active_cells(old(self).glass@));
        }
    }

    /// Lands the piece: every Figure cell becomes Frozen for good,
    /// every other cell keeps its state. Used once per landing, right
    /// before the piece is replaced.
    pub fn freeze_shape(&mut self)
        requires
            old(self).glass@.len() == GLASS_AREA,
        ensures
            final(self).glass@ == freeze_cells(old(self).glass@),
            final(self).current_shape == old(self).current_shape,
            final(self).screen_canvas == old(self).screen_canvas,
    {
        let mut i: usize = 0;
        while i < GLASS_AREA
            invariant
                i <= GLASS_AREA,
                self.glass@.len() == GLASS_AREA,
                old(self).glass@.len() == GLASS_AREA,
                self.current_shape == old(self).current_shape,
                self.screen_canvas == old(self).screen_canvas,
                forall|j: int| 0 <= j < i ==> self.glass@[j] == freeze_cells(old(self).glass@)[j],
                forall|j: int| i <= j < GLASS_AREA ==> self.glass@[j] == old(self).glass@[j],
            decreases GLASS_AREA - i,
        {
            if self.glass[i] == GlassPixel::Figure {
                self.glass.set(i, GlassPixel::Frozen);
            }
            i = i + 1;
        }
        proof {
            assert(self.glass@ =~= freeze_cells(old(self).glass@));
        }
    }

    /// Stamps the given cells Active (Figure). The caller has already
    /// validated bounds: stamping an out-of-range coordinate is a
    /// contract violation, not a recoverable condition.
    pub fn stamp_shape(&mut self, coordinates: &Vec<(usize, usize)>)
        requires
            old(self).glass@.len() == GLASS_AREA,
            all_in_bounds(coordinates@),
        ensures
            final(self).glass@ == stamp_cells(old(self).glass@, coordinates@),
            final(self).current_shape == old(self).current_shape,
            final(self).screen_canvas == old(self).screen_canvas,
    {
        let mut i: usize = 0;
        while i < coordinates.len()
            invariant
                i <= coordinates@.len(),
                all_in_bounds(coordinates@),
                self.glass@.len() == GLASS_AREA,
                old(self).glass@.len() == GLASS_AREA,
                self.current_shape == old(self).current_shape,
                self.screen_canvas == old(self).screen_canvas,
                forall|t: int|
                    0 <= t < GLASS_AREA ==> self.glass@[t] == (if covered_by_prefix(
                        coordinates@,
                        i as int,
                        t,
                    ) {
                        GlassPixel::Figure
                    } else {
                        old(self).glass@[t]
                    }),
            decreases coordinates@.len() - i,
        {
            let (x, y) = coordinates[i];
            assert(coord_in_bounds(coordinates@[i as int]));
            let ghost before = self.glass@;
            let target = y * GLASS_WIDTH + x;
            self.glass.set(target, GlassPixel::Figure);
            proof {
                assert forall|t: int| 0 <= t < GLASS_AREA implies self.glass@[t] == (
                if covered_by_prefix(coordinates@, i + 1, t) {
                    GlassPixel::Figure
                } else {
                    old(self).glass@[t]
                }) by {
                    if t == target {
                        assert(cell_index(
                            coordinates@[i as int].0 as int,
                            coordinates@[i as int].1 as int,
                        ) == t);
                        assert(covered_by_prefix(coordinates@, i + 1, t));
                    } else {
                        assert(self.glass@[t] == before[t]);
                        if covered_by_prefix(coordinates@, i + 1, t) {
                            let j = choose|j: int|
                                0 <= j < i + 1 && cell_index(
                                    (#[trigger] coordinates@[j]).0 as int,
                                    coordinates@[j].1 as int,
                                ) == t;
                            assert(j < i);
                            assert(covered_by_prefix(coordinates@, i as int, t));
                        }
                    }
                }
            }
            i = i + 1;
        }
        proof {
            assert(self.glass@ =~= stamp_cells(old(self).glass@, coordinates@));
        }
    }

    /// One tick's collision resolution, steps in order: cells off the
    /// field freeze the piece and respawn with the input ignored; a
    /// horizontal input is committed all-or-nothing; a frozen overlap
    /// freezes, respawns and ends the game exactly when the fresh
    /// piece overlaps too; otherwise the stale marks are cleared and
    /// the piece is re-stamped. The result says whether the game is
    /// over.
    pub fn update_glass_with_shape(&mut self, key_pressed: Option<char>) -> (game_over: bool)
        requires
            old(self).wf(),
        ensures
            final(self).wf(),
            final(self).current_shape.y < GLASS_HEIGHT,
            update_post(*old(self), *final(self), key_pressed, game_over),
    {
        let ghost g0 = self.glass@;
        let ghost p0 = self.current_shape;
        let coordinates = self.current_shape.get_coordinates();
        let is_valid_coordinates = Self::validate_coordinates(&coordinates);
        if !is_valid_coordinates {
            self.freeze_shape();
            self.current_shape = ShapeState::new_random();
            return false;
        }
        proof {
            lemma_origin_in_bounds(p0);
        }

        if let Some(key) = key_pressed {
            let old_x = self.current_shape.x;
            let mut moved = false;
            if key == '7' {
                if old_x > 0 {
                    self.current_shape.x = old_x - 1;
                    moved = true;
                }
            } else if key == '9' {
                self.current_shape.x = old_x + 1;
                moved = true;
            }
            if moved {
                let new_coordinates = self.current_shape.get_coordinates();
                let new_is_valid = Self::validate_coordinates(&new_coordinates);
                let new_hits_frozen = self.intersects_frozen_pixels(&new_coordinates);
                if !new_is_valid || new_hits_frozen {
                    self.current_shape.x = old_x;
                }
            }
        }
        assert(self.current_shape == (ShapeState { x: shifted_x(g0, p0, key_pressed), ..p0 }));
        proof {
            if all_in_bounds(self.current_shape.cells()) {
                lemma_origin_in_bounds(self.current_shape);
            }
        }
        assert(self.current_shape.wf());

        let coordinates_after_shift = self.current_shape.get_coordinates();
        let overlaps = self.intersects_frozen_pixels(&coordinates_after_shift);
        if overlaps {
            self.freeze_shape();
            self.current_shape = ShapeState::new_random();
            let new_coordinates = self.current_shape.get_coordinates();
            let fresh_overlaps = self.intersects_frozen_pixels(&new_coordinates);
            return fresh_overlaps;
        }

        self.clear_shape_in_glass();
        self.stamp_shape(&coordinates_after_shift);
        false
    }

    /// One tick's collision resolution, as the game loop calls it.
    pub fn update_glass(&mut self, key: Option<char>) -> (game_over: bool)
        requires
            old(self).wf(),
        ensures
            final(self).wf(),
            final(self).current_shape.y < GLASS_HEIGHT,
            update_post(*old(self), *final(self), key, game_over),
    {
        self.update_glass_with_shape(key)
    }

    /// The continuous downward motion: the origin moves one row down;
    /// nothing else changes. It runs after every tick's collision
    /// resolution, which leaves the origin's row below the field's
    /// height.
    pub fn advance_fall(&mut self)
        requires
            old(self).wf(),
            old(self).current_shape.y < GLASS_HEIGHT,
        ensures
            final(self).wf(),
            final(self).current_shape == (ShapeState {
                y: (old(self).current_shape.y + 1) as usize,
                ..old(self).current_shape
            }),
            final(self).glass == old(self).glass,
            final(self).screen_canvas == old(self).screen_canvas,
    {
        self.current_shape.y = self.current_shape.y + 1;
    }

    /// One whole tick: the collision resolution of update_glass, then
    /// the unconditional one-row fall. The state between the two is
    /// the final state with the origin one row up.
    pub fn tick(&mut self, key: Option<char>) -> (game_over: bool)
        requires
            old(self).wf(),
        ensures
            final(self).wf(),
            1 <= final(self).current_shape.y <= GLASS_HEIGHT,
            update_post(
                *old(self),
                (Game {
                    current_shape: (ShapeState {
                        y: (final(self).current_shape.y - 1) as usize,
                        ..final(self).current_shape
                    }),
                    ..*final(self)
                }),
                key,
                game_over,
            ),
    {
        let game_over = self.update_glass(key);
        let ghost mid = *self;
        self.advance_fall();
        proof {
            assert((Game {
                current_shape: (ShapeState {
                    y: (self.current_shape.y - 1) as usize,
                    ..self.current_shape
                }),
                ..*self
            }) == mid);
        }
        game_over
    }

    /// Replaces the falling piece by a freshly spawned random one, as
    /// the game loop does once when it starts.
    pub fn respawn_random(&mut self)
        ensures
            is_spawn(final(self).current_shape),
            final(self).glass == old(self).glass,
            final(self).screen_canvas == old(self).screen_canvas,
    {
        self.current_shape = ShapeState::new_random();
    }

    /// The canvas columns of the glass's left and right inner edges:
    /// the glass is centered, two canvas columns per cell.
    pub fn glass_lr() -> (lr: (usize, usize))
        ensures
            lr.0 == GAME_CANVAS_WIDTH as int / 2 - GLASS_WIDTH,
            lr.1 == lr.0 + GLASS_WIDTH * 2,
    {
        let glass_left = GAME_CANVAS_WIDTH / 2 - GLASS_WIDTH;
        let glass_right: usize = glass_left + GLASS_WIDTH * 2;
        (glass_left, glass_right)
    }

    /// Writes a line of text on the canvas, one glyph per column
    /// starting at (x, y); every cell outside that span keeps its
    /// glyph.
    pub fn draw_text(&mut self, text: &str, x: usize, y: usize)
        requires
            old(self).wf(),
            y < GAME_CANVAS_HEIGHT,
            x + text@.len() <= GAME_CANVAS_WIDTH,
        ensures
            final(self).wf(),
            final(self).glass == old(self).glass,
            final(self).current_shape == old(self).current_shape,
            forall|i: int|
                0 <= i < text@.len() ==> final(self).screen_canvas@[y as int][x + i] == text@[i],
            forall|r: int, c: int|
                0 <= r < GAME_CANVAS_HEIGHT && 0 <= c < GAME_CANVAS_WIDTH && !(r == y && x <= c
                    < x + text@.len()) ==> final(self).screen_canvas@[r][c] == old(
                    self,
                ).screen_canvas@[r][c],
    {
        let total = text.unicode_len();
        let mut i: usize = 0;
        while i < total
            invariant
                self.wf(),
                y < GAME_CANVAS_HEIGHT,
                x + total <= GAME_CANVAS_WIDTH,
                total == text@.len(),
                i <= total,
                self.glass == old(self).glass,
                self.current_shape == old(self).current_shape,
                forall|j: int| 0 <= j < i ==> self.screen_canvas@[y as int][x + j] == text@[j],
                forall|r: int, c: int|
                    0 <= r < GAME_CANVAS_HEIGHT && 0 <= c < GAME_CANVAS_WIDTH && !(r == y && x <= c
                        < x + i) ==> self.screen_canvas@[r][c] == old(self).screen_canvas@[r][c],
            decreases total - i,
        {
            let character = text.get_char(i);
            self.screen_canvas.set_char(x + i, y, character);
            i = i + 1;
        }
    }

    /// The two glyphs a glass cell is shown as: an occupied cell (by
    /// the falling piece or a landed one) is a filled pair, an empty
    /// cell is a blank and a dot.
    pub open spec fn cell_glyphs(p: GlassPixel) -> (char, char) {
        if p != GlassPixel::Empty {
            ('\u{2588}', '\u{2588}')
        } else {
            (' ', '.')
        }
    }

    /// Draws the inside of the glass: every cell of the field becomes
    /// its glyph pair on the canvas, two columns per cell; every
    /// canvas cell outside the glass interior keeps its glyph.
    pub fn draw_glass_inside(&mut self)
        requires
            old(self).wf(),
        ensures
            final(self).wf(),
            final(self).glass == old(self).glass,
            final(self).current_shape == old(self).current_shape,
            forall|gy: int, gx: int|
                #![trigger cell_index(gx, gy)]
                0 <= gy < GLASS_HEIGHT && 0 <= gx < GLASS_WIDTH ==> {
                    let left = GAME_CANVAS_WIDTH as int / 2 - GLASS_WIDTH;
                    let glyphs = Self::cell_glyphs(final(self).glass@[cell_index(gx, gy)]);
                    &&& final(self).screen_canvas@[gy][left + gx * 2] == glyphs.0
                    &&& final(self).screen_canvas@[gy][left + gx * 2 + 1] == glyphs.1
                },
            forall|r: int, c: int|
                0 <= r < GAME_CANVAS_HEIGHT && 0 <= c < GAME_CANVAS_WIDTH && !(r < GLASS_HEIGHT
                    && GAME_CANVAS_WIDTH as int / 2 - GLASS_WIDTH <= c < GAME_CANVAS_WIDTH as int
                    / 2 + GLASS_WIDTH) ==> final(self).screen_canvas@[r][c] == old(
                    self,
                ).screen_canvas@[r][c],
    {
        let (glass_left, _) = Self::glass_lr();
        let ghost left = glass_left as int;
        let mut y: usize = 0;
        while y < GLASS_HEIGHT
            invariant
                self.wf(),
                old(self).wf(),
                left == GAME_CANVAS_WIDTH as int / 2 - GLASS_WIDTH,
                glass_left == left,
                y <= GLASS_HEIGHT,
                self.glass == old(self).glass,
                self.current_shape == old(self).current_shape,
                forall|gy: int, gx: int|
                    #![trigger cell_index(gx, gy)]
                    0 <= gy < y && 0 <= gx < GLASS_WIDTH ==> {
                        let glyphs = Self::cell_glyphs(self.glass@[cell_index(gx, gy)]);
                        &&& self.screen_canvas@[gy][left + gx * 2] == glyphs.0
                        &&& self.screen_canvas@[gy][left + gx * 2 + 1] == glyphs.1
                    },
                forall|r: int, c: int|
                    0 <= r < GAME_CANVAS_HEIGHT && 0 <= c < GAME_CANVAS_WIDTH && !(r < y && left
                        <= c < left + 2 * GLASS_WIDTH) ==> self.screen_canvas@[r][c] == old(
                        self,
                    ).screen_canvas@[r][c],
            decreases GLASS_HEIGHT - y,
        {
            let mut x: usize = 0;
            while x < GLASS_WIDTH
                invariant
                    self.wf(),
                    old(self).wf(),
                    left == GAME_CANVAS_WIDTH as int / 2 - GLASS_WIDTH,
                    glass_left == left,
                    y < GLASS_HEIGHT,
                    x <= GLASS_WIDTH,
                    self.glass == old(self).glass,
                    self.current_shape == old(self).current_shape,
                    forall|gy: int, gx: int|
                        #![trigger cell_index(gx, gy)]
                        0 <= gy < y && 0 <= gx < GLASS_WIDTH ==> {
                            let glyphs = Self::cell_glyphs(self.glass@[cell_index(gx, gy)]);
                            &&& self.screen_canvas@[gy][left + gx * 2] == glyphs.0
                            &&& self.screen_canvas@[gy][left + gx * 2 + 1] == glyphs.1
                        },
                    forall|gx: int|
                        #![trigger cell_index(gx, y as int)]
                        0 <= gx < x ==> {
                            let glyphs = Self::cell_glyphs(self.glass@[cell_index(gx, y as int)]);
                            &&& self.screen_canvas@[y as int][left + gx * 2] == glyphs.0
                            &&& self.screen_canvas@[y as int][left + gx * 2 + 1] == glyphs.1
                        },
                    forall|r: int, c: int|
                        0 <= r < GAME_CANVAS_HEIGHT && 0 <= c < GAME_CANVAS_WIDTH && !(r < y && left
                            <= c < left + 2 * GLASS_WIDTH) && !(r == y && left <= c < left + 2 * x)
                            ==> self.screen_canvas@[r][c] == old(self).screen_canvas@[r][c],
                decreases GLASS_WIDTH - x,
            {
                let pixel = self.pixel_at(x, y);
                let (char1, char2) = if pixel != GlassPixel::Empty {
                    ('\u{2588}', '\u{2588}')
                } else {
                    (' ', '.')
                };
                self.screen_canvas.set_char(glass_left + x * 2, y, char1);
                self.screen_canvas.set_char(glass_left + x * 2 + 1, y, char2);
                x = x + 1;
            }
            y = y + 1;
        }
    }

    /// Draws the static labels around the glass: the score-board
    /// captions and the key help. The glass interior on the canvas,
    /// and the whole game state, are untouched.
    pub fn draw_glass_outside(&mut self)
        requires
            old(self).wf(),
        ensures
            final(self).wf(),
            final(self).glass == old(self).glass,
            final(self).current_shape == old(self).current_shape,
            forall|r: int, c: int|
                0 <= r < GLASS_HEIGHT && GAME_CANVAS_WIDTH as int / 2 - GLASS_WIDTH <= c
                    < GAME_CANVAS_WIDTH as int / 2 + GLASS_WIDTH ==> final(self).screen_canvas@[r][c]
                    == old(self).screen_canvas@[r][c],
    {
        proof {
            reveal_strlit("ПОЛНЫХ СТРОК: ");
            reveal_strlit("УРОВЕНЬ:      ");
            reveal_strlit("  СЧЕТ:  ");
            reveal_strlit("7: НАЛЕВО   9: НАПРАВО");
            reveal_strlit("     8:ПОВОРОТ        ");
            reveal_strlit("4:УСКОРИТЬ  5:СБРОСИТЬ");
            reveal_strlit("1: ПОКАЗАТЬ  СЛЕДУЮЩУЮ");
            reveal_strlit("0:  СТЕРЕТЬ ЭТОТ ТЕКСТ");
            reveal_strlit("  ПРОБЕЛ - СБРОСИТЬ   ");
        }
        self.draw_text("ПОЛНЫХ СТРОК: ", 0, 0);
        self.draw_text("УРОВЕНЬ:      ", 0, 1);
        self.draw_text("  СЧЕТ:  ", 0, 2);

        let (_, glass_right) = Self::glass_lr();
        self.draw_text("7: НАЛЕВО   9: НАПРАВО", glass_right + 4, 1);
        self.draw_text("     8:ПОВОРОТ        ", glass_right + 4, 2);
        self.draw_text("4:УСКОРИТЬ  5:СБРОСИТЬ", glass_right + 4, 3);
        self.draw_text("1: ПОКАЗАТЬ  СЛЕДУЮЩУЮ", glass_right + 4, 4);
        self.draw_text("0:  СТЕРЕТЬ ЭТОТ ТЕКСТ", glass_right + 4, 5);
        self.draw_text("  ПРОБЕЛ - СБРОСИТЬ   ", glass_right + 4, 6);
    }

    /// The wall glyphs on one canvas row: the glass's left edge shows
    /// "<!", its right edge "!>".
    pub open spec fn wall_glyphs(canvas: Seq<Seq<char>>, r: int) -> bool {
        let left = GAME_CANVAS_WIDTH as int / 2 - GLASS_WIDTH;
        let right = left + 2 * GLASS_WIDTH;
        &&& canvas[r][left - 2] == '<'
        &&& canvas[r][left - 1] == '!'
        &&& canvas[r][right] == '!'
        &&& canvas[r][right + 1] == '>'
    }

    /// Draws the glass itself: the side walls along every field row
    /// and along the floor row, the dotted background of the field,
    /// the floor and the feet under it. The game state is untouched.
    pub fn draw_glass(&mut self)
        requires
            old(self).wf(),
        ensures
            final(self).wf(),
            final(self).glass == old(self).glass,
            final(self).current_shape == old(self).current_shape,
            forall|r: int|
                0 <= r <= GLASS_HEIGHT ==> #[trigger] Self::wall_glyphs(
                    final(self).screen_canvas@,
                    r,
                ),
            forall|c: int|
                GAME_CANVAS_WIDTH as int / 2 - GLASS_WIDTH <= c < GAME_CANVAS_WIDTH as int / 2
                    + GLASS_WIDTH ==> final(self).screen_canvas@[GLASS_HEIGHT as int][c] == '=',
    {
        let (glass_left, glass_right) = Self::glass_lr();
        let mut line_idx: usize = 0;
        while line_idx < GLASS_HEIGHT
            invariant
                self.wf(),
                glass_left == GAME_CANVAS_WIDTH as int / 2 - GLASS_WIDTH,
                glass_right == glass_left + GLASS_WIDTH * 2,
                line_idx <= GLASS_HEIGHT,
                self.glass == old(self).glass,
                self.current_shape == old(self).current_shape,
                forall|r: int|
                    #![trigger self.screen_canvas@[r]]
                    0 <= r < line_idx ==> {
                        &&& self.screen_canvas@[r][glass_left - 2] == '<'
                        &&& self.screen_canvas@[r][glass_left - 1] == '!'
                        &&& self.screen_canvas@[r][glass_right as int] == '!'
                        &&& self.screen_canvas@[r][glass_right + 1] == '>'
                    },
            decreases GLASS_HEIGHT - line_idx,
        {
            self.screen_canvas.set_char(glass_left - 2, line_idx, '<');
            self.screen_canvas.set_char(glass_left - 1, line_idx, '!');
            let mut dot_x: usize = glass_left;
            while dot_x < glass_right
                invariant
                    self.wf(),
                    glass_left == GAME_CANVAS_WIDTH as int / 2 - GLASS_WIDTH,
                    glass_right == glass_left + GLASS_WIDTH * 2,
                    line_idx < GLASS_HEIGHT,
                    glass_left <= dot_x <= glass_right,
                    self.glass == old(self).glass,
                    self.current_shape == old(self).current_shape,
                    forall|r: int|
                        #![trigger self.screen_canvas@[r]]
                        0 <= r < line_idx ==> {
                            &&& self.screen_canvas@[r][glass_left - 2] == '<'
                            &&& self.screen_canvas@[r][glass_left - 1] == '!'
                            &&& self.screen_canvas@[r][glass_right as int] == '!'
                            &&& self.screen_canvas@[r][glass_right + 1] == '>'
                        },
                    self.screen_canvas@[line_idx as int][glass_left - 2] == '<',
                    self.screen_canvas@[line_idx as int][glass_left - 1] == '!',
                decreases glass_right - dot_x,
            {
                if dot_x % 2 == 0 {
                    self.screen_canvas.set_char(dot_x, line_idx, ' ');
                } else {
                    self.screen_canvas.set_char(dot_x, line_idx, '.');
                }
                dot_x = dot_x + 1;
            }
            self.screen_canvas.set_char(glass_right, line_idx, '!');
            self.screen_canvas.set_char(glass_right + 1, line_idx, '>');
            line_idx = line_idx + 1;
        }
        self.screen_canvas.set_char(glass_left - 2, GLASS_HEIGHT, '<');
        self.screen_canvas.set_char(glass_left - 1, GLASS_HEIGHT, '!');
        let mut dot_x: usize = glass_left;
        while dot_x < glass_right
            invariant
                self.wf(),
                glass_left == GAME_CANVAS_WIDTH as int / 2 - GLASS_WIDTH,
                glass_right == glass_left + GLASS_WIDTH * 2,
                glass_left <= dot_x <= glass_right,
                self.glass == old(self).glass,
                self.current_shape == old(self).current_shape,
                forall|r: int|
                    #![trigger self.screen_canvas@[r]]
                    0 <= r < GLASS_HEIGHT ==> {
                        &&& self.screen_canvas@[r][glass_left - 2] == '<'
                        &&& self.screen_canvas@[r][glass_left - 1] == '!'
                        &&& self.screen_canvas@[r][glass_right as int] == '!'
                        &&& self.screen_canvas@[r][glass_right + 1] == '>'
                    },
                self.screen_canvas@[GLASS_HEIGHT as int][glass_left - 2] == '<',
                self.screen_canvas@[GLASS_HEIGHT as int][glass_left - 1] == '!',
                forall|c: int|
                    glass_left <= c < dot_x ==> self.screen_canvas@[GLASS_HEIGHT as int][c] == '=',
            decreases glass_right - dot_x,
        {
            self.screen_canvas.set_char(dot_x, GLASS_HEIGHT, '=');
            if dot_x % 2 == 0 {
                self.screen_canvas.set_char(dot_x, GLASS_HEIGHT + 1, '\\');
            } else {
                self.screen_canvas.set_char(dot_x, GLASS_HEIGHT + 1, '/');
            }
            dot_x = dot_x + 1;
        }
        self.screen_canvas.set_char(glass_right, GLASS_HEIGHT, '!');
        self.screen_canvas.set_char(glass_right + 1, GLASS_HEIGHT, '>');
        proof {
            assert forall|r: int| 0 <= r <= GLASS_HEIGHT implies #[trigger] Self::wall_glyphs(
                self.screen_canvas@,
                r,
            ) by {
                assert(self.screen_canvas@[r][glass_left - 2] == '<');
                assert(self.screen_canvas@[r][glass_left - 1] == '!');
                assert(self.screen_canvas@[r][glass_right as int] == '!');
                assert(self.screen_canvas@[r][glass_right + 1] == '>');
            }
        }
    }

    /// Draws one whole frame and shows it: the glass and its walls,
    /// then the field's cells as glyph pairs, then the labels. On the
    /// shown canvas the glass interior renders exactly the glass:
    /// occupied cells as filled pairs, empty cells as background.
    pub fn draw_frame(&mut self)
        requires
            old(self).wf(),
        ensures
            final(self).wf(),
            final(self).glass == old(self).glass,
            final(self).current_shape == old(self).current_shape,
            forall|gy: int, gx: int|
                #![trigger cell_index(gx, gy)]
                0 <= gy < GLASS_HEIGHT && 0 <= gx < GLASS_WIDTH ==> {
                    let left = GAME_CANVAS_WIDTH as int / 2 - GLASS_WIDTH;
                    let glyphs = Self::cell_glyphs(final(self).glass@[cell_index(gx, gy)]);
                    &&& final(self).screen_canvas@[gy][left + gx * 2] == glyphs.0
                    &&& final(self).screen_canvas@[gy][left + gx * 2 + 1] == glyphs.1
                },
    {
        self.draw_glass();
        self.draw_glass_inside();
        self.draw_glass_outside();
        self.screen_canvas.display();
    }

    /// Draws the end-of-game screen and shows it: the empty frame
    /// with the game-over message centered in it. The game state is
    /// untouched.
    pub fn draw_game_over(&mut self)
        requires
            old(self).wf(),
        ensures
            final(self).wf(),
            final(self).glass == old(self).glass,
            final(self).current_shape == old(self).current_shape,
    {
        proof {
            reveal_strlit("ИГРА ОКОНЧЕНА");
            reveal_strlit("НАЖМИТЕ ПРОБЕЛ");
        }
        let (left, right) = Self::glass_lr();
        let game_over_text = "ИГРА ОКОНЧЕНА";
        let press_space = "НАЖМИТЕ ПРОБЕЛ";
        let start_game_over = ((right + left) / 2) - (game_over_text.unicode_len() / 2);
        let start_press_space = ((right + left) / 2) - (press_space.unicode_len() / 2);
        self.draw_glass();
        self.draw_glass_outside();
        self.draw_text(game_over_text, start_game_over, GAME_CANVAS_HEIGHT / 2);
        self.draw_text(press_space, start_press_space, (GAME_CANVAS_HEIGHT / 2) + 1);
        self.screen_canvas.display();
    }

    /// The falling piece, as currently placed.
    pub fn piece(&self) -> (p: ShapeState)
        ensures
            p == self.current_shape,
    {
        self.current_shape
    }

    /// The state of the glass cell at column x, row y.
    pub fn pixel_at(&self, x: usize, y: usize) -> (p: GlassPixel)
        requires
            self.glass@.len() == GLASS_AREA,
            x < GLASS_WIDTH,
            y < GLASS_HEIGHT,
        ensures
            p == self.glass@[cell_index(x as int, y as int)],
    {
        self.glass[y * GLASS_WIDTH + x]
    }
}

} // verus!
