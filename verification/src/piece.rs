//! The active falling piece: a shape kind, a selected rotation index
//! into that kind's variants, and an integer origin in grid space.
//! Creating and translating a piece is speculative; the collision
//! engine decides whether a candidate placement is committed.

use vstd::prelude::*;
use crate::shapes::{
    ShapeKind, rotation_count, rotation_count_spec, shape_coordinates, absolute_cells_of,
};
use crate::{GLASS_WIDTH, GLASS_HEIGHT};

verus! {

/// Relies on rand::random: draws a value of the asked type from the
/// thread-local generator. Nothing can be promised of the value drawn.
pub assume_specification<T>[ rand::random::<T> ]() -> (r: T)
    where
        rand::distributions::Standard: rand::distributions::Distribution<T>,
;

/// The currently falling piece.
#[derive(Clone, Copy, PartialEq, Eq, Structural, Debug)]
pub struct ShapeState {
    pub shape: ShapeKind,
    pub position: usize,
    pub x: usize,
    pub y: usize,
}

impl ShapeState {
    /// A piece is well formed when its rotation index selects one of
    /// its kind's variants and its origin has not left the band the
    /// tick machine keeps it in: at most one cell below the bottom
    /// row and one column past the right wall.
    pub open spec fn wf(self) -> bool {
        &&& self.position < rotation_count_spec(self.shape)
        &&& self.x <= GLASS_WIDTH
        &&& self.y <= GLASS_HEIGHT
    }

    /// The grid cells the piece occupies at its current origin.
    pub open spec fn cells(self) -> Seq<(usize, usize)> {
        absolute_cells_of(self.shape, self.position as int, self.x, self.y)
    }

    /// A fresh piece of the given kind in rotation variant 0, at the
    /// spawn origin: the middle column of the grid, top row.
    pub fn new(shape: ShapeKind) -> (s: Self)
        ensures
            s.shape == shape,
            s.position == 0,
            s.x == GLASS_WIDTH as int / 2,
            s.y == 0,
            s.wf(),
    {
        let x = GLASS_WIDTH / 2;
        let y = 0usize;
        let position = 0usize;
        ShapeState { shape, position, x, y }
    }

    /// A fresh piece of the given kind at the spawn origin, in the
    /// asked rotation variant; an out-of-range rotation index falls
    /// back to variant 0.
    pub fn new_position(shape: ShapeKind, position: usize) -> (s: Self)
        ensures
            s.shape == shape,
            s.position == if position < rotation_count_spec(shape) {
                position as int
            } else {
                0
            },
            s.x == GLASS_WIDTH as int / 2,
            s.y == 0,
            s.wf(),
    {
        let x = GLASS_WIDTH / 2;
        let y = 0usize;
        let selected_position: usize = if rotation_count(shape) <= position {
            0usize
        } else {
            position
        };
        ShapeState { shape, position: selected_position, x, y }
    }

    /// A fresh piece at the spawn origin with a uniformly random kind
    /// and a uniformly random valid rotation variant for that kind.
    pub fn new_random() -> (s: Self)
        ensures
            s.x == GLASS_WIDTH as int / 2,
            s.y == 0,
            s.wf(),
    {
        let kind_draw: usize = rand::random();
        let kind = match kind_draw % 7 {
            0 => ShapeKind::I,
            1 => ShapeKind::J,
            2 => ShapeKind::L,
            3 => ShapeKind::O,
            4 => ShapeKind::S,
            5 => ShapeKind::T,
            _ => ShapeKind::Z,
        };
        let rotation_draw: usize = rand::random();
        let position = rotation_draw % rotation_count(kind);
        Self::new_position(kind, position)
    }

    /// A speculative translation: the same piece with its origin
    /// moved by (dx, dy). Nothing is validated here; the collision
    /// engine decides whether a candidate placement is committed.
    /// The bounds on the origin are what the machine forces.
    pub fn translate(&self, dx: isize, dy: isize) -> (s: Self)
        requires
            isize::MIN < dx,
            isize::MIN < dy,
            0 <= self.x + dx <= usize::MAX,
            0 <= self.y + dy <= usize::MAX,
        ensures
            s.shape == self.shape,
            s.position == self.position,
            s.x == self.x + dx,
            s.y == self.y + dy,
    {
        let x = if dx >= 0 {
            self.x + (dx as usize)
        } else {
            self.x - ((-dx) as usize)
        };
        let y = if dy >= 0 {
            self.y + (dy as usize)
        } else {
            self.y - ((-dy) as usize)
        };
        ShapeState { shape: self.shape, position: self.position, x, y }
    }

    /// The grid cells the piece occupies, as executable data. The
    /// origin bounds are what the machine forces: no offset exceeds
    /// 3, and the shifted coordinates must fit in a usize.
    pub fn get_coordinates(&self) -> (coords: Vec<(usize, usize)>)
        requires
            self.x + 3 <= usize::MAX,
            self.y + 3 <= usize::MAX,
        ensures
            coords@ == self.cells(),
    {
        shape_coordinates(self.shape, self.position, self.x, self.y)
    }

    /// The piece's kind.
    pub fn kind(&self) -> (k: ShapeKind)
        ensures
            k == self.shape,
    {
        self.shape
    }

    /// The piece's rotation index.
    pub fn rotation(&self) -> (r: usize)
        ensures
            r == self.position,
    {
        self.position
    }

    /// The column of the piece's origin.
    pub fn origin_x(&self) -> (c: usize)
        ensures
            c == self.x,
    {
        self.x
    }

    /// The row of the piece's origin.
    pub fn origin_y(&self) -> (r: usize)
        ensures
            r == self.y,
    {
        self.y
    }
}

} // verus!
