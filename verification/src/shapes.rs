//! The shape catalog: seven tetromino kinds, each with 1, 2 or 4
//! rotation variants. A variant is an occupancy pattern given as an
//! ordered list of (column, row) offsets from the variant's top-left
//! reference cell. The catalog is pure data: every query is a read.

use vstd::prelude::*;

verus! {

/// The seven canonical tetromino kinds.
#[derive(Clone, Copy, PartialEq, Eq, Structural, Debug)]
pub enum ShapeKind {
    I,
    J,
    L,
    O,
    S,
    T,
    Z,
}

/// How many rotation variants a kind has: I, S and Z have 2,
/// J, L and T have 4, O has 1.
pub open spec fn rotation_count_spec(kind: ShapeKind) -> int {
    match kind {
        ShapeKind::I => 2,
        ShapeKind::J => 4,
        ShapeKind::L => 4,
        ShapeKind::O => 1,
        ShapeKind::S => 2,
        ShapeKind::T => 4,
        ShapeKind::Z => 2,
    }
}

/// The rotation index actually used for a query: an out-of-range
/// index falls back to variant 0, never to a failure.
pub open spec fn effective_rotation(kind: ShapeKind, rotation: int) -> int {
    if 0 <= rotation < rotation_count_spec(kind) {
        rotation
    } else {
        0
    }
}

/// The declared (columns, rows) extent of a rotation variant.
pub open spec fn variant_extent(kind: ShapeKind, rotation: int) -> (int, int) {
    match kind {
        ShapeKind::I => if rotation == 1 { (4, 2) } else { (1, 4) },
        ShapeKind::J => if rotation == 1 || rotation == 3 { (3, 2) } else { (2, 3) },
        ShapeKind::L => if rotation == 1 || rotation == 3 { (3, 2) } else { (2, 3) },
        ShapeKind::O => (2, 2),
        ShapeKind::S => if rotation == 1 { (2, 3) } else { (3, 2) },
        ShapeKind::T => if rotation == 1 || rotation == 3 { (2, 3) } else { (3, 2) },
        ShapeKind::Z => if rotation == 1 { (2, 3) } else { (3, 2) },
    }
}

/// The occupied (column, row) offsets of one rotation variant,
/// in row-major order. Meaningful for rotation indices in
/// [0, rotation_count_spec(kind)); an index outside that range is
/// first mapped through `effective_rotation` by every caller.
pub open spec fn relative_cells_spec(kind: ShapeKind, rotation: int) -> Seq<(usize, usize)> {
    match kind {
        ShapeKind::I => if rotation == 1 {
            seq![(0usize, 1usize), (1usize, 1usize), (2usize, 1usize), (3usize, 1usize)]
        } else {
            seq![(0usize, 0usize), (0usize, 1usize), (0usize, 2usize), (0usize, 3usize)]
        },
        ShapeKind::J => if rotation == 1 {
            seq![(0usize, 0usize), (0usize, 1usize), (1usize, 1usize), (2usize, 1usize)]
        } else if rotation == 2 {
            seq![(0usize, 0usize), (1usize, 0usize), (0usize, 1usize), (0usize, 2usize)]
        } else if rotation == 3 {
            seq![(0usize, 0usize), (1usize, 0usize), (2usize, 0usize), (2usize, 1usize)]
        } else {
            seq![(1usize, 0usize), (1usize, 1usize), (0usize, 2usize), (1usize, 2usize)]
        },
        ShapeKind::L => if rotation == 1 {
            seq![(0usize, 0usize), (1usize, 0usize), (2usize, 0usize), (0usize, 1usize)]
        } else if rotation == 2 {
            seq![(0usize, 0usize), (1usize, 0usize), (1usize, 1usize), (1usize, 2usize)]
        } else if rotation == 3 {
            seq![(2usize, 0usize), (0usize, 1usize), (1usize, 1usize), (2usize, 1usize)]
        } else {
            seq![(0usize, 0usize), (0usize, 1usize), (0usize, 2usize), (1usize, 2usize)]
        },
        ShapeKind::O => seq![(0usize, 0usize), (1usize, 0usize), (0usize, 1usize), (1usize, 1usize)],
        ShapeKind::S => if rotation == 1 {
            seq![(0usize, 0usize), (0usize, 1usize), (1usize, 1usize), (1usize, 2usize)]
        } else {
            seq![(1usize, 0usize), (2usize, 0usize), (0usize, 1usize), (1usize, 1usize)]
        },
        ShapeKind::T => if rotation == 1 {
            seq![(1usize, 0usize), (0usize, 1usize), (1usize, 1usize), (1usize, 2usize)]
        } else if rotation == 2 {
            seq![(1usize, 0usize), (0usize, 1usize), (1usize, 1usize), (2usize, 1usize)]
        } else if rotation == 3 {
            seq![(0usize, 0usize), (0usize, 1usize), (1usize, 1usize), (0usize, 2usize)]
        } else {
            seq![(0usize, 0usize), (1usize, 0usize), (2usize, 0usize), (1usize, 1usize)]
        },
        ShapeKind::Z => if rotation == 1 {
            seq![(1usize, 0usize), (0usize, 1usize), (1usize, 1usize), (0usize, 2usize)]
        } else {
            seq![(0usize, 0usize), (1usize, 0usize), (1usize, 1usize), (2usize, 1usize)]
        },
    }
}

/// One offset lies within an extent when both of its components are
/// strictly below the extent's column and row counts.
pub open spec fn offset_within(cell: (usize, usize), extent: (int, int)) -> bool {
    cell.0 < extent.0 && cell.1 < extent.1
}

/// Every rotation variant of every kind is non-empty, and each of its
/// offsets lies within the variant's declared extent.
pub proof fn lemma_relative_cells_within_extent(kind: ShapeKind, rotation: int)
    requires
        0 <= rotation < rotation_count_spec(kind),
    ensures
        relative_cells_spec(kind, rotation).len() > 0,
        forall|i: int|
            0 <= i < relative_cells_spec(kind, rotation).len() ==> offset_within(
                relative_cells_spec(kind, rotation)[i],
                variant_extent(kind, rotation),
            ),
{
    let cells = relative_cells_spec(kind, rotation);
    let extent = variant_extent(kind, rotation);
    assert forall|i: int| 0 <= i < cells.len() implies offset_within(cells[i], extent) by {
        assert(cells.len() == 4);
        if i == 0 {
            assert(offset_within(cells[0], extent));
        } else if i == 1 {
            assert(offset_within(cells[1], extent));
        } else if i == 2 {
            assert(offset_within(cells[2], extent));
        } else {
            assert(offset_within(cells[3], extent));
        }
    }
}

/// Every offset of every rotation variant is at most 3 in both
/// components: no variant extends past a 4 x 4 box.
pub proof fn lemma_offsets_small(kind: ShapeKind, rotation: int)
    requires
        0 <= rotation < rotation_count_spec(kind),
    ensures
        forall|i: int|
            0 <= i < relative_cells_spec(kind, rotation).len() ==> (
            #[trigger] relative_cells_spec(kind, rotation)[i]).0 <= 3
                && relative_cells_spec(kind, rotation)[i].1 <= 3,
{
    lemma_relative_cells_within_extent(kind, rotation);
    let cells = relative_cells_spec(kind, rotation);
    let extent = variant_extent(kind, rotation);
    assert(extent.0 <= 4 && extent.1 <= 4);
    assert forall|i: int| 0 <= i < cells.len() implies (#[trigger] cells[i]).0 <= 3
        && cells[i].1 <= 3 by {
        assert(offset_within(cells[i], extent));
    }
}

/// The fallback law: querying any out-of-range rotation index gives
/// exactly the offsets of rotation variant 0.
pub proof fn lemma_rotation_fallback(kind: ShapeKind, rotation: int)
    requires
        !(0 <= rotation < rotation_count_spec(kind)),
    ensures
        relative_cells_spec(kind, effective_rotation(kind, rotation)) == relative_cells_spec(
            kind,
            0,
        ),
{
}

/// Number of rotation variants of `kind`; always at least 1.
pub fn rotation_count(kind: ShapeKind) -> (n: usize)
    ensures
        n == rotation_count_spec(kind),
        n >= 1,
{
    match kind {
        ShapeKind::I => 2,
        ShapeKind::J => 4,
        ShapeKind::L => 4,
        ShapeKind::O => 1,
        ShapeKind::S => 2,
        ShapeKind::T => 4,
        ShapeKind::Z => 2,
    }
}

/// Builds the four-cell occupancy list of one variant.
fn quad(
    c0: (usize, usize),
    c1: (usize, usize),
    c2: (usize, usize),
    c3: (usize, usize),
) -> (cells: Vec<(usize, usize)>)
    ensures
        cells@ == seq![c0, c1, c2, c3],
{
    let mut cells: Vec<(usize, usize)> = Vec::new();
    cells.push(c0);
    cells.push(c1);
    cells.push(c2);
    cells.push(c3);
    proof {
        assert(cells@ =~= seq![c0, c1, c2, c3]);
    }
    cells
}

/// The occupied (column, row) offsets of the rotation variant
/// `rotation` of `kind`. An out-of-range rotation index is clamped
/// to variant 0, so the query never fails.
pub fn relative_cells(kind: ShapeKind, rotation: usize) -> (cells: Vec<(usize, usize)>)
    ensures
        cells@ == relative_cells_spec(kind, effective_rotation(kind, rotation as int)),
{
    let count = rotation_count(kind);
    let rot: usize = if rotation >= count {
        0
    } else {
        rotation
    };
    match kind {
        ShapeKind::I => if rot == 1 {
            quad((0, 1), (1, 1), (2, 1), (3, 1))
        } else {
            quad((0, 0), (0, 1), (0, 2), (0, 3))
        },
        ShapeKind::J => if rot == 1 {
            quad((0, 0), (0, 1), (1, 1), (2, 1))
        } else if rot == 2 {
            quad((0, 0), (1, 0), (0, 1), (0, 2))
        } else if rot == 3 {
            quad((0, 0), (1, 0), (2, 0), (2, 1))
        } else {
            quad((1, 0), (1, 1), (0, 2), (1, 2))
        },
        ShapeKind::L => if rot == 1 {
            quad((0, 0), (1, 0), (2, 0), (0, 1))
        } else if rot == 2 {
            quad((0, 0), (1, 0), (1, 1), (1, 2))
        } else if rot == 3 {
            quad((2, 0), (0, 1), (1, 1), (2, 1))
        } else {
            quad((0, 0), (0, 1), (0, 2), (1, 2))
        },
        ShapeKind::O => quad((0, 0), (1, 0), (0, 1), (1, 1)),
        ShapeKind::S => if rot == 1 {
            quad((0, 0), (0, 1), (1, 1), (1, 2))
        } else {
            quad((1, 0), (2, 0), (0, 1), (1, 1))
        },
        ShapeKind::T => if rot == 1 {
            quad((1, 0), (0, 1), (1, 1), (1, 2))
        } else if rot == 2 {
            quad((1, 0), (0, 1), (1, 1), (2, 1))
        } else if rot == 3 {
            quad((0, 0), (0, 1), (1, 1), (0, 2))
        } else {
            quad((0, 0), (1, 0), (2, 0), (1, 1))
        },
        ShapeKind::Z => if rot == 1 {
            quad((1, 0), (0, 1), (1, 1), (0, 2))
        } else {
            quad((0, 0), (1, 0), (1, 1), (2, 1))
        },
    }
}

/// The grid cells occupied by the variant `rotation` of `kind` when
/// its reference cell stands at the grid coordinate (x, y): each
/// offset, shifted by the origin. An out-of-range rotation index is
/// clamped to 0 here too.
pub open spec fn absolute_cells_of(kind: ShapeKind, rotation: int, x: usize, y: usize) -> Seq<
    (usize, usize),
> {
    relative_cells_spec(kind, effective_rotation(kind, rotation)).map(
        |i: int, c: (usize, usize)| (((x + c.0) as usize), ((y + c.1) as usize)),
    )
}

/// The occupied grid cells of the variant `rotation` of `kind` with
/// its reference cell at (x, y). The bound on the origin is what the
/// machine forces: every offset is at most 3, so the shifted
/// coordinates must fit in a usize.
pub fn shape_coordinates(kind: ShapeKind, rotation: usize, x: usize, y: usize) -> (coords: Vec<
    (usize, usize),
>)
    requires
        x + 3 <= usize::MAX,
        y + 3 <= usize::MAX,
    ensures
        coords@ == absolute_cells_of(kind, rotation as int, x, y),
{
    let cells = relative_cells(kind, rotation);
    proof {
        lemma_offsets_small(kind, effective_rotation(kind, rotation as int));
    }
    let ghost target = absolute_cells_of(kind, rotation as int, x, y);
    let mut coords: Vec<(usize, usize)> = Vec::new();
    let mut i: usize = 0;
    while i < cells.len()
        invariant
            x + 3 <= usize::MAX,
            y + 3 <= usize::MAX,
            i <= cells.len(),
            cells@ == relative_cells_spec(kind, effective_rotation(kind, rotation as int)),
            target == absolute_cells_of(kind, rotation as int, x, y),
            forall|j: int|
                0 <= j < cells@.len() ==> (#[trigger] cells@[j]).0 <= 3 && cells@[j].1 <= 3,
            coords@ =~= target.take(i as int),
        decreases cells.len() - i,
    {
        let (dx, dy) = cells[i];
        coords.push((x + dx, y + dy));
        i = i + 1;
    }
    proof {
        assert(coords@ =~= target);
    }
    coords
}

} // verus!
