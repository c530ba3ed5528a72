//! A tetris playfield.
//!
//! A `Field` manages the state of previously placed blocks.  It is a
//! rectangular grid of cell values, mutated only by freezing a block into
//! place and by clearing completed lines.

use vstd::prelude::*;
use vstd::pervasive::VecAdditionalExecFns;

use crate::block::{cells_blocked, pos_blocked, spec_cells, Block, Id};

verus! {

/// The rows of a cell matrix as a sequence of sequences.
pub open spec fn grid_of(data: Vec<Vec<Id>>) -> Seq<Seq<Id>> {
    data@.map_values(|row: Vec<Id>| row@)
}

/// Does this row still have an empty cell (so it survives a line clear)?
pub open spec fn row_not_full(row: Seq<Id>) -> bool {
    exists|x: int| 0 <= x < row.len() && row[x] == Id::Empty
}

/// Is every cell of this row empty?
pub open spec fn row_all_empty(row: Seq<Id>) -> bool {
    forall|x: int| 0 <= x < row.len() ==> row[x] == Id::Empty
}

/// A rectangular playfield: grid dimensions, a spawn point, and the cells.
///
/// The `height` includes the `hidden` rows at the top of the grid; those
/// rows exist for collision and spawning but are not meant to be rendered.
#[derive(Debug)]
pub struct Field {
    /// The width of the field.
    pub width: usize,
    /// The height of the field (hidden rows included).
    pub height: usize,
    /// The number of top rows treated as off-screen.
    pub hidden: usize,
    /// The initial `(x, y)` position of a block on this field.
    pub spawn: (i32, i32),
    /// The cells, indexed row first: `data[y][x]`.
    pub data: Vec<Vec<Id>>,
}

/// Optional values which can be set when initializing a `Field`.
#[derive(Debug)]
pub struct FieldOptions {
    /// Grid width in cells.
    pub width: usize,
    /// Grid height in cells, hidden rows included.
    pub height: usize,
    /// Number of hidden rows at the top.
    pub hidden: usize,
    /// Block spawn position.
    pub spawn: (i32, i32),
}

impl Default for FieldOptions {
    /// The defaults: a 10-by-25 grid with 3 hidden rows and spawn `(4, 0)`.
    fn default() -> (r: FieldOptions)
        ensures
            r.width == 10 && r.height == 25 && r.hidden == 3 && r.spawn == (4i32, 0i32),
    {
        FieldOptions { width: 10, height: 25, hidden: 3, spawn: (4, 0) }
    }
}

impl Field {
    /// The grid of cells as a mathematical sequence of rows.
    pub open spec fn grid(self) -> Seq<Seq<Id>> {
        grid_of(self.data)
    }

    /// The cell value at `(x, y)`.
    pub open spec fn cell(self, x: int, y: int) -> Id {
        self.grid()[y][x]
    }

    /// Well-formedness: the grid matches the stated dimensions, at least
    /// one column exists, and the hidden region is a strict subregion.
    pub open spec fn wf(self) -> bool {
        &&& self.grid().len() == self.height
        &&& forall|y: int| 0 <= y < self.height ==> (#[trigger] self.grid()[y]).len() == self.width
        &&& 1 <= self.width
        &&& self.width <= 0x7fff_ffff
        &&& self.height <= 0x7fff_ffff
        &&& self.hidden < self.height
    }

    /// Is `(x, y)` inside the grid and filled?  Out-of-bounds positions
    /// count as empty for this spatial query.
    pub open spec fn occupied(self, x: int, y: int) -> bool {
        0 <= x < self.width && 0 <= y < self.height && self.cell(x, y) != Id::Empty
    }

    /// Construct a `Field` with default options.
    pub fn new() -> (f: Field)
        ensures
            f.wf(),
            f.width == 10 && f.height == 25 && f.hidden == 3 && f.spawn == (4i32, 0i32),
            forall|y: int, x: int|
                0 <= y < f.height && 0 <= x < f.width ==> f.cell(x, y) == Id::Empty,
    {
        Field::with_options(FieldOptions::default())
    }

    /// Construct a `Field` with the given options.  Cells start empty.
    ///
    /// A field needs at least one column and one row, its dimensions must
    /// stay addressable by the signed 32-bit block coordinates, and a
    /// `hidden` value that would swallow the whole grid is clamped to
    /// `height - 1`.
    pub fn with_options(options: FieldOptions) -> (f: Field)
        requires
            1 <= options.width,
            1 <= options.height,
            options.width <= 0x7fff_ffff,
            options.height <= 0x7fff_ffff,
        ensures
            f.wf(),
            f.width == options.width,
            f.height == options.height,
            f.spawn == options.spawn,
            f.hidden == if options.hidden < options.height {
                options.hidden as int
            } else {
                options.height - 1
            },
            forall|y: int, x: int|
                0 <= y < f.height && 0 <= x < f.width ==> f.cell(x, y) == Id::Empty,
    {
        let mut data: Vec<Vec<Id>> = Vec::new();
        while data.len() < options.height
            invariant
                data.len() <= options.height,
                forall|y: int|
                    0 <= y < data.len() ==> (#[trigger] grid_of(data)[y]).len()
                        == options.width,
                forall|y: int, x: int|
                    0 <= y < data.len() && 0 <= x < options.width ==> grid_of(data)[y][x]
                        == Id::Empty,
            decreases options.height - data.len(),
        {
            let mut row: Vec<Id> = Vec::new();
            while row.len() < options.width
                invariant
                    row.len() <= options.width,
                    forall|x: int| 0 <= x < row.len() ==> row@[x] == Id::Empty,
                decreases options.width - row.len(),
            {
                row.push(Id::Empty);
            }
            let ghost oldgrid = grid_of(data);
            data.push(row);
            proof {
                assert(grid_of(data) =~= oldgrid.push(row@));
            }
        }
        let hidden = if options.hidden < options.height {
            options.hidden
        } else {
            options.height - 1
        };
        Field {
            width: options.width,
            height: options.height,
            hidden,
            spawn: options.spawn,
            data,
        }
    }

    /// Return the value at the specified field location, or
    /// [`crate::Error::OutOfBounds`] when either coordinate is outside the
    /// grid.
    pub fn get(&self, pos: (usize, usize)) -> (r: Result<Id, crate::Error>)
        requires
            self.wf(),
        ensures
            pos.0 < self.width && pos.1 < self.height ==> r == Ok::<Id, crate::Error>(
                self.cell(pos.0 as int, pos.1 as int),
            ),
            !(pos.0 < self.width && pos.1 < self.height) ==> r == Err::<Id, crate::Error>(
                crate::Error::OutOfBounds,
            ),
    {
        let (x, y) = pos;
        if x < self.width && y < self.height {
            proof {
                assert(self.grid()[y as int] == self.data@[y as int]@);
            }
            Ok(self.data[y][x])
        } else {
            Err(crate::Error::OutOfBounds)
        }
    }

    /// Return true if the value at the specified location is non-empty.
    /// Locations outside the grid are reported as empty.
    pub fn occupies(&self, pos: (usize, usize)) -> (r: bool)
        requires
            self.wf(),
        ensures
            r == self.occupied(pos.0 as int, pos.1 as int),
    {
        let (x, y) = pos;
        if x >= self.width || y >= self.height {
            false
        } else {
            proof {
                assert(self.grid()[y as int] == self.data@[y as int]@);
            }
            let id = self.data[y][x];
            id != Id::Empty
        }
    }

    /// As [`Field::occupies`], but for signed coordinates: every position
    /// off the grid, negative included, is empty.
    pub fn occupies_signed(&self, x: i64, y: i64) -> (r: bool)
        requires
            self.wf(),
        ensures
            r == self.occupied(x as int, y as int),
    {
        if x < 0 || y < 0 || x >= self.width as i64 || y >= self.height as i64 {
            false
        } else {
            proof {
                assert(self.grid()[y as int] == self.data@[y as int]@);
            }
            let id = self.data[y as usize][x as usize];
            id != Id::Empty
        }
    }


    /// Decide well-formedness at run time: the check an unverified
    /// caller can make before using a field it assembled itself.
    pub fn is_well_formed(&self) -> (b: bool)
        ensures
            b == self.wf(),
    {
        if self.width < 1 || self.width > 0x7fff_ffff || self.height > 0x7fff_ffff
            || self.hidden >= self.height {
            return false;
        }
        if self.data.len() != self.height {
            return false;
        }
        let mut y: usize = 0;
        while y < self.height
            invariant
                self.grid().len() == self.height,
                y <= self.height,
                forall|j: int| 0 <= j < y ==> (#[trigger] self.grid()[j]).len() == self.width,
            decreases self.height - y,
        {
            proof {
                assert(self.grid()[y as int] == self.data@[y as int]@);
            }
            if self.data[y].len() != self.width {
                return false;
            }
            y += 1;
        }
        true
    }

    /// Write `id` into the cell `(x, y)`.
    pub(crate) fn set_cell(&mut self, x: usize, y: usize, id: Id)
        requires
            old(self).wf(),
            x < old(self).width,
            y < old(self).height,
        ensures
            final(self).wf(),
            final(self).width == old(self).width,
            final(self).height == old(self).height,
            final(self).hidden == old(self).hidden,
            final(self).spawn == old(self).spawn,
            final(self).grid() == old(self).grid().update(
                y as int,
                old(self).grid()[y as int].update(x as int, id),
            ),
    {
        let ghost oldgrid = self.grid();
        proof {
            assert(oldgrid[y as int] == self.data@[y as int]@);
        }
        let row = &mut self.data[y];
        row.set(x, id);
        proof {
            assert(self.grid() =~= oldgrid.update(
                y as int,
                oldgrid[y as int].update(x as int, id),
            ));
        }
    }

    /// Freeze a block into place on the field: write the block's identity
    /// into each of its cells.  This takes ownership of the block so it
    /// cannot be moved afterwards.
    ///
    /// The block must fit: every cell in range and currently empty.  When
    /// a spawned block overlaps the stack the engine is already lost and
    /// never freezes it.
    pub fn freeze(&mut self, block: Block)
        requires
            old(self).wf(),
            block.wf(),
            !block.spec_collides(*old(self)),
        ensures
            final(self).wf(),
            final(self).width == old(self).width,
            final(self).height == old(self).height,
            final(self).hidden == old(self).hidden,
            final(self).spawn == old(self).spawn,
            forall|x: int, y: int|
                0 <= x < old(self).width && 0 <= y < old(self).height ==> final(self).cell(x, y)
                    == (if block.cells().contains((x, y)) {
                    block.id
                } else {
                    old(self).cell(x, y)
                }),
    {
        let d = block.rs.data(block.id, block.r);
        let ghost cells = block.cells();
        let ghost orig = *self;
        let mut i: usize = 0;
        while i < 4
            invariant
                0 <= i <= 4,
                orig.wf(),
                self.wf(),
                block.wf(),
                self.width == orig.width && self.height == orig.height && self.hidden
                    == orig.hidden && self.spawn == orig.spawn,
                d@ == block.rs.offsets_spec(block.id, block.r),
                cells == block.cells(),
                cells.len() == 4,
                forall|j: int| 0 <= j < 4 ==> !pos_blocked(orig, cells[j].0, cells[j].1),
                forall|x: int, y: int|
                    0 <= x < orig.width && 0 <= y < orig.height ==> self.cell(x, y) == (
                    if exists|j: int| 0 <= j < i && cells[j] == (x, y) {
                        block.id
                    } else {
                        orig.cell(x, y)
                    }),
            decreases 4 - i,
        {
            let (dx, dy) = d[i];
            proof {
                assert(cells[i as int] == (block.x + dx, block.y + dy));
                assert(!pos_blocked(orig, cells[i as int].0, cells[i as int].1));
            }
            let cx = (block.x as i64 + dx as i64) as usize;
            let cy = (block.y as i64 + dy as i64) as usize;
            let ghost prev = *self;
            self.set_cell(cx, cy, block.id);
            proof {
                assert(cx as int == cells[i as int].0 && cy as int == cells[i as int].1);
                assert forall|x: int, y: int|
                    0 <= x < orig.width && 0 <= y < orig.height implies self.cell(x, y) == (
                    if exists|j: int| 0 <= j < i + 1 && cells[j] == (x, y) {
                        block.id
                    } else {
                        orig.cell(x, y)
                    }) by {
                    if x == cx as int && y == cy as int {
                        assert(cells[i as int] == (x, y));
                        assert(exists|j: int| 0 <= j < i + 1 && cells[j] == (x, y));
                        assert(self.cell(x, y) == block.id);
                    } else {
                        assert(self.cell(x, y) == prev.cell(x, y));
                        if exists|j: int| 0 <= j < i + 1 && cells[j] == (x, y) {
                            let j = choose|j: int| 0 <= j < i + 1 && cells[j] == (x, y);
                            assert(j != i);
                            assert(exists|j: int| 0 <= j < i && cells[j] == (x, y));
                        }
                    }
                }
            }
            i += 1;
        }
        proof {
            assert forall|x: int, y: int|
                0 <= x < orig.width && 0 <= y < orig.height implies self.cell(x, y) == (
                if cells.contains((x, y)) {
                    block.id
                } else {
                    orig.cell(x, y)
                }) by {
                if cells.contains((x, y)) {
                    let j = choose|j: int| 0 <= j < cells.len() && cells[j] == (x, y);
                    assert(exists|j: int| 0 <= j < 4 && cells[j] == (x, y));
                }
            }
        }
    }

    /// Clear every completed line from the field and return how many rows
    /// were removed.
    ///
    /// The rows that keep at least one empty cell survive, in their
    /// original order; the removed count of fresh empty rows is prepended
    /// at the top.  After the call no completed row remains.
    pub fn clear_lines(&mut self) -> (r: usize)
        requires
            old(self).wf(),
        ensures
            final(self).wf(),
            final(self).width == old(self).width,
            final(self).height == old(self).height,
            final(self).hidden == old(self).hidden,
            final(self).spawn == old(self).spawn,
            r == old(self).height - old(self).grid().filter(|row: Seq<Id>| row_not_full(row)).len(),
            forall|y: int| 0 <= y < r ==> row_all_empty(#[trigger] final(self).grid()[y]),
            forall|y: int|
                r <= y < old(self).height ==> #[trigger] final(self).grid()[y] == old(
                    self,
                ).grid().filter(|row: Seq<Id>| row_not_full(row))[y - r],
            forall|y: int| 0 <= y < old(self).height ==> row_not_full(#[trigger] final(self).grid()[y]),
    {
        let ghost orig = *self;
        let ghost pred = |row: Seq<Id>| row_not_full(row);
        let mut kept: Vec<Vec<Id>> = Vec::new();
        let mut y: usize = 0;
        while y < self.height
            invariant
                0 <= y <= self.height,
                *self == orig,
                orig.wf(),
                grid_of(kept) =~= orig.grid().subrange(0, y as int).filter(pred),
                pred == (|row: Seq<Id>| row_not_full(row)),
                forall|j: int|
                    0 <= j < grid_of(kept).len() ==> (#[trigger] grid_of(kept)[j]).len()
                        == orig.width && row_not_full(grid_of(kept)[j]),
            decreases self.height - y,
        {
            let ghost pre = orig.grid().subrange(0, y as int);
            let ghost prekept = grid_of(kept);
            proof {
                assert(orig.grid()[y as int] == self.data@[y as int]@);
            }
            let keep = row_has_empty(&self.data[y]);
            if keep {
                let row = copy_row(&self.data[y]);
                kept.push(row);
                proof {
                    assert(grid_of(kept) =~= prekept.push(row@));
                }
            }
            proof {
                assert(pre.push(orig.grid()[y as int]) =~= orig.grid().subrange(0, y as int + 1));
                assert(pre.push(orig.grid()[y as int]) == orig.grid().subrange(0, y as int + 1));
                lemma_filter_one_more(pre, orig.grid()[y as int], pred);
                assert(grid_of(kept) =~= orig.grid().subrange(0, y as int + 1).filter(pred));
            }
            y += 1;
        }
        proof {
            assert(orig.grid().subrange(0, orig.height as int) =~= orig.grid());
            orig.grid().lemma_filter_len(pred);
        }
        let cleared = self.height - kept.len();
        let mut data: Vec<Vec<Id>> = Vec::new();
        let mut i: usize = 0;
        while i < cleared
            invariant
                0 <= i <= cleared,
                orig.wf(),
                self.width == orig.width,
                grid_of(data).len() == i,
                forall|j: int|
                    0 <= j < i ==> row_all_empty(#[trigger] grid_of(data)[j]) && grid_of(
                        data,
                    )[j].len() == orig.width,
            decreases cleared - i,
        {
            let ghost predata = grid_of(data);
            let row = make_empty_row(self.width);
            data.push(row);
            proof {
                assert(grid_of(data) =~= predata.push(row@));
            }
            i += 1;
        }
        let ghost blanks = grid_of(data);
        data.append(&mut kept);
        proof {
            assert(grid_of(data) =~= blanks + orig.grid().filter(pred));
        }
        self.data = data;
        proof {
            orig.grid().filter_lemma(pred);
            assert forall|yy: int| 0 <= yy < orig.height implies row_not_full(
                #[trigger] self.grid()[yy],
            ) by {
                if yy < cleared {
                    assert(row_all_empty(self.grid()[yy]));
                    assert(self.grid()[yy].len() == orig.width >= 1);
                    assert(self.grid()[yy][0] == Id::Empty);
                }
            }
        }
        cleared
    }
}

/// Does this row contain at least one empty cell?
fn row_has_empty(row: &Vec<Id>) -> (b: bool)
    ensures
        b == row_not_full(row@),
{
    let mut x: usize = 0;
    let mut found = false;
    while x < row.len()
        invariant
            0 <= x <= row@.len(),
            found == exists|j: int| 0 <= j < x && row@[j] == Id::Empty,
        decreases row@.len() - x,
    {
        if row[x] == Id::Empty {
            found = true;
        }
        x += 1;
    }
    found
}

/// Copy a row of cells.
fn copy_row(row: &Vec<Id>) -> (out: Vec<Id>)
    ensures
        out@ == row@,
{
    let mut out: Vec<Id> = Vec::new();
    let mut x: usize = 0;
    while x < row.len()
        invariant
            0 <= x <= row@.len(),
            out@ =~= row@.subrange(0, x as int),
        decreases row@.len() - x,
    {
        out.push(row[x]);
        x += 1;
    }
    proof {
        assert(out@ =~= row@);
    }
    out
}

/// Build a row of `width` empty cells.
fn make_empty_row(width: usize) -> (out: Vec<Id>)
    ensures
        out@.len() == width,
        row_all_empty(out@),
{
    let mut out: Vec<Id> = Vec::new();
    while out.len() < width
        invariant
            out@.len() <= width,
            forall|j: int| 0 <= j < out@.len() ==> out@[j] == Id::Empty,
        decreases width - out@.len(),
    {
        out.push(Id::Empty);
    }
    out
}

/// Filtering a sequence extended by one element keeps the filtered prefix
/// and appends the element exactly when it satisfies the predicate.
proof fn lemma_filter_one_more<A>(s: Seq<A>, x: A, pred: spec_fn(A) -> bool)
    ensures
        s.push(x).filter(pred) == if pred(x) {
            s.filter(pred).push(x)
        } else {
            s.filter(pred)
        },
{
    reveal(Seq::filter);
    assert(s.push(x).drop_last() =~= s);
    assert(s.push(x).last() == x);
}

} // verus!

