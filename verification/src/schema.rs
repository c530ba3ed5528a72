//! Conversion between game state and its textual picture.
//!
//! A schema is a rectangular grid of characters: `' '` for an empty
//! cell, `'#'` for a filled cell and `'@'` for a cell of the active
//! block.  It can be parsed from a decorated multi-line string and
//! rendered back, which makes complicated test cases easy to write.

use vstd::prelude::*;

use crate::block::{Block, BlockOptions, Id, Rotation};
use crate::field::{Field, FieldOptions};
use crate::rotation_system::RotationSystem;
use crate::Error;

verus! {

/// Characters stripped as frame decoration before a line is read.
pub open spec fn keep_char(c: char) -> bool {
    c != '\n' && c != '|' && c != '-'
}

/// The whitespace trimmed from the edges of a line.
pub open spec fn is_space_char(c: char) -> bool {
    c == ' ' || c == '\t' || c == '\r'
}

/// Drop the leading whitespace of a line.
pub open spec fn drop_leading(l: Seq<char>) -> Seq<char>
    decreases l.len(),
{
    if l.len() > 0 && is_space_char(l[0]) {
        drop_leading(l.drop_first())
    } else {
        l
    }
}

/// Drop the trailing whitespace of a line.
pub open spec fn drop_trailing(l: Seq<char>) -> Seq<char>
    decreases l.len(),
{
    if l.len() > 0 && is_space_char(l.last()) {
        drop_trailing(l.drop_last())
    } else {
        l
    }
}

/// A line as it enters the grid: trimmed of edge whitespace, with the
/// frame decoration characters removed.
pub open spec fn clean_line(l: Seq<char>) -> Seq<char> {
    drop_trailing(drop_leading(l)).filter(|c: char| keep_char(c))
}

/// The lines of `s`, split on newlines, with `acc` the partial line
/// read so far.
pub open spec fn split_acc(s: Seq<char>, acc: Seq<char>) -> Seq<Seq<char>>
    decreases s.len(),
{
    if s.len() == 0 {
        seq![acc]
    } else if s[0] == '\n' {
        seq![acc] + split_acc(s.drop_first(), Seq::empty())
    } else {
        split_acc(s.drop_first(), acc.push(s[0]))
    }
}

/// Cleaned lines with the empty ones removed.
pub open spec fn clean_rows(rows: Seq<Seq<char>>) -> Seq<Seq<char>> {
    rows.map_values(|l: Seq<char>| clean_line(l)).filter(|l: Seq<char>| l.len() > 0)
}

/// The grid that the text `s` denotes: its lines, cleaned, with empty
/// lines dropped.
pub open spec fn parsed_rows(s: Seq<char>) -> Seq<Seq<char>> {
    clean_rows(split_acc(s, Seq::empty()))
}

/// Do all rows share the length of the first?
pub open spec fn uniform_rows(rows: Seq<Seq<char>>) -> bool {
    forall|i: int| 0 <= i < rows.len() ==> (#[trigger] rows[i]).len() == rows[0].len()
}

/// Is this row entirely blank?
pub open spec fn blank_row(row: Seq<char>) -> bool {
    forall|x: int| 0 <= x < row.len() ==> row[x] == ' '
}

/// Strip the leading fully-blank rows of a grid.
pub open spec fn strip_leading_blank(g: Seq<Seq<char>>) -> Seq<Seq<char>>
    decreases g.len(),
{
    if g.len() > 0 && blank_row(g[0]) {
        strip_leading_blank(g.drop_first())
    } else {
        g
    }
}

/// A schema is a rectangular textual picture of a field with an active
/// block.
#[derive(Debug)]
pub struct Schema {
    /// The picture, row by row: `data[y][x]`.
    pub data: Vec<Vec<char>>,
    /// The width of the picture.
    pub width: usize,
    /// The height of the picture.
    pub height: usize,
}

impl Schema {
    /// The rows of the picture as a mathematical sequence.
    pub open spec fn grid(self) -> Seq<Seq<char>> {
        self.data@.map_values(|row: Vec<char>| row@)
    }

    /// The picture is rectangular, non-empty, and small enough to map
    /// onto a field with signed 32-bit coordinates.
    pub open spec fn wf(self) -> bool {
        &&& self.grid().len() == self.height
        &&& forall|y: int| 0 <= y < self.height ==> (#[trigger] self.grid()[y]).len() == self.width
        &&& 1 <= self.width <= 0x7fff_ffff
        &&& 1 <= self.height <= 0x7fff_ffff
    }

    /// Construct a schema from an input string.
    ///
    /// The string is split into lines; each line is trimmed and its
    /// `|` and `-` frame decoration removed; blank lines are dropped.
    /// An input with no remaining rows is refused with
    /// [`Error::EmptyInput`], rows of unequal lengths with
    /// [`Error::UnevenRows`], and a picture too large for a field with
    /// [`Error::TooLarge`].
    pub fn from_string(field: &str) -> (r: Result<Schema, Error>)
        ensures
            r matches Ok(sc) ==> {
                &&& sc.wf()
                &&& sc.grid() == parsed_rows(field@)
                &&& sc.height == parsed_rows(field@).len()
                &&& sc.width == parsed_rows(field@)[0].len()
            },
            r matches Err(e) ==> ((e == Error::EmptyInput && parsed_rows(field@).len() == 0) || (e
                == Error::UnevenRows && !uniform_rows(parsed_rows(field@))) || (e
                == Error::TooLarge && (parsed_rows(field@).len() > 0x7fff_ffff || (parsed_rows(
                field@,
            ).len() >= 1 && parsed_rows(field@)[0].len() > 0x7fff_ffff)))),
            (parsed_rows(field@).len() >= 1 && uniform_rows(parsed_rows(field@)) && parsed_rows(
                field@,
            ).len() <= 0x7fff_ffff && parsed_rows(field@)[0].len() <= 0x7fff_ffff) ==> r is Ok,
    {
        let cs = chars_of(field);
        let ghost all = field@;
        let mut rows: Vec<Vec<char>> = Vec::new();
        let mut line: Vec<char> = Vec::new();
        proof {
            assert(all.skip(0) =~= all);
        }
        let mut i: usize = 0;
        while i < cs.len()
            invariant
                cs@ == all,
                i <= all.len(),
                grid_of_rows(rows) + clean_rows(split_acc(all.skip(i as int), line@))
                    =~= parsed_rows(all),
                forall|k: int|
                    0 <= k < grid_of_rows(rows).len() ==> (#[trigger] grid_of_rows(rows)[k]).len()
                        > 0,
            decreases all.len() - i,
        {
            let c = cs[i];
            proof {
                assert(all.skip(i as int)[0] == c);
                assert(all.skip(i as int).drop_first() =~= all.skip(i as int + 1));
            }
            if c == '\n' {
                let ghost pre_rows = grid_of_rows(rows);
                let ghost finished = line@;
                let cleaned = clean_line_exec(&line);
                if cleaned.len() > 0 {
                    rows.push(cleaned);
                    proof {
                        assert(grid_of_rows(rows) =~= pre_rows.push(cleaned@));
                    }
                }
                line = Vec::new();
                proof {
                    lemma_clean_rows_cons(finished, all.skip(i as int + 1));
                    assert(split_acc(all.skip(i as int), finished) == seq![finished] + split_acc(
                        all.skip(i as int + 1),
                        Seq::empty(),
                    ));
                }
            } else {
                line.push(c);
            }
            i += 1;
        }
        proof {
            assert(all.skip(all.len() as int) =~= Seq::<char>::empty());
        }
        let ghost pre_rows = grid_of_rows(rows);
        let cleaned = clean_line_exec(&line);
        if cleaned.len() > 0 {
            rows.push(cleaned);
            proof {
                assert(grid_of_rows(rows) =~= pre_rows.push(cleaned@));
            }
        }
        proof {
            lemma_clean_rows_single(line@);
            assert(grid_of_rows(rows) =~= parsed_rows(all));
        }
        if rows.len() == 0 {
            return Err(Error::EmptyInput);
        }
        let width = rows[0].len();
        let height = rows.len();
        let mut k: usize = 1;
        while k < height
            invariant
                all == field@,
                1 <= k <= height,
                height == rows@.len(),
                width == grid_of_rows(rows)[0].len(),
                grid_of_rows(rows) == parsed_rows(all),
                forall|j: int| 0 <= j < k ==> (#[trigger] grid_of_rows(rows)[j]).len() == width,
            decreases height - k,
        {
            if rows[k].len() != width {
                proof {
                    assert(parsed_rows(all)[k as int].len() != parsed_rows(all)[0].len());
                    assert(!uniform_rows(parsed_rows(all)));
                }
                return Err(Error::UnevenRows);
            }
            k += 1;
        }
        if width > 0x7fff_ffff || height > 0x7fff_ffff {
            return Err(Error::TooLarge);
        }
        proof {
            assert(grid_of_rows(rows)[0].len() > 0);
        }
        Ok(Schema { data: rows, width, height })
    }
}

/// The rows of a character matrix as a sequence of sequences.
pub open spec fn grid_of_rows(rows: Vec<Vec<char>>) -> Seq<Seq<char>> {
    rows@.map_values(|row: Vec<char>| row@)
}

/// Cleaning distributes over splitting off one whole line.
proof fn lemma_clean_rows_cons(line: Seq<char>, rest: Seq<char>)
    ensures
        clean_rows(seq![line] + split_acc(rest, Seq::empty())) == clean_rows(seq![line])
            + clean_rows(split_acc(rest, Seq::empty())),
        clean_rows(seq![line]) == (if clean_line(line).len() > 0 {
            seq![clean_line(line)]
        } else {
            Seq::<Seq<char>>::empty()
        }),
{
    let pred = |l: Seq<char>| l.len() > 0;
    let f = |l: Seq<char>| clean_line(l);
    let a = seq![line];
    let b = split_acc(rest, Seq::empty());
    assert((a + b).map_values(f) =~= a.map_values(f) + b.map_values(f));
    Seq::filter_distributes_over_add(a.map_values(f), b.map_values(f), pred);
    lemma_clean_rows_single(line);
}

/// Cleaning a single line keeps it exactly when it is non-empty after
/// cleaning.
proof fn lemma_clean_rows_single(line: Seq<char>)
    ensures
        clean_rows(seq![line]) == (if clean_line(line).len() > 0 {
            seq![clean_line(line)]
        } else {
            Seq::<Seq<char>>::empty()
        }),
{
    let pred = |l: Seq<char>| l.len() > 0;
    let f = |l: Seq<char>| clean_line(l);
    let m = seq![line].map_values(f);
    assert(m =~= seq![clean_line(line)]);
    reveal_with_fuel(Seq::filter, 3);
    assert(m.drop_last() =~= Seq::<Seq<char>>::empty());
    assert(m.drop_last() == Seq::<Seq<char>>::empty());
    assert(Seq::<Seq<char>>::empty().filter(pred) =~= Seq::<Seq<char>>::empty());
    assert(m.last() == clean_line(line));
    if pred(clean_line(line)) {
        assert(m.filter(pred) =~= seq![clean_line(line)]);
    } else {
        assert(m.filter(pred) =~= Seq::<Seq<char>>::empty());
    }
}

/// Collect the characters of a string slice.
fn chars_of(s: &str) -> (v: Vec<char>)
    ensures
        v@ == s@,
{
    proof {
        broadcast use vstd::string::axiom_spec_iter;

    }
    let mut v: Vec<char> = Vec::new();
    let mut it = s.chars();
    loop
        invariant
            vstd::std_specs::iter::IteratorSpec::obeys_prophetic_iter_laws(&it),
            vstd::std_specs::iter::IteratorSpec::decrease(&it) is Some,
            v@ + vstd::std_specs::iter::IteratorSpec::remaining(&it) == s@,
        ensures
            v@ == s@,
        decreases vstd::std_specs::iter::IteratorSpec::decrease(&it)->0,
    {
        proof {
            broadcast use vstd::string::next_postcondition;

        }
        match it.next() {
            Some(c) => {
                v.push(c);
                proof {
                    assert(v@ + vstd::std_specs::iter::IteratorSpec::remaining(&it) =~= s@);
                }
            },
            Option::None => {
                proof {
                    assert(v@ =~= s@);
                }
                break ;
            },
        }
    }
    v
}

/// Trim a line and drop its decoration characters.
fn clean_line_exec(line: &Vec<char>) -> (out: Vec<char>)
    ensures
        out@ == clean_line(line@),
{
    let n = line.len();
    let mut a: usize = 0;
    while a < n && is_space_exec(line[a])
        invariant
            n == line@.len(),
            a <= n,
            forall|k: int| 0 <= k < a ==> is_space_char(line@[k]),
        decreases n - a,
    {
        a += 1;
    }
    proof {
        lemma_drop_leading_skip(line@, a as int);
    }
    let ghost mid = line@.skip(a as int);
    if a == n {
        proof {
            assert(mid =~= Seq::<char>::empty());
            reveal(Seq::filter);
            assert(clean_line(line@) =~= Seq::<char>::empty());
        }
        return Vec::new();
    }
    let mut b: usize = n;
    while b > a + 1 && is_space_exec(line[b - 1])
        invariant
            n == line@.len(),
            a < b <= n,
            forall|k: int| b <= k < n ==> is_space_char(line@[k]),
        decreases b,
    {
        b -= 1;
    }
    proof {
        assert(!is_space_char(line@[a as int]));
        assert(mid[b - a - 1] == line@[b - 1]);
        if b == a + 1 {
            assert(!is_space_char(mid[0]));
        }
        lemma_drop_trailing_take(mid, b - a);
    }
    let ghost trimmed = mid.take(b - a);
    let mut out: Vec<char> = Vec::new();
    let mut k: usize = a;
    while k < b
        invariant
            n == line@.len(),
            a <= k <= b <= n,
            trimmed == line@.skip(a as int).take(b - a),
            out@ == trimmed.take(k - a).filter(|c: char| keep_char(c)),
        decreases b - k,
    {
        let c = line[k];
        let ghost pre = trimmed.take(k - a);
        proof {
            assert(trimmed.take(k + 1 - a) =~= pre.push(c));
            lemma_filter_char_one_more(pre, c);
        }
        if c != '\n' && c != '|' && c != '-' {
            out.push(c);
        }
        k += 1;
    }
    proof {
        assert(trimmed.take(b - a) =~= trimmed);
    }
    out
}

/// Filtering a character sequence extended by one element.
proof fn lemma_filter_char_one_more(s: Seq<char>, c: char)
    ensures
        s.push(c).filter(|c0: char| keep_char(c0)) == if keep_char(c) {
            s.filter(|c0: char| keep_char(c0)).push(c)
        } else {
            s.filter(|c0: char| keep_char(c0))
        },
{
    reveal(Seq::filter);
    assert(s.push(c).drop_last() =~= s);
    assert(s.push(c).last() == c);
}

/// Is this character trimmed from line edges?
fn is_space_exec(c: char) -> (r: bool)
    ensures
        r == is_space_char(c),
{
    c == ' ' || c == '\t' || c == '\r'
}

/// Dropping leading whitespace reaches the first non-space character.
proof fn lemma_drop_leading_skip(l: Seq<char>, a: int)
    requires
        0 <= a <= l.len(),
        forall|k: int| 0 <= k < a ==> is_space_char(l[k]),
        a < l.len() ==> !is_space_char(l[a]),
    ensures
        drop_leading(l) == l.skip(a),
    decreases a,
{
    if a == 0 {
        if l.len() > 0 && is_space_char(l[0]) {
            assert(false);
        }
        assert(l.skip(0) =~= l);
    } else {
        assert(is_space_char(l[0]));
        assert(l.drop_first() =~= l.skip(1));
        lemma_drop_leading_skip(l.skip(1), a - 1);
        assert(l.skip(1).skip(a - 1) =~= l.skip(a));
    }
}

/// Dropping trailing whitespace reaches the last non-space character.
proof fn lemma_drop_trailing_take(l: Seq<char>, b: int)
    requires
        1 <= b <= l.len(),
        forall|k: int| b <= k < l.len() ==> is_space_char(l[k]),
        !is_space_char(l[b - 1]),
    ensures
        drop_trailing(l) == l.take(b),
    decreases l.len(),
{
    if l.len() == b {
        assert(!is_space_char(l.last()));
        assert(l.take(b) =~= l);
    } else {
        assert(is_space_char(l.last()));
        assert(l.drop_last() =~= l.take(l.len() - 1));
        lemma_drop_trailing_take(l.take(l.len() - 1), b);
        assert(l.take(l.len() - 1).take(b) =~= l.take(b));
    }
}


/// Scanning order: has `(cx, cy)` been visited before `(x, y)` in a
/// top-to-bottom, left-to-right scan?
pub open spec fn raster_before(cx: int, cy: int, x: int, y: int) -> bool {
    cy < y || (cy == y && cx < x)
}

/// The character a `(Field, Block)` state renders at `(x, y)`, assuming
/// no overlap there.
pub open spec fn render_char(f: Field, b: Block, x: int, y: int) -> char {
    if f.occupied(x, y) {
        '#'
    } else if b.cells().contains((x, y)) {
        '@'
    } else {
        ' '
    }
}

impl Schema {
    /// Construct the `(Field, Block)` state this picture denotes.
    ///
    /// The picture is scanned top-to-bottom, left-to-right: `'#'` fills
    /// a cell, `' '` leaves it empty, and the first cell of each `'@'`
    /// group is matched against every piece shape and orientation; the
    /// matched cells are consumed and become the active block.  A
    /// picture with an unknown character, with no block, or with `'@'`
    /// cells that match no shape is refused.
    pub fn to_state(&self, rotation_system: RotationSystem) -> (r: Result<(Field, Block), Error>)
        requires
            self.wf(),
        ensures
            r matches Ok(p) ==> {
                &&& p.0.wf()
                &&& p.0.width == self.width
                &&& p.0.height == self.height
                &&& forall|x: int, y: int|
                    0 <= x < self.width && 0 <= y < self.height ==> p.0.cell(x, y) == (
                    if self.grid()[y][x] == '#' {
                        Id::I
                    } else {
                        Id::Empty
                    })
                &&& forall|x: int, y: int|
                    0 <= x < self.width && 0 <= y < self.height ==> (#[trigger] self.grid()[y][x])
                        == ' ' || self.grid()[y][x] == '#' || self.grid()[y][x] == '@'
                &&& p.1.wf()
                &&& p.1.rs == rotation_system
                &&& !p.1.spec_collides(p.0)
                &&& forall|i: int|
                    0 <= i < p.1.cells().len() ==> {
                        let c = #[trigger] p.1.cells()[i];
                        &&& 0 <= c.0 < self.width
                        &&& 0 <= c.1 < self.height
                        &&& self.grid()[c.1][c.0] == '@'
                    }
            },
            r matches Err(e) ==> (e == Error::MissingBlock || e == Error::UnmatchedBlock || e
                == Error::UnknownCharacter),
            r matches Err(e) && e == Error::MissingBlock ==> forall|x: int, y: int|
                0 <= x < self.width && 0 <= y < self.height ==> (#[trigger] self.grid()[y][x])
                    != '@',
            r matches Err(e) && e == Error::UnknownCharacter ==> !legal_chars(
                self.grid(),
                self.width as int,
                self.height as int,
            ),
            r matches Err(e) && e == Error::UnmatchedBlock ==> exists|x: int, y: int|
                0 <= x < self.width && 0 <= y < self.height && (#[trigger] self.grid()[y][x])
                    == '@',
            (legal_chars(self.grid(), self.width as int, self.height as int)
                && single_block_picture(
                rotation_system,
                self.grid(),
                self.width as int,
                self.height as int,
            )) ==> r is Ok,
    {
        let mut work: Vec<Vec<char>> = Vec::new();
        let mut yy: usize = 0;
        while yy < self.data.len()
            invariant
                self.wf(),
                yy <= self.data@.len(),
                grid_of_rows(work) =~= self.grid().take(yy as int),
            decreases self.data@.len() - yy,
        {
            let ghost pre = grid_of_rows(work);
            proof {
                assert(self.grid()[yy as int] == self.data@[yy as int]@);
            }
            let row = copy_char_row(&self.data[yy]);
            work.push(row);
            proof {
                assert(grid_of_rows(work) =~= pre.push(row@));
                assert(grid_of_rows(work) =~= self.grid().take(yy as int + 1));
            }
            yy += 1;
        }
        proof {
            assert(self.grid().take(self.grid().len() as int) =~= self.grid());
        }
        let mut field = Field::with_options(
            FieldOptions { height: self.height, width: self.width, ..FieldOptions::default() },
        );
        let mut block: Option<Block> = Option::None;
        let mut y: usize = 0;
        while y < self.height
            invariant
                self.wf(),
                field.wf(),
                field.width == self.width,
                field.height == self.height,
                y <= self.height,
                grid_of_rows(work).len() == self.height,
                forall|j: int|
                    0 <= j < self.height ==> (#[trigger] grid_of_rows(work)[j]).len()
                        == self.width,
                forall|cx: int, cy: int|
                    0 <= cx < self.width && 0 <= cy < self.height ==> #[trigger] grid_of_rows(
                        work,
                    )[cy][cx] == self.grid()[cy][cx] || (self.grid()[cy][cx] == '@'
                        && grid_of_rows(work)[cy][cx] == ' '),
                forall|cx: int, cy: int|
                    0 <= cx < self.width && 0 <= cy < self.height ==> #[trigger] field.cell(
                        cx,
                        cy,
                    ) == (if raster_before(cx, cy, 0, y as int) && self.grid()[cy][cx] == '#' {
                        Id::I
                    } else {
                        Id::Empty
                    }),
                forall|cx: int, cy: int|
                    0 <= cx < self.width && 0 <= cy < self.height && raster_before(
                        cx,
                        cy,
                        0,
                        y as int,
                    ) ==> (#[trigger] self.grid()[cy][cx]) == ' ' || self.grid()[cy][cx] == '#'
                        || self.grid()[cy][cx] == '@',
                block is None ==> grid_of_rows(work) == self.grid(),
                block is None ==> forall|cx: int, cy: int|
                    0 <= cx < self.width && 0 <= cy < self.height && raster_before(
                        cx,
                        cy,
                        0,
                        y as int,
                    ) ==> (#[trigger] self.grid()[cy][cx]) != '@',
                block matches Some(b) ==> b.wf() && b.rs == rotation_system && (forall|i: int|
                    0 <= i < b.cells().len() ==> {
                        let c = #[trigger] b.cells()[i];
                        &&& 0 <= c.0 < self.width
                        &&& 0 <= c.1 < self.height
                        &&& self.grid()[c.1][c.0] == '@'
                        &&& grid_of_rows(work)[c.1][c.0] == ' '
                    }),
            decreases self.height - y,
        {
            let mut x: usize = 0;
            while x < self.width
                invariant
                    self.wf(),
                    field.wf(),
                    field.width == self.width,
                    field.height == self.height,
                    y < self.height,
                    x <= self.width,
                    grid_of_rows(work).len() == self.height,
                    forall|j: int|
                        0 <= j < self.height ==> (#[trigger] grid_of_rows(work)[j]).len()
                            == self.width,
                    forall|cx: int, cy: int|
                        0 <= cx < self.width && 0 <= cy < self.height ==> #[trigger] grid_of_rows(
                            work,
                        )[cy][cx] == self.grid()[cy][cx] || (self.grid()[cy][cx] == '@'
                            && grid_of_rows(work)[cy][cx] == ' '),
                    forall|cx: int, cy: int|
                        0 <= cx < self.width && 0 <= cy < self.height ==> #[trigger] field.cell(
                            cx,
                            cy,
                        ) == (if raster_before(cx, cy, x as int, y as int) && self.grid()[cy][cx]
                            == '#' {
                            Id::I
                        } else {
                            Id::Empty
                        }),
                    forall|cx: int, cy: int|
                        0 <= cx < self.width && 0 <= cy < self.height && raster_before(
                            cx,
                            cy,
                            x as int,
                            y as int,
                        ) ==> (#[trigger] self.grid()[cy][cx]) == ' ' || self.grid()[cy][cx]
                            == '#' || self.grid()[cy][cx] == '@',
                    block is None ==> grid_of_rows(work) == self.grid(),
                    block is None ==> forall|cx: int, cy: int|
                        0 <= cx < self.width && 0 <= cy < self.height && raster_before(
                            cx,
                            cy,
                            x as int,
                            y as int,
                        ) ==> (#[trigger] self.grid()[cy][cx]) != '@',
                    block matches Some(b) ==> b.wf() && b.rs == rotation_system && (forall|i: int|
                        0 <= i < b.cells().len() ==> {
                            let c = #[trigger] b.cells()[i];
                            &&& 0 <= c.0 < self.width
                            &&& 0 <= c.1 < self.height
                            &&& self.grid()[c.1][c.0] == '@'
                            &&& grid_of_rows(work)[c.1][c.0] == ' '
                        }),
                decreases self.width - x,
            {
                proof {
                    assert(grid_of_rows(work)[y as int] == work@[y as int]@);
                }
                let c = work[y][x];
                proof {
                    assert(grid_of_rows(work)[y as int][x as int] == c);
                }
                if c == '@' {
                    proof {
                        assert(self.grid()[y as int][x as int] == '@');
                    }
                    let ghost prework = grid_of_rows(work);
                    let b = match match_block(&mut work, &field, rotation_system, x, y) {
                        Ok(b) => b,
                        Err(e) => {
                            proof {
                                let w = self.width as int;
                                let h = self.height as int;
                                lemma_unmatched_is_no_single_block(
                                    *self,
                                    rotation_system,
                                    grid_of_rows(work),
                                    block,
                                    x as int,
                                    y as int,
                                );
                            }
                            return Err(e);
                        },
                    };
                    proof {
                        assert forall|i: int| 0 <= i < b.cells().len() implies {
                            let cc = #[trigger] b.cells()[i];
                            &&& 0 <= cc.0 < self.width
                            &&& 0 <= cc.1 < self.height
                            &&& self.grid()[cc.1][cc.0] == '@'
                            &&& grid_of_rows(work)[cc.1][cc.0] == ' '
                        } by {
                            let cc = b.cells()[i];
                            assert(prework[cc.1][cc.0] == '@');
                            assert(b.cells().contains(cc));
                        }
                        assert forall|cx: int, cy: int|
                            0 <= cx < self.width && 0 <= cy < self.height
                                implies #[trigger] grid_of_rows(work)[cy][cx]
                                == self.grid()[cy][cx] || (self.grid()[cy][cx] == '@'
                                && grid_of_rows(work)[cy][cx] == ' ') by {
                            if b.cells().contains((cx, cy)) {
                                let i = choose|i: int|
                                    0 <= i < b.cells().len() && b.cells()[i] == (cx, cy);
                                assert(self.grid()[cy][cx] == '@');
                            } else {
                                assert(grid_of_rows(work)[cy][cx] == prework[cy][cx]);
                            }
                        }
                    }
                    block = Some(b);
                } else if c == '#' {
                    proof {
                        assert(self.grid()[y as int][x as int] == '#');
                    }
                    let ghost prefield = field;
                    field.set_cell(x, y, Id::I);
                    proof {
                        assert forall|cx: int, cy: int|
                            0 <= cx < self.width && 0 <= cy < self.height
                                implies #[trigger] field.cell(cx, cy) == (if raster_before(
                            cx,
                            cy,
                            x as int + 1,
                            y as int,
                        ) && self.grid()[cy][cx] == '#' {
                            Id::I
                        } else {
                            Id::Empty
                        }) by {
                            if cx == x as int && cy == y as int {
                                assert(field.cell(cx, cy) == Id::I);
                            } else {
                                assert(field.cell(cx, cy) == prefield.cell(cx, cy));
                                assert(raster_before(cx, cy, x as int + 1, y as int)
                                    == raster_before(cx, cy, x as int, y as int));
                            }
                        }
                    }
                } else if c == ' ' {
                    proof {
                        assert(self.grid()[y as int][x as int] == ' ' || self.grid()[y as int][x as int] == '@');
                        assert(self.grid()[y as int][x as int] != '#');
                    }
                } else {
                    proof {
                        assert(grid_of_rows(work)[y as int][x as int] == self.grid()[y as int][x as int]);
                    }
                    return Err(Error::UnknownCharacter);
                }
                proof {
                    if !(c == '#') {
                        assert forall|cx: int, cy: int|
                            0 <= cx < self.width && 0 <= cy < self.height
                                implies #[trigger] field.cell(cx, cy) == (if raster_before(
                            cx,
                            cy,
                            x as int + 1,
                            y as int,
                        ) && self.grid()[cy][cx] == '#' {
                            Id::I
                        } else {
                            Id::Empty
                        }) by {
                            if cx == x as int && cy == y as int {
                                assert(!raster_before(cx, cy, x as int, y as int));
                                assert(self.grid()[cy][cx] != '#');
                            } else {
                                assert(raster_before(cx, cy, x as int + 1, y as int)
                                    == raster_before(cx, cy, x as int, y as int));
                            }
                        }
                    }
                    assert forall|cx: int, cy: int|
                        0 <= cx < self.width && 0 <= cy < self.height && raster_before(
                            cx,
                            cy,
                            x as int + 1,
                            y as int,
                        ) implies (#[trigger] self.grid()[cy][cx]) == ' ' || self.grid()[cy][cx]
                        == '#' || self.grid()[cy][cx] == '@' by {
                        if !(cx == x as int && cy == y as int) {
                            assert(raster_before(cx, cy, x as int, y as int));
                        }
                    }
                    if block is None {
                        assert forall|cx: int, cy: int|
                            0 <= cx < self.width && 0 <= cy < self.height && raster_before(
                                cx,
                                cy,
                                x as int + 1,
                                y as int,
                            ) implies (#[trigger] self.grid()[cy][cx]) != '@' by {
                            if cx == x as int && cy == y as int {
                                assert(grid_of_rows(work) == self.grid());
                                assert(self.grid()[cy][cx] == c);
                            } else {
                                assert(raster_before(cx, cy, x as int, y as int));
                            }
                        }
                    }
                }
                x += 1;
            }
            proof {
                assert forall|cx: int, cy: int|
                    0 <= cx < self.width && 0 <= cy < self.height implies (raster_before(
                    cx,
                    cy,
                    0,
                    y as int + 1,
                ) == raster_before(cx, cy, self.width as int, y as int)) by {}
            }
            y += 1;
        }
        match block {
            Some(b) => {
                proof {
                    assert forall|i: int| 0 <= i < b.cells().len() implies !crate::block::pos_blocked(
                        field,
                        (#[trigger] b.cells()[i]).0,
                        b.cells()[i].1,
                    ) by {
                        let cc = b.cells()[i];
                        assert(self.grid()[cc.1][cc.0] == '@');
                        assert(field.cell(cc.0, cc.1) == Id::Empty);
                    }
                    assert(!b.spec_collides(field)) by {
                        assert(crate::block::spec_cells(
                            b.rs,
                            b.id,
                            b.r,
                            b.x as int + 0,
                            b.y as int + 0,
                        ) =~= b.cells());
                        if b.spec_collides(field) {
                            let i = choose|i: int|
                                0 <= i < b.cells().len() && crate::block::pos_blocked(
                                    field,
                                    b.cells()[i].0,
                                    b.cells()[i].1,
                                );
                        }
                    }
                }
                Ok((field, b))
            },
            Option::None => {
                proof {
                    let w = self.width as int;
                    let h = self.height as int;
                    if legal_chars(self.grid(), w, h) && single_block_picture(
                        rotation_system,
                        self.grid(),
                        w,
                        h,
                    ) {
                        let (id0, ro0, ox0, oy0) = choose|
                            id0: Id,
                            ro0: Rotation,
                            ox0: int,
                            oy0: int,
                        |
                            id0 != Id::Empty && #[trigger] placement_is_exact(
                                rotation_system,
                                self.grid(),
                                w,
                                h,
                                id0,
                                ro0,
                                ox0,
                                oy0,
                            );
                        let pcells = crate::block::spec_cells(rotation_system, id0, ro0, ox0, oy0);
                        rotation_system.lemma_offsets_wf(id0, ro0);
                        assert(pcells.contains(pcells[0]));
                        assert(0 <= pcells[0].0 < w && 0 <= pcells[0].1 < h);
                        assert(self.grid()[pcells[0].1][pcells[0].0] == '@');
                        assert(raster_before(pcells[0].0, pcells[0].1, 0, h));
                        assert(false);
                    }
                }
                Err(Error::MissingBlock)
            },
        }
    }

    /// Render the picture of a `(Field, Block)` state.
    ///
    /// Filled cells render as `'#'`, block cells as `'@'`, empty cells
    /// as `' '`.  A state whose block overlaps a filled cell violates
    /// the play invariant and is refused with
    /// [`Error::SchemaCollision`].
    pub fn from_state(field: &Field, block: &Block) -> (r: Result<Schema, Error>)
        requires
            field.wf(),
            block.wf(),
        ensures
            r matches Ok(sc) ==> {
                &&& sc.wf()
                &&& sc.width == field.width
                &&& sc.height == field.height
                &&& forall|x: int, y: int|
                    0 <= x < field.width && 0 <= y < field.height ==> #[trigger] sc.grid()[y][x]
                        == render_char(*field, *block, x, y)
            },
            r matches Err(e) ==> e == Error::SchemaCollision,
            (exists|x: int, y: int|
                0 <= x < field.width && 0 <= y < field.height && #[trigger] field.occupied(x, y)
                    && block.cells().contains((x, y))) <==> r is Err,
    {
        let mut rows: Vec<Vec<char>> = Vec::new();
        let mut y: usize = 0;
        while y < field.height
            invariant
                field.wf(),
                block.wf(),
                y <= field.height,
                grid_of_rows(rows).len() == y,
                forall|cy: int|
                    0 <= cy < y ==> (#[trigger] grid_of_rows(rows)[cy]).len() == field.width,
                forall|cx: int, cy: int|
                    0 <= cx < field.width && 0 <= cy < y ==> #[trigger] grid_of_rows(rows)[cy][cx]
                        == render_char(*field, *block, cx, cy),
                forall|cx: int, cy: int|
                    0 <= cx < field.width && 0 <= cy < y ==> !(#[trigger] field.occupied(cx, cy)
                        && block.cells().contains((cx, cy))),
            decreases field.height - y,
        {
            let mut row: Vec<char> = Vec::new();
            let mut x: usize = 0;
            while x < field.width
                invariant
                    field.wf(),
                    block.wf(),
                    y < field.height,
                    x <= field.width,
                    row@.len() == x,
                    forall|cx: int|
                        0 <= cx < x ==> row@[cx] == render_char(*field, *block, cx, y as int),
                    forall|cx: int|
                        0 <= cx < x ==> !(#[trigger] field.occupied(cx, y as int)
                            && block.cells().contains((cx, y as int))),
                decreases field.width - x,
            {
                let occ = field.occupies((x, y));
                let blk = block.occupies((x, y));
                if occ && blk {
                    proof {
                        assert(field.occupied(x as int, y as int) && block.cells().contains(
                            (x as int, y as int),
                        ));
                    }
                    return Err(Error::SchemaCollision);
                }
                let c = if occ {
                    '#'
                } else if blk {
                    '@'
                } else {
                    ' '
                };
                row.push(c);
                x += 1;
            }
            let ghost pre = grid_of_rows(rows);
            rows.push(row);
            proof {
                assert(grid_of_rows(rows) =~= pre.push(row@));
            }
            y += 1;
        }
        Ok(Schema { data: rows, width: field.width, height: field.height })
    }
}

/// Copy a row of characters.
fn copy_char_row(row: &Vec<char>) -> (out: Vec<char>)
    ensures
        out@ == row@,
{
    let mut out: Vec<char> = Vec::new();
    let mut x: usize = 0;
    while x < row.len()
        invariant
            x <= row@.len(),
            out@ =~= row@.subrange(0, x as int),
        decreases row@.len() - x,
    {
        out.push(row[x]);
        x += 1;
    }
    proof {
        assert(out@ =~= row@);
    }
    out
}

/// Is `(x, y)` inside the working grid and an unconsumed block cell?
fn is_block_cell(work: &Vec<Vec<char>>, width: usize, height: usize, x: i64, y: i64) -> (r: bool)
    requires
        grid_of_rows(*work).len() == height,
        forall|j: int| 0 <= j < height ==> (#[trigger] grid_of_rows(*work)[j]).len() == width,
        width <= 0x7fff_ffff,
        height <= 0x7fff_ffff,
    ensures
        r == (0 <= x < width && 0 <= y < height && grid_of_rows(*work)[y as int][x as int] == '@'),
{
    if x < 0 || y < 0 || x >= width as i64 || y >= height as i64 {
        false
    } else {
        proof {
            assert(grid_of_rows(*work)[y as int] == work@[y as int]@);
        }
        work[y as usize][x as usize] == '@'
    }
}


/// Could the `@` group whose first scanned cell is `(x, y)` be piece
/// `id` in rotation `ro`: anchoring that piece so its row-major first
/// cell lands on `(x, y)`, all four cells lie in bounds on `'@'` cells
/// of `g`?
pub open spec fn match_fits(
    rs: RotationSystem,
    g: Seq<Seq<char>>,
    w: int,
    h: int,
    id: Id,
    ro: Rotation,
    x: int,
    y: int,
) -> bool {
    let xo = rs.minp_spec(id, ro).0 as int;
    let yo = rs.minp_spec(id, ro).1 as int;
    &&& x >= xo
    &&& y >= yo
    &&& forall|j: int|
        0 <= j < rs.offsets_spec(id, ro).len() ==> {
            let cx = x - xo + (#[trigger] rs.offsets_spec(id, ro)[j]).0;
            let cy = y - yo + rs.offsets_spec(id, ro)[j].1;
            &&& 0 <= cx < w
            &&& 0 <= cy < h
            &&& g[cy][cx] == '@'
        }
}

/// Every cell of the picture is a legal schema character.
pub open spec fn legal_chars(g: Seq<Seq<char>>, w: int, h: int) -> bool {
    forall|x: int, y: int|
        0 <= x < w && 0 <= y < h ==> (#[trigger] g[y][x]) == ' ' || g[y][x] == '#' || g[y][x]
            == '@'
}

/// The `'@'` cells of the picture are exactly the cells of this one
/// piece placement, all of them in bounds.
pub open spec fn placement_is_exact(
    rs: RotationSystem,
    g: Seq<Seq<char>>,
    w: int,
    h: int,
    id: Id,
    ro: Rotation,
    ox: int,
    oy: int,
) -> bool {
    &&& ox >= 0
    &&& oy >= 0
    &&& forall|x: int, y: int|
        0 <= x < w && 0 <= y < h ==> ((#[trigger] g[y][x]) == '@' <==> crate::block::spec_cells(
            rs,
            id,
            ro,
            ox,
            oy,
        ).contains((x, y)))
    &&& forall|i: int|
        0 <= i < crate::block::spec_cells(rs, id, ro, ox, oy).len() ==> {
            let c = #[trigger] crate::block::spec_cells(rs, id, ro, ox, oy)[i];
            0 <= c.0 < w && 0 <= c.1 < h
        }
}

/// The picture holds a single block: its `'@'` cells form exactly one
/// piece placement.
pub open spec fn single_block_picture(rs: RotationSystem, g: Seq<Seq<char>>, w: int, h: int) -> bool {
    exists|id: Id, ro: Rotation, ox: int, oy: int|
        id != Id::Empty && #[trigger] placement_is_exact(rs, g, w, h, id, ro, ox, oy)
}


/// If the scan stands on an unconsumed `'@'` cell at which no piece
/// placement fits, the picture cannot be a legal single-block picture:
/// with no block matched yet the single block's own placement would
/// fit at its first scanned cell, and with a block already matched all
/// `'@'` cells would have been consumed.
proof fn lemma_unmatched_is_no_single_block(
    sc: Schema,
    rs: RotationSystem,
    work: Seq<Seq<char>>,
    blk: Option<Block>,
    x: int,
    y: int,
)
    requires
        sc.wf(),
        0 <= x < sc.width,
        0 <= y < sc.height,
        work.len() == sc.height,
        forall|j: int| 0 <= j < sc.height ==> (#[trigger] work[j]).len() == sc.width,
        forall|cx: int, cy: int|
            0 <= cx < sc.width && 0 <= cy < sc.height ==> #[trigger] work[cy][cx]
                == sc.grid()[cy][cx] || (sc.grid()[cy][cx] == '@' && work[cy][cx] == ' '),
        forall|id2: Id, ro2: Rotation|
            id2 != Id::Empty ==> !(#[trigger] match_fits(
                rs,
                work,
                sc.width as int,
                sc.height as int,
                id2,
                ro2,
                x,
                y,
            )),
        work[y][x] == '@',
        blk is None ==> work == sc.grid(),
        blk is None ==> forall|cx: int, cy: int|
            0 <= cx < sc.width && 0 <= cy < sc.height && raster_before(cx, cy, x, y) ==> (
            #[trigger] sc.grid()[cy][cx]) != '@',
        blk matches Some(b) ==> b.wf() && b.rs == rs && (forall|i: int|
            0 <= i < b.cells().len() ==> {
                let cc = #[trigger] b.cells()[i];
                &&& 0 <= cc.0 < sc.width
                &&& 0 <= cc.1 < sc.height
                &&& sc.grid()[cc.1][cc.0] == '@'
                &&& work[cc.1][cc.0] == ' '
            }),
    ensures
        !(legal_chars(sc.grid(), sc.width as int, sc.height as int) && single_block_picture(
            rs,
            sc.grid(),
            sc.width as int,
            sc.height as int,
        )),
{
    let w = sc.width as int;
    let h = sc.height as int;
    if legal_chars(sc.grid(), w, h) && single_block_picture(rs, sc.grid(), w, h) {
        let (id0, ro0, ox0, oy0) = choose|id0: Id, ro0: Rotation, ox0: int, oy0: int|
            id0 != Id::Empty && #[trigger] placement_is_exact(
                rs,
                sc.grid(),
                w,
                h,
                id0,
                ro0,
                ox0,
                oy0,
            );
        let pcells = crate::block::spec_cells(rs, id0, ro0, ox0, oy0);
        rs.lemma_offsets_wf(id0, ro0);
        rs.lemma_minp_spec(id0, ro0);
        match blk {
            Option::None => {
                let xo = rs.minp_spec(id0, ro0).0 as int;
                let yo = rs.minp_spec(id0, ro0).1 as int;
                let offs = rs.offsets_spec(id0, ro0);
                let j0 = choose|j: int| 0 <= j < offs.len() && offs[j] == rs.minp_spec(id0, ro0);
                let m = (ox0 + xo, oy0 + yo);
                assert(pcells[j0] == m);
                assert(pcells.contains(m));
                assert(0 <= m.0 < w && 0 <= m.1 < h);
                assert(sc.grid()[m.1][m.0] == '@');
                assert(!raster_before(m.0, m.1, x, y));
                assert(sc.grid()[y][x] == '@');
                assert(pcells.contains((x, y)));
                let jx = choose|j: int| 0 <= j < pcells.len() && pcells[j] == (x, y);
                assert(pcells[jx] == (ox0 + offs[jx].0, oy0 + offs[jx].1));
                assert(crate::rotation_system::row_major_le(
                    rs.minp_spec(id0, ro0),
                    offs[jx],
                ));
                assert(m.0 == x && m.1 == y);
                assert(match_fits(rs, work, w, h, id0, ro0, x, y)) by {
                    assert(x >= xo && y >= yo);
                    assert forall|j: int| 0 <= j < offs.len() implies {
                        let cx = x - xo + (#[trigger] offs[j]).0;
                        let cy = y - yo + offs[j].1;
                        &&& 0 <= cx < w
                        &&& 0 <= cy < h
                        &&& work[cy][cx] == '@'
                    } by {
                        assert(pcells[j] == (ox0 + offs[j].0, oy0 + offs[j].1));
                        assert(pcells.contains(pcells[j]));
                        assert(sc.grid()[pcells[j].1][pcells[j].0] == '@');
                    }
                }
                assert(false);
            },
            Some(b) => {
                broadcast use vstd::seq_lib::seq_to_set_is_finite;

                rs.lemma_offsets_wf(b.id, b.r);
                assert(b.cells().no_duplicates()) by {
                    assert forall|i: int, j: int|
                        0 <= i < b.cells().len() && 0 <= j < b.cells().len() && i != j implies b
                        .cells()[i] != b.cells()[j] by {
                        let oi = rs.offsets_spec(b.id, b.r)[i];
                        let oj = rs.offsets_spec(b.id, b.r)[j];
                        assert(b.cells()[i] == (b.x + oi.0, b.y + oi.1));
                        assert(b.cells()[j] == (b.x + oj.0, b.y + oj.1));
                        if b.cells()[i] == b.cells()[j] {
                            assert(oi.0 == oj.0 && oi.1 == oj.1);
                            assert(oi == oj);
                            assert(false);
                        }
                    }
                }
                assert(pcells.no_duplicates()) by {
                    assert forall|i: int, j: int|
                        0 <= i < pcells.len() && 0 <= j < pcells.len() && i != j implies pcells[i]
                        != pcells[j] by {
                        let oi = rs.offsets_spec(id0, ro0)[i];
                        let oj = rs.offsets_spec(id0, ro0)[j];
                        assert(pcells[i] == (ox0 + oi.0, oy0 + oi.1));
                        assert(pcells[j] == (ox0 + oj.0, oy0 + oj.1));
                        if pcells[i] == pcells[j] {
                            assert(oi.0 == oj.0 && oi.1 == oj.1);
                            assert(oi == oj);
                            assert(false);
                        }
                    }
                }
                b.cells().unique_seq_to_set();
                pcells.unique_seq_to_set();
                let s1 = b.cells().to_set();
                let s2 = pcells.to_set();
                assert(s1.len() == 4 && s2.len() == 4);
                assert(s1.subset_of(s2)) by {
                    assert forall|cc: (int, int)| s1.contains(cc) implies s2.contains(cc) by {
                        let i = choose|i: int| 0 <= i < b.cells().len() && b.cells()[i] == cc;
                        assert(sc.grid()[cc.1][cc.0] == '@');
                        assert(pcells.contains(cc));
                    }
                }
                assert forall|cc: (int, int)| s2.contains(cc) implies s1.contains(cc) by {
                    if !s1.contains(cc) {
                        assert(s1.subset_of(s2.remove(cc)));
                        assert(s2.remove(cc).len() == 3);
                        vstd::set_lib::lemma_len_subset(s1, s2.remove(cc));
                        assert(false);
                    }
                }
                assert(sc.grid()[y][x] == '@');
                assert(pcells.contains((x, y)));
                assert(s2.contains((x, y)));
                assert(s1.contains((x, y)));
                let ib = choose|i: int| 0 <= i < b.cells().len() && b.cells()[i] == (x, y);
                assert(work[y][x] == ' ');
                assert(false);
            },
        }
    }
}

/// Find which piece the `'@'` group starting at `(x, y)` belongs to.
///
/// Every `(Id, Rotation)` pair is tried in order; for each, the anchor
/// is placed so that the pair's first scanned cell lands on `(x, y)`,
/// and the pair is accepted if all four of its cells are unconsumed
/// block cells.  The accepted cells are consumed.  Ambiguous pictures
/// thus always yield the lowest matching rotation.
fn match_block(
    work: &mut Vec<Vec<char>>,
    field: &Field,
    rotation_system: RotationSystem,
    x: usize,
    y: usize,
) -> (r: Result<Block, Error>)
    requires
        field.wf(),
        grid_of_rows(*old(work)).len() == field.height,
        forall|j: int|
            0 <= j < field.height ==> (#[trigger] grid_of_rows(*old(work))[j]).len()
                == field.width,
        x < field.width,
        y < field.height,
    ensures
        grid_of_rows(*final(work)).len() == field.height,
        forall|j: int|
            0 <= j < field.height ==> (#[trigger] grid_of_rows(*final(work))[j]).len()
                == field.width,
        r matches Err(e) ==> *final(work) == *old(work) && e == Error::UnmatchedBlock && (forall|
            id: Id,
            ro: Rotation,
        |
            id != Id::Empty ==> !(#[trigger] match_fits(
                rotation_system,
                grid_of_rows(*old(work)),
                field.width as int,
                field.height as int,
                id,
                ro,
                x as int,
                y as int,
            ))),
        r matches Ok(b) ==> {
            &&& b.wf()
            &&& b.rs == rotation_system
            &&& b.cells().len() == 4
            &&& forall|i: int|
                0 <= i < b.cells().len() ==> {
                    let c = #[trigger] b.cells()[i];
                    &&& 0 <= c.0 < field.width
                    &&& 0 <= c.1 < field.height
                    &&& grid_of_rows(*old(work))[c.1][c.0] == '@'
                }
            &&& forall|cx: int, cy: int|
                0 <= cx < field.width && 0 <= cy < field.height ==> #[trigger] grid_of_rows(
                    *final(work),
                )[cy][cx] == (if b.cells().contains((cx, cy)) {
                    ' '
                } else {
                    grid_of_rows(*old(work))[cy][cx]
                })
        },
{
    let ids = Id::variants();
    let rots = Rotation::variants();
    let mut iv: usize = 0;
    while iv < 7
        invariant
            *work == *old(work),
            field.wf(),
            grid_of_rows(*work).len() == field.height,
            forall|j: int|
                0 <= j < field.height ==> (#[trigger] grid_of_rows(*work)[j]).len()
                    == field.width,
            x < field.width,
            y < field.height,
            ids@ == Id::variants_spec(),
            rots@ == seq![Rotation::R0, Rotation::R90, Rotation::R180, Rotation::R270],
            iv <= 7,
            forall|id2: Id, ro2: Rotation|
                id2 != Id::Empty && id2.index_spec() < iv ==> !(#[trigger] match_fits(
                    rotation_system,
                    grid_of_rows(*work),
                    field.width as int,
                    field.height as int,
                    id2,
                    ro2,
                    x as int,
                    y as int,
                )),
        decreases 7 - iv,
    {
        let mut rv: usize = 0;
        while rv < 4
            invariant
                *work == *old(work),
                field.wf(),
                grid_of_rows(*work).len() == field.height,
                forall|j: int|
                    0 <= j < field.height ==> (#[trigger] grid_of_rows(*work)[j]).len()
                        == field.width,
                x < field.width,
                y < field.height,
                ids@ == Id::variants_spec(),
                rots@ == seq![Rotation::R0, Rotation::R90, Rotation::R180, Rotation::R270],
                iv < 7,
                rv <= 4,
                forall|id2: Id, ro2: Rotation|
                    id2 != Id::Empty && (id2.index_spec() < iv || (id2.index_spec() == iv
                        && ro2.index_spec() < rv)) ==> !(#[trigger] match_fits(
                        rotation_system,
                        grid_of_rows(*work),
                        field.width as int,
                        field.height as int,
                        id2,
                        ro2,
                        x as int,
                        y as int,
                    )),
            decreases 4 - rv,
        {
            let id = ids[iv];
            let ro = rots[rv];
            proof {
                crate::randomizer::lemma_variants_real(iv as int);
            }
            let d = rotation_system.data(id, ro);
            let (xo, yo) = rotation_system.minp(id, ro);
            if x as u64 >= xo as u64 && y as u64 >= yo as u64 {
                let ox: usize = x - (xo as usize);
                let oy: usize = y - (yo as usize);
                let mut all_fit = true;
                let mut i: usize = 0;
                while i < 4
                    invariant
                        *work == *old(work),
                        field.wf(),
                        grid_of_rows(*work).len() == field.height,
                        forall|j: int|
                            0 <= j < field.height ==> (#[trigger] grid_of_rows(*work)[j]).len()
                                == field.width,
                        d@ == rotation_system.offsets_spec(id, ro),
                        i <= 4,
                        ox <= x && oy <= y,
                        x < field.width && y < field.height,
                        id != Id::Empty,
                        all_fit == (forall|j: int|
                            0 <= j < i ==> {
                                let c = (ox + (#[trigger] d@[j]).0, oy + d@[j].1);
                                &&& c.0 < field.width
                                &&& c.1 < field.height
                                &&& grid_of_rows(*work)[c.1 as int][c.0 as int] == '@'
                            }),
                    decreases 4 - i,
                {
                    let (a, b) = d[i];
                    let cx: i64 = ox as i64 + a as i64;
                    let cy: i64 = oy as i64 + b as i64;
                    let ok = is_block_cell(work, field.width, field.height, cx, cy);
                    all_fit = all_fit && ok;
                    i += 1;
                }
                if all_fit {
                    let blk = Block {
                        id,
                        x: ox as i32,
                        y: oy as i32,
                        r: ro,
                        rs: rotation_system,
                    };
                    proof {
                        rotation_system.lemma_offsets_wf(id, ro);
                        assert forall|i2: int| 0 <= i2 < blk.cells().len() implies {
                            let c = #[trigger] blk.cells()[i2];
                            &&& 0 <= c.0 < field.width
                            &&& 0 <= c.1 < field.height
                            &&& grid_of_rows(*work)[c.1][c.0] == '@'
                        } by {
                            assert(blk.cells()[i2] == (
                                ox + rotation_system.offsets_spec(id, ro)[i2].0,
                                oy + rotation_system.offsets_spec(id, ro)[i2].1,
                            ));
                        }
                    }
                    let ghost prework = grid_of_rows(*work);
                    let mut i: usize = 0;
                    while i < 4
                        invariant
                            field.wf(),
                            grid_of_rows(*work).len() == field.height,
                            forall|j: int|
                                0 <= j < field.height ==> (#[trigger] grid_of_rows(
                                    *work,
                                )[j]).len() == field.width,
                            d@ == rotation_system.offsets_spec(id, ro),
                            i <= 4,
                            blk.id == id && blk.r == ro && blk.rs == rotation_system,
                            blk.x == ox as i32 && blk.y == oy as i32,
                            ox < field.width && oy < field.height,
                            id != Id::Empty,
                            blk.cells().len() == 4,
                            forall|i2: int|
                                0 <= i2 < blk.cells().len() ==> {
                                    let c = #[trigger] blk.cells()[i2];
                                    &&& 0 <= c.0 < field.width
                                    &&& 0 <= c.1 < field.height
                                    &&& prework[c.1][c.0] == '@'
                                },
                            forall|cx: int, cy: int|
                                0 <= cx < field.width && 0 <= cy < field.height
                                    ==> #[trigger] grid_of_rows(*work)[cy][cx] == (
                                if exists|j: int| 0 <= j < i && blk.cells()[j] == (cx, cy) {
                                    ' '
                                } else {
                                    prework[cy][cx]
                                }),
                        decreases 4 - i,
                    {
                        let (a, b) = d[i];
                        proof {
                            assert(blk.cells()[i as int] == (ox + a, oy + b));
                        }
                        let cx: usize = ox + (a as usize);
                        let cy: usize = oy + (b as usize);
                        proof {
                            assert(blk.cells()[i as int] == (cx as int, cy as int));
                        }
                        let ghost prestep = grid_of_rows(*work);
                        proof {
                            assert(prestep[cy as int] == work@[cy as int]@);
                        }
                        let wrow = &mut work[cy];
                        wrow.set(cx, ' ');
                        proof {
                            assert(grid_of_rows(*work) =~= prestep.update(
                                cy as int,
                                prestep[cy as int].update(cx as int, ' '),
                            ));
                            assert forall|ax: int, ay: int|
                                0 <= ax < field.width && 0 <= ay < field.height
                                    implies #[trigger] grid_of_rows(*work)[ay][ax] == (
                            if exists|j: int| 0 <= j < i + 1 && blk.cells()[j] == (ax, ay) {
                                ' '
                            } else {
                                prework[ay][ax]
                            }) by {
                                if ax == cx as int && ay == cy as int {
                                    assert(blk.cells()[i as int] == (ax, ay));
                                    assert(exists|j: int|
                                        0 <= j < i + 1 && blk.cells()[j] == (ax, ay));
                                } else {
                                    if exists|j: int| 0 <= j < i + 1 && blk.cells()[j] == (
                                        ax,
                                        ay,
                                    ) {
                                        let j = choose|j: int|
                                            0 <= j < i + 1 && blk.cells()[j] == (ax, ay);
                                        assert(j != i);
                                        assert(exists|j2: int|
                                            0 <= j2 < i && blk.cells()[j2] == (ax, ay));
                                    }
                                }
                            }
                        }
                        i += 1;
                    }
                    proof {
                        assert forall|ax: int, ay: int|
                            0 <= ax < field.width && 0 <= ay < field.height
                                implies #[trigger] grid_of_rows(*work)[ay][ax] == (
                        if blk.cells().contains((ax, ay)) {
                            ' '
                        } else {
                            prework[ay][ax]
                        }) by {
                            if blk.cells().contains((ax, ay)) {
                                let j = choose|j: int|
                                    0 <= j < blk.cells().len() && blk.cells()[j] == (ax, ay);
                                assert(exists|j2: int|
                                    0 <= j2 < 4 && blk.cells()[j2] == (ax, ay));
                            }
                        }
                    }
                    return Ok(blk);
                }
                proof {
                    assert(!match_fits(
                        rotation_system,
                        grid_of_rows(*work),
                        field.width as int,
                        field.height as int,
                        id,
                        ro,
                        x as int,
                        y as int,
                    )) by {
                        if match_fits(
                            rotation_system,
                            grid_of_rows(*work),
                            field.width as int,
                            field.height as int,
                            id,
                            ro,
                            x as int,
                            y as int,
                        ) {
                            assert forall|j: int| 0 <= j < 4 implies {
                                let c = (ox + (#[trigger] d@[j]).0, oy + d@[j].1);
                                &&& c.0 < field.width
                                &&& c.1 < field.height
                                &&& grid_of_rows(*work)[c.1 as int][c.0 as int] == '@'
                            } by {
                                assert(rotation_system.offsets_spec(id, ro)[j] == d@[j]);
                            }
                            assert(all_fit);
                        }
                    }
                }
            } else {
                proof {
                    assert(!match_fits(
                        rotation_system,
                        grid_of_rows(*work),
                        field.width as int,
                        field.height as int,
                        id,
                        ro,
                        x as int,
                        y as int,
                    ));
                }
            }
            proof {
                crate::block::lemma_variants_index();
                assert forall|id2: Id, ro2: Rotation|
                    id2 != Id::Empty && (id2.index_spec() < iv || (id2.index_spec() == iv
                        && ro2.index_spec() < rv + 1)) implies !(#[trigger] match_fits(
                    rotation_system,
                    grid_of_rows(*work),
                    field.width as int,
                    field.height as int,
                    id2,
                    ro2,
                    x as int,
                    y as int,
                )) by {
                    if id2.index_spec() == iv && ro2.index_spec() == rv {
                        assert(id2 == Id::variants_spec()[iv as int]);
                        assert(id2 == id);
                        assert(ro2 == ro) by {
                            if ro2 == Rotation::R0 {
                                assert(rots@[0] == Rotation::R0);
                            } else if ro2 == Rotation::R90 {
                                assert(rots@[1] == Rotation::R90);
                            } else if ro2 == Rotation::R180 {
                                assert(rots@[2] == Rotation::R180);
                            } else {
                                assert(rots@[3] == Rotation::R270);
                            }
                        }
                    }
                }
            }
            rv += 1;
        }
        proof {
            assert forall|id2: Id, ro2: Rotation|
                id2 != Id::Empty && id2.index_spec() < iv + 1 implies !(#[trigger] match_fits(
                rotation_system,
                grid_of_rows(*work),
                field.width as int,
                field.height as int,
                id2,
                ro2,
                x as int,
                y as int,
            )) by {
                assert(ro2.index_spec() < 4);
            }
        }
        iv += 1;
    }
    proof {
        assert forall|id2: Id, ro2: Rotation| id2 != Id::Empty implies !(#[trigger] match_fits(
            rotation_system,
            grid_of_rows(*work),
            field.width as int,
            field.height as int,
            id2,
            ro2,
            x as int,
            y as int,
        )) by {
            assert(id2.index_spec() < 7);
        }
    }
    Err(Error::UnmatchedBlock)
}

/// Law: rendering a parsed single-block picture reproduces it exactly.
///
/// If a well-formed picture parses to a state `(f, b)` — the field
/// holding exactly its `'#'` cells, the block standing on `'@'` cells,
/// and, the picture holding a single block, every `'@'` cell belonging
/// to the block — then rendering `(f, b)` yields the same picture, so
/// parsing the rendering gives the same state again.
pub proof fn lemma_schema_round_trip(sc: Schema, f: Field, b: Block, sc2: Schema)
    requires
        sc.wf(),
        f.wf(),
        b.wf(),
        f.width == sc.width,
        f.height == sc.height,
        forall|x: int, y: int|
            0 <= x < sc.width && 0 <= y < sc.height ==> f.cell(x, y) == (
            if sc.grid()[y][x] == '#' {
                Id::I
            } else {
                Id::Empty
            }),
        forall|x: int, y: int|
            0 <= x < sc.width && 0 <= y < sc.height ==> (#[trigger] sc.grid()[y][x]) == ' '
                || sc.grid()[y][x] == '#' || sc.grid()[y][x] == '@',
        forall|i: int|
            0 <= i < b.cells().len() ==> {
                let c = #[trigger] b.cells()[i];
                &&& 0 <= c.0 < sc.width
                &&& 0 <= c.1 < sc.height
                &&& sc.grid()[c.1][c.0] == '@'
            },
        forall|x: int, y: int|
            0 <= x < sc.width && 0 <= y < sc.height && (#[trigger] sc.grid()[y][x]) == '@'
                ==> b.cells().contains((x, y)),
        sc2.wf(),
        sc2.width == f.width,
        sc2.height == f.height,
        forall|x: int, y: int|
            0 <= x < f.width && 0 <= y < f.height ==> (#[trigger] sc2.grid()[y][x]) == render_char(
                f,
                b,
                x,
                y,
            ),
    ensures
        sc2.grid() == sc.grid(),
{
    assert forall|y: int| 0 <= y < sc.height implies #[trigger] sc2.grid()[y] == sc.grid()[y] by {
        assert forall|x: int| 0 <= x < sc.width implies #[trigger] sc2.grid()[y][x]
            == sc.grid()[y][x] by {
            let c = sc.grid()[y][x];
            if c == '#' {
                assert(f.cell(x, y) == Id::I);
                assert(f.occupied(x, y));
            } else if c == '@' {
                assert(b.cells().contains((x, y)));
                assert(f.cell(x, y) == Id::Empty);
            } else {
                assert(c == ' ');
                assert(f.cell(x, y) == Id::Empty);
                if b.cells().contains((x, y)) {
                    let i = choose|i: int|
                        0 <= i < b.cells().len() && b.cells()[i] == (x, y);
                    assert(sc.grid()[y][x] == '@');
                }
            }
        }
        assert(sc2.grid()[y] =~= sc.grid()[y]);
    }
    assert(sc2.grid() =~= sc.grid());
}


/// `n` copies of a character.
pub open spec fn repeat_char(c: char, n: int) -> Seq<char>
    decreases n,
{
    if n <= 0 {
        Seq::empty()
    } else {
        repeat_char(c, n - 1).push(c)
    }
}

/// The rows of a picture joined by `|`-framed line breaks.
pub open spec fn join_rows(g: Seq<Seq<char>>) -> Seq<char>
    decreases g.len(),
{
    if g.len() == 0 {
        Seq::empty()
    } else if g.len() == 1 {
        g[0]
    } else {
        g[0] + seq!['|', '\n', '|'] + join_rows(g.drop_first())
    }
}

/// The text a schema renders to: each row framed in `|`, and a bottom
/// border of dashes two wider than the picture.
pub open spec fn schema_text(g: Seq<Seq<char>>, width: int) -> Seq<char> {
    seq!['|'] + join_rows(g) + seq!['|', '\n'] + repeat_char('-', width + 2)
}

/// Relies on `String::push`: appends exactly the one character.
#[verifier::external_body]
fn push_char(s: &mut String, c: char)
    ensures
        final(s)@ == old(s)@ + seq![c],
{
    s.push(c)
}

impl Schema {
    /// Render the picture as a framed multi-line string.
    pub fn to_string(&self) -> (out: String)
        requires
            self.wf(),
        ensures
            out@ == schema_text(self.grid(), self.width as int),
    {
        let mut out = String::new();
        push_char(&mut out, '|');
        let mut y: usize = 0;
        while y < self.data.len()
            invariant
                self.wf(),
                y <= self.height,
                self.data@.len() == self.height,
                out@ =~= seq!['|'] + join_rows(self.grid().take(y as int)) + (
                if 0 < y < self.height {
                    seq!['|', '\n', '|']
                } else {
                    Seq::<char>::empty()
                }),
            decreases self.data@.len() - y,
        {
            proof {
                assert(self.grid()[y as int] == self.data@[y as int]@);
            }
            let row = &self.data[y];
            let mut x: usize = 0;
            let ghost pre = out@;
            while x < row.len()
                invariant
                    row@.len() <= usize::MAX,
                    x <= row@.len(),
                    out@ =~= pre + row@.take(x as int),
                decreases row@.len() - x,
            {
                let c = row[x];
                push_char(&mut out, c);
                proof {
                    assert(row@.take(x as int + 1) =~= row@.take(x as int).push(c));
                }
                x += 1;
            }
            proof {
                assert(row@.take(row@.len() as int) =~= row@);
            }
            proof {
                if y == 0 {
                    lemma_join_rows_last(self.grid());
                } else {
                    lemma_join_rows_step(self.grid(), y as int);
                }
            }
            if y + 1 < self.data.len() {
                push_char(&mut out, '|');
                push_char(&mut out, '\n');
                push_char(&mut out, '|');
            }
            y += 1;
        }
        push_char(&mut out, '|');
        push_char(&mut out, '\n');
        let mut k: usize = 0;
        let ghost pre = out@;
        let dashes = self.width + 2;
        while k < dashes
            invariant
                k <= dashes,
                out@ =~= pre + repeat_char('-', k as int),
            decreases dashes - k,
        {
            push_char(&mut out, '-');
            k += 1;
        }
        proof {
            assert(self.grid().take(self.height as int) =~= self.grid());
            assert(out@ =~= schema_text(self.grid(), self.width as int));
        }
        out
    }
}

/// Joining one more row appends a frame break and the row.
proof fn lemma_join_rows_step(g: Seq<Seq<char>>, k: int)
    requires
        1 <= k < g.len(),
    ensures
        join_rows(g.take(k + 1)) == join_rows(g.take(k)) + seq!['|', '\n', '|'] + g[k],
    decreases k,
{
    if k == 1 {
        assert(g.take(2).drop_first() =~= seq![g[1]]);
        assert(g.take(2)[0] == g[0]);
        assert(g.take(1) =~= seq![g[0]]);
        assert(join_rows(seq![g[1]]) == g[1]);
        assert(join_rows(g.take(2)) == g[0] + seq!['|', '\n', '|'] + g[1]);
        assert(join_rows(g.take(1)) == g[0]);
    } else {
        lemma_join_rows_step(g.drop_first(), k - 1);
        assert(g.take(k + 1).drop_first() =~= g.drop_first().take(k));
        assert(g.take(k).drop_first() =~= g.drop_first().take(k - 1));
        assert(g.drop_first().take(k)[k - 1] == g[k]);
        assert(join_rows(g.take(k + 1)) == g[0] + seq!['|', '\n', '|'] + join_rows(
            g.drop_first().take(k),
        ));
        assert(join_rows(g.take(k)) == g[0] + seq!['|', '\n', '|'] + join_rows(
            g.drop_first().take(k - 1),
        ));
        assert((g[0] + seq!['|', '\n', '|'] + (join_rows(g.drop_first().take(k - 1)) + seq![
            '|',
            '\n',
            '|',
        ] + g.drop_first().take(k)[k - 1])) =~= (g[0] + seq!['|', '\n', '|'] + join_rows(
            g.drop_first().take(k - 1),
        )) + seq!['|', '\n', '|'] + g[k]);
    }
}

/// A single-row picture joins to that row.
proof fn lemma_join_rows_last(g: Seq<Seq<char>>)
    requires
        g.len() >= 1,
    ensures
        join_rows(g.take(1)) == g[0],
        g.len() == 1 ==> join_rows(g.take(g.len() as int)) == g[0],
{
    assert(g.take(1) =~= seq![g[0]]);
    if g.len() == 1 {
        assert(g.take(g.len() as int) =~= seq![g[0]]);
    }
}

impl PartialEq for Schema {
    /// Two schemas are equal when their widths match and, after
    /// stripping leading fully-blank rows from both, their row
    /// sequences match.
    fn eq(&self, other: &Schema) -> (r: bool) {
        if self.width != other.width {
            return false;
        }
        let a = first_nonblank_row(&self.data);
        let b = first_nonblank_row(&other.data);
        proof {
            lemma_strip_leading(grid_of_rows(self.data), a as int);
            lemma_strip_leading(grid_of_rows(other.data), b as int);
        }
        if self.data.len() - a != other.data.len() - b {
            proof {
                assert(strip_leading_blank(grid_of_rows(self.data)).len() != strip_leading_blank(
                    grid_of_rows(other.data),
                ).len());
            }
            return false;
        }
        let n = self.data.len() - a;
        let mut i: usize = 0;
        while i < n
            invariant
                i <= n,
                a + n == self.data@.len(),
                b + n == other.data@.len(),
                self.data@.len() <= usize::MAX,
                other.data@.len() <= usize::MAX,
                strip_leading_blank(grid_of_rows(self.data)) == grid_of_rows(self.data).skip(
                    a as int,
                ),
                strip_leading_blank(grid_of_rows(other.data)) == grid_of_rows(other.data).skip(
                    b as int,
                ),
                forall|j: int|
                    0 <= j < i ==> #[trigger] grid_of_rows(self.data)[a + j] == grid_of_rows(
                        other.data,
                    )[b + j],
            decreases n - i,
        {
            proof {
                assert(a + i < self.data@.len());
                assert(b + i < other.data@.len());
                assert(grid_of_rows(self.data)[a + i] == self.data@[a + i]@);
                assert(grid_of_rows(other.data)[b + i] == other.data@[b + i]@);
            }
            if !char_rows_equal(&self.data[a + i], &other.data[b + i]) {
                proof {
                    assert(grid_of_rows(self.data).skip(a as int)[i as int] != grid_of_rows(
                        other.data,
                    ).skip(b as int)[i as int]);
                }
                return false;
            }
            i += 1;
        }
        proof {
            assert forall|j: int|
                0 <= j < n implies grid_of_rows(self.data).skip(a as int)[j] == grid_of_rows(
                other.data,
            ).skip(b as int)[j] by {
                assert(grid_of_rows(self.data)[a + j] == grid_of_rows(other.data)[b + j]);
            }
            assert(grid_of_rows(self.data).skip(a as int) =~= grid_of_rows(other.data).skip(
                b as int,
            ));
        }
        true
    }
}

impl vstd::std_specs::cmp::PartialEqSpecImpl for Schema {
    open spec fn obeys_eq_spec() -> bool {
        true
    }

    open spec fn eq_spec(&self, other: &Schema) -> bool {
        self.width == other.width && strip_leading_blank(self.grid()) == strip_leading_blank(
            other.grid(),
        )
    }
}

/// The index of the first row that is not fully blank (or the row
/// count, when all rows are blank).
fn first_nonblank_row(data: &Vec<Vec<char>>) -> (a: usize)
    ensures
        a <= data@.len(),
        forall|j: int| 0 <= j < a ==> blank_row(#[trigger] grid_of_rows(*data)[j]),
        a < data@.len() ==> !blank_row(grid_of_rows(*data)[a as int]),
{
    let mut a: usize = 0;
    while a < data.len() && row_is_blank(&data[a])
        invariant
            a <= data@.len(),
            forall|j: int| 0 <= j < a ==> blank_row(#[trigger] grid_of_rows(*data)[j]),
        decreases data@.len() - a,
    {
        a += 1;
    }
    a
}

/// Is every character of this row a space?
fn row_is_blank(row: &Vec<char>) -> (r: bool)
    ensures
        r == blank_row(row@),
{
    let mut x: usize = 0;
    let mut all = true;
    while x < row.len()
        invariant
            x <= row@.len(),
            all == forall|j: int| 0 <= j < x ==> row@[j] == ' ',
        decreases row@.len() - x,
    {
        if row[x] != ' ' {
            all = false;
        }
        x += 1;
    }
    all
}

/// Are two rows of characters identical?
fn char_rows_equal(a: &Vec<char>, b: &Vec<char>) -> (r: bool)
    ensures
        r == (a@ == b@),
{
    if a.len() != b.len() {
        proof {
            assert(a@ != b@);
        }
        return false;
    }
    let mut x: usize = 0;
    while x < a.len()
        invariant
            a@.len() == b@.len(),
            x <= a@.len(),
            forall|j: int| 0 <= j < x ==> a@[j] == b@[j],
        decreases a@.len() - x,
    {
        if a[x] != b[x] {
            return false;
        }
        x += 1;
    }
    proof {
        assert(a@ =~= b@);
    }
    true
}

/// Stripping leading blank rows reaches the first non-blank row.
proof fn lemma_strip_leading(g: Seq<Seq<char>>, a: int)
    requires
        0 <= a <= g.len(),
        forall|j: int| 0 <= j < a ==> blank_row(#[trigger] g[j]),
        a < g.len() ==> !blank_row(g[a]),
    ensures
        strip_leading_blank(g) == g.skip(a),
    decreases a,
{
    if a == 0 {
        if g.len() > 0 && blank_row(g[0]) {
            assert(false);
        }
        assert(g.skip(0) =~= g);
    } else {
        assert(blank_row(g[0]));
        assert(g.drop_first() =~= g.skip(1));
        lemma_strip_leading(g.skip(1), a - 1);
        assert(g.skip(1).skip(a - 1) =~= g.skip(a));
    }
}

} // verus!
