//! Wallkick tests: the ordered offset lists tried on rotation failure.
//!
//! A wallkick is a pure function of the block, the field and the
//! requested turn; the engine tries its offsets in sequence through
//! `rotate_at_offset` and the first success wins.

use vstd::prelude::*;

use crate::block::{Block, Id, Rotation};
use crate::field::Field;
use crate::Error;

verus! {

/// A named wallkick policy.
#[derive(Clone, Copy, Debug, Hash, PartialEq, Eq, Structural)]
pub enum Wallkick {
    /// Only the trivial offset `(0, 0)`.
    Empty,
    /// The trivial offset, then one cell right, then one cell left.
    Simple,
    /// The symmetric DTET offsets.
    Dtet,
    /// The canonical SRS two-table search.
    Srs,
    /// The TGM rule: simple kicks, suppressed for I and for blocked
    /// three-wide L/J/T orientations.
    Tgm,
    /// The TGM3 rule: TGM plus I floorkicks and the T groove kick.
    Tgm3,
}

/// The SRS kick table for J, L, S, T and Z on a clockwise turn, indexed
/// by the current rotation state.  The y axis grows downward.
pub open spec fn srs_right_jlstz(r: Rotation) -> Seq<(i32, i32)> {
    match r {
        Rotation::R0 => seq![(0i32, 0i32), (-1i32, 0i32), (-1i32, -1i32), (0i32, 2i32), (-1i32, 2i32)],
        Rotation::R90 => seq![(0i32, 0i32), (1i32, 0i32), (1i32, 1i32), (0i32, -2i32), (1i32, -2i32)],
        Rotation::R180 => seq![(0i32, 0i32), (1i32, 0i32), (1i32, -1i32), (0i32, 2i32), (1i32, 2i32)],
        Rotation::R270 => seq![(0i32, 0i32), (-1i32, 0i32), (-1i32, 1i32), (0i32, -2i32), (-1i32, -2i32)],
    }
}

/// The SRS kick table for J, L, S, T and Z on an anticlockwise turn.
pub open spec fn srs_left_jlstz(r: Rotation) -> Seq<(i32, i32)> {
    match r {
        Rotation::R0 => seq![(0i32, 0i32), (1i32, 0i32), (1i32, -1i32), (0i32, 2i32), (1i32, 2i32)],
        Rotation::R90 => seq![(0i32, 0i32), (1i32, 0i32), (1i32, 1i32), (0i32, -2i32), (1i32, -2i32)],
        Rotation::R180 => seq![(0i32, 0i32), (-1i32, 0i32), (-1i32, -1i32), (0i32, 2i32), (-1i32, 2i32)],
        Rotation::R270 => seq![(0i32, 0i32), (-1i32, 0i32), (-1i32, 1i32), (0i32, -2i32), (-1i32, -2i32)],
    }
}

/// The SRS kick table for I on a clockwise turn.
pub open spec fn srs_right_i(r: Rotation) -> Seq<(i32, i32)> {
    match r {
        Rotation::R0 => seq![(0i32, 0i32), (-2i32, 0i32), (1i32, 0i32), (-2i32, 1i32), (1i32, -2i32)],
        Rotation::R90 => seq![(0i32, 0i32), (-1i32, 0i32), (2i32, 0i32), (-1i32, -2i32), (2i32, 1i32)],
        Rotation::R180 => seq![(0i32, 0i32), (2i32, 0i32), (-1i32, 0i32), (2i32, -1i32), (-1i32, 2i32)],
        Rotation::R270 => seq![(0i32, 0i32), (1i32, 0i32), (-2i32, 0i32), (1i32, 2i32), (-2i32, -1i32)],
    }
}

/// The SRS kick table for I on an anticlockwise turn.
pub open spec fn srs_left_i(r: Rotation) -> Seq<(i32, i32)> {
    match r {
        Rotation::R0 => seq![(0i32, 0i32), (-1i32, 0i32), (2i32, 0i32), (-1i32, -2i32), (2i32, 1i32)],
        Rotation::R90 => seq![(0i32, 0i32), (2i32, 0i32), (-1i32, 0i32), (2i32, -1i32), (-1i32, 2i32)],
        Rotation::R180 => seq![(0i32, 0i32), (1i32, 0i32), (-2i32, 0i32), (1i32, 2i32), (-2i32, -1i32)],
        Rotation::R270 => seq![(0i32, 0i32), (-2i32, 0i32), (1i32, 0i32), (-2i32, 1i32), (1i32, -2i32)],
    }
}

/// The SRS kick sequence for a block: the O piece never kicks; the I
/// piece and the others each use their table for the turn direction.
pub open spec fn srs_kicks(b: Block, r: Rotation) -> Seq<(i32, i32)> {
    if b.id == Id::O {
        seq![(0i32, 0i32)]
    } else if r == Rotation::R90 {
        if b.id == Id::I {
            srs_right_i(b.r)
        } else {
            srs_right_jlstz(b.r)
        }
    } else {
        if b.id == Id::I {
            srs_left_i(b.r)
        } else {
            srs_left_jlstz(b.r)
        }
    }
}

/// The DTET kick sequence for a turn direction.
pub open spec fn dtet_kicks(r: Rotation) -> Seq<(i32, i32)> {
    match r {
        Rotation::R90 => seq![
            (0i32, 0i32),
            (1i32, 0i32),
            (-1i32, 0i32),
            (1i32, 0i32),
            (1i32, 1i32),
            (-1i32, 1i32),
        ],
        Rotation::R270 => seq![
            (0i32, 0i32),
            (-1i32, 0i32),
            (1i32, 0i32),
            (1i32, 0i32),
            (-1i32, 1i32),
            (1i32, 1i32),
        ],
        _ => seq![(0i32, 0i32)],
    }
}

/// The TGM suppression rule for three-wide L, J and T orientations: the
/// kick is withheld when the middle column of the piece's bounding
/// triple is blocked, with separate cell patterns for the flat-side and
/// non-flat-side orientations of L and J.
pub open spec fn tgm_wide3_suppressed(b: Block, f: Field) -> bool {
    let txo = b.rs.max_spec(b.id, b.r).0;
    let lxo = b.rs.min_spec(b.id, b.r).0;
    let lyo = b.rs.min_spec(b.id, b.r).1;
    let pxo = b.rs.minp_spec(b.id, b.r).0;
    let pyo = b.rs.minp_spec(b.id, b.r).1;
    let apx = b.x + pxo;
    let apy = b.y + pyo;
    let mx = b.x + lxo + 1;
    let od = b.rs.offsets_spec(b.id, b.r);
    &&& (b.id == Id::L || b.id == Id::J || b.id == Id::T)
    &&& txo - lxo == 2
    &&& if b.id == Id::T {
        f.occupied(mx, b.y + lyo - 1)
    } else if b.id == Id::L {
        if od.contains(((pxo + 1) as u32, pyo)) {
            !(f.occupied(apx + 1, apy + 1) && f.occupied(apx + 2, apy - 1)) && (f.occupied(
                mx,
                apy + 1,
            ) || f.occupied(mx, apy - 1))
        } else {
            !(f.occupied(apx + 1, apy) && f.occupied(apx + 2, apy - 1)) && (f.occupied(mx, apy)
                || f.occupied(mx, apy - 1))
        }
    } else {
        if od.contains(((pxo + 1) as u32, pyo)) {
            !(f.occupied(apx, apy - 1) && f.occupied(apx + 1, apy + 1)) && (f.occupied(
                mx,
                apy - 1,
            ) || f.occupied(mx, apy + 1))
        } else {
            !(f.occupied(apx - 1, apy) && f.occupied(apx - 2, apy - 1)) && (f.occupied(mx, apy)
                || f.occupied(mx, apy - 1))
        }
    }
}

/// The TGM kick sequence: no kick for I, none for a suppressed
/// three-wide orientation, none for the identity turn, else the simple
/// right-then-left search.
pub open spec fn tgm_kicks(b: Block, f: Field, r: Rotation) -> Seq<(i32, i32)> {
    if b.id == Id::I {
        seq![(0i32, 0i32)]
    } else if tgm_wide3_suppressed(b, f) {
        seq![(0i32, 0i32)]
    } else if r == Rotation::R0 {
        seq![(0i32, 0i32)]
    } else {
        seq![(0i32, 0i32), (1i32, 0i32), (-1i32, 0i32)]
    }
}

/// Does any cell of the block have support directly below: a filled
/// field cell, or the floor past the bottom row?
pub open spec fn tgm3_i_grounded(b: Block, f: Field) -> bool {
    exists|i: int|
        0 <= i < b.cells().len() && (f.occupied(
            (#[trigger] b.cells()[i]).0,
            b.cells()[i].1 + 1,
        ) || b.cells()[i].1 + 1 >= f.height)
}

/// The TGM3 kick sequence: I floorkicks when resting on the stack or
/// the floor, the T groove floorkick, and TGM behaviour otherwise.
pub open spec fn tgm3_kicks(b: Block, f: Field, r: Rotation) -> Seq<(i32, i32)> {
    if b.id == Id::I {
        if tgm3_i_grounded(b, f) {
            seq![(0i32, 0i32), (0i32, -1i32), (0i32, -2i32)]
        } else {
            seq![(0i32, 0i32), (1i32, 0i32), (2i32, 0i32), (-1i32, 0i32)]
        }
    } else if b.id == Id::T {
        let pxo = b.rs.minp_spec(b.id, b.r).0;
        let pyo = b.rs.minp_spec(b.id, b.r).1;
        let apx = b.x + pxo;
        let apy = b.y + pyo;
        let ph = b.rs.max_spec(b.id, b.r).0 - b.rs.min_spec(b.id, b.r).0;
        let od = b.rs.offsets_spec(b.id, b.r);
        if !(ph == 1 && od.contains(((pxo + 1) as u32, pyo))) {
            let bx = if ph == 1 {
                apx + 1
            } else {
                apx
            };
            let by = if ph == 1 {
                apy + 1
            } else {
                apy + 2
            };
            if !(by >= f.height || by + 1 >= f.width) {
                if f.occupied(bx - 1, by) && f.occupied(bx + 1, by) {
                    seq![(0i32, 0i32), (0i32, -1i32)]
                } else {
                    seq![(0i32, 0i32)]
                }
            } else {
                tgm_kicks(b, f, r)
            }
        } else {
            tgm_kicks(b, f, r)
        }
    } else {
        tgm_kicks(b, f, r)
    }
}

/// The offset sequence a wallkick policy yields for this block, field
/// and turn.
pub open spec fn kicks_spec(wk: Wallkick, b: Block, f: Field, r: Rotation) -> Seq<(i32, i32)> {
    match wk {
        Wallkick::Empty => seq![(0i32, 0i32)],
        Wallkick::Simple => seq![(0i32, 0i32), (1i32, 0i32), (-1i32, 0i32)],
        Wallkick::Dtet => dtet_kicks(r),
        Wallkick::Srs => srs_kicks(b, r),
        Wallkick::Tgm => tgm_kicks(b, f, r),
        Wallkick::Tgm3 => tgm3_kicks(b, f, r),
    }
}

/// Does the offset table of this block contain the given offset?
fn offsets_contain(b: &Block, x: u32, y: u32) -> (r: bool)
    requires
        b.wf(),
    ensures
        r == b.rs.offsets_spec(b.id, b.r).contains((x, y)),
{
    let d = b.rs.data(b.id, b.r);
    let ghost offs = b.rs.offsets_spec(b.id, b.r);
    let mut i: usize = 0;
    let mut found = false;
    while i < 4
        invariant
            0 <= i <= 4,
            d@ == offs,
            offs.len() == 4,
            found == exists|j: int| 0 <= j < i && offs[j] == (x, y),
        decreases 4 - i,
    {
        let (dx, dy) = d[i];
        found = found || (dx == x && dy == y);
        i += 1;
    }
    proof {
        if found {
        } else {
            if offs.contains((x, y)) {
                let j = choose|j: int| 0 <= j < offs.len() && offs[j] == (x, y);
            }
        }
    }
    found
}

impl Wallkick {
    /// Wallkick tests for the given block, field and turn direction: the
    /// ordered offsets to try through `rotate_at_offset`.
    ///
    /// The SRS search is defined for the quarter turns only.
    pub fn test(self, block: &Block, field: &Field, r: Rotation) -> (out: Vec<(i32, i32)>)
        requires
            block.wf(),
            field.wf(),
            self == Wallkick::Srs ==> r == Rotation::R90 || r == Rotation::R270,
        ensures
            out@ == kicks_spec(self, *block, *field, r),
    {
        let out: Vec<(i32, i32)> = match self {
            Wallkick::Empty => vec![(0, 0)],
            Wallkick::Simple => vec![(0, 0), (1, 0), (-1, 0)],
            Wallkick::Dtet => {
                match r {
                    Rotation::R90 => vec![(0, 0), (1, 0), (-1, 0), (1, 0), (1, 1), (-1, 1)],
                    Rotation::R270 => vec![(0, 0), (-1, 0), (1, 0), (1, 0), (-1, 1), (1, 1)],
                    _ => vec![(0, 0)],
                }
            },
            Wallkick::Srs => {
                if block.id == Id::O {
                    vec![(0, 0)]
                } else if r == Rotation::R90 {
                    if block.id == Id::I {
                        match block.r {
                            Rotation::R0 => vec![(0, 0), (-2, 0), (1, 0), (-2, 1), (1, -2)],
                            Rotation::R90 => vec![(0, 0), (-1, 0), (2, 0), (-1, -2), (2, 1)],
                            Rotation::R180 => vec![(0, 0), (2, 0), (-1, 0), (2, -1), (-1, 2)],
                            Rotation::R270 => vec![(0, 0), (1, 0), (-2, 0), (1, 2), (-2, -1)],
                        }
                    } else {
                        match block.r {
                            Rotation::R0 => vec![(0, 0), (-1, 0), (-1, -1), (0, 2), (-1, 2)],
                            Rotation::R90 => vec![(0, 0), (1, 0), (1, 1), (0, -2), (1, -2)],
                            Rotation::R180 => vec![(0, 0), (1, 0), (1, -1), (0, 2), (1, 2)],
                            Rotation::R270 => vec![(0, 0), (-1, 0), (-1, 1), (0, -2), (-1, -2)],
                        }
                    }
                } else {
                    if block.id == Id::I {
                        match block.r {
                            Rotation::R0 => vec![(0, 0), (-1, 0), (2, 0), (-1, -2), (2, 1)],
                            Rotation::R90 => vec![(0, 0), (2, 0), (-1, 0), (2, -1), (-1, 2)],
                            Rotation::R180 => vec![(0, 0), (1, 0), (-2, 0), (1, 2), (-2, -1)],
                            Rotation::R270 => vec![(0, 0), (-2, 0), (1, 0), (-2, 1), (1, -2)],
                        }
                    } else {
                        match block.r {
                            Rotation::R0 => vec![(0, 0), (1, 0), (1, -1), (0, 2), (1, 2)],
                            Rotation::R90 => vec![(0, 0), (1, 0), (1, 1), (0, -2), (1, -2)],
                            Rotation::R180 => vec![(0, 0), (-1, 0), (-1, -1), (0, 2), (-1, 2)],
                            Rotation::R270 => vec![(0, 0), (-1, 0), (-1, 1), (0, -2), (-1, -2)],
                        }
                    }
                }
            },
            Wallkick::Tgm => {
                if tgm_suppressed_exec(block, field, r) {
                    vec![(0, 0)]
                } else {
                    vec![(0, 0), (1, 0), (-1, 0)]
                }
            },
            Wallkick::Tgm3 => {
                if block.id == Id::I {
                    if i_grounded_exec(block, field) {
                        vec![(0, 0), (0, -1), (0, -2)]
                    } else {
                        vec![(0, 0), (1, 0), (2, 0), (-1, 0)]
                    }
                } else if block.id == Id::T {
                    let (pxo, pyo) = block.rs.minp(block.id, block.r);
                    let apx: i64 = block.x as i64 + pxo as i64;
                    let apy: i64 = block.y as i64 + pyo as i64;
                    let (mxx, _mxy) = block.rs.max(block.id, block.r);
                    let (mnx, _mny) = block.rs.min(block.id, block.r);
                    let ph: u32 = mxx - mnx;
                    let flat = ph == 1 && pxo < 0xffff_ffff && offsets_contain(
                        block,
                        pxo + 1,
                        pyo,
                    );
                    if !flat {
                        let bx: i64 = if ph == 1 {
                            apx + 1
                        } else {
                            apx
                        };
                        let by: i64 = if ph == 1 {
                            apy + 1
                        } else {
                            apy + 2
                        };
                        if !(by >= field.height as i64 || by + 1 >= field.width as i64) {
                            if field.occupies_signed(bx - 1, by) && field.occupies_signed(
                                bx + 1,
                                by,
                            ) {
                                vec![(0, 0), (0, -1)]
                            } else {
                                vec![(0, 0)]
                            }
                        } else {
                            if tgm_suppressed_exec(block, field, r) {
                                vec![(0, 0)]
                            } else {
                                vec![(0, 0), (1, 0), (-1, 0)]
                            }
                        }
                    } else {
                        if tgm_suppressed_exec(block, field, r) {
                            vec![(0, 0)]
                        } else {
                            vec![(0, 0), (1, 0), (-1, 0)]
                        }
                    }
                } else {
                    if tgm_suppressed_exec(block, field, r) {
                        vec![(0, 0)]
                    } else {
                        vec![(0, 0), (1, 0), (-1, 0)]
                    }
                }
            },
        };
        proof {
            assert(out@ =~= kicks_spec(self, *block, *field, r));
        }
        out
    }
}

/// Decide whether the TGM rule yields only the trivial offset: the I
/// piece, a suppressed three-wide orientation, or an identity turn.
fn tgm_suppressed_exec(block: &Block, field: &Field, r: Rotation) -> (out: bool)
    requires
        block.wf(),
        field.wf(),
    ensures
        out == (block.id == Id::I || tgm_wide3_suppressed(*block, *field) || r == Rotation::R0),
{
    if block.id == Id::I {
        return true;
    }
    let wide3 = if block.id == Id::L || block.id == Id::J || block.id == Id::T {
        let (txo, _tyo) = block.rs.max(block.id, block.r);
        let (lxo, lyo) = block.rs.min(block.id, block.r);
        let (pxo, pyo) = block.rs.minp(block.id, block.r);
        let apx: i64 = block.x as i64 + pxo as i64;
        let apy: i64 = block.y as i64 + pyo as i64;
        let mx: i64 = block.x as i64 + lxo as i64 + 1;
        if txo >= lxo && txo - lxo == 2 {
            if block.id == Id::T {
                field.occupies_signed(mx, block.y as i64 + lyo as i64 - 1)
            } else if block.id == Id::L {
                let nonflat = pxo < 0xffff_ffff && offsets_contain(block, pxo + 1, pyo);
                if nonflat {
                    !(field.occupies_signed(apx + 1, apy + 1) && field.occupies_signed(
                        apx + 2,
                        apy - 1,
                    )) && (field.occupies_signed(mx, apy + 1) || field.occupies_signed(
                        mx,
                        apy - 1,
                    ))
                } else {
                    !(field.occupies_signed(apx + 1, apy) && field.occupies_signed(
                        apx + 2,
                        apy - 1,
                    )) && (field.occupies_signed(mx, apy) || field.occupies_signed(mx, apy - 1))
                }
            } else {
                let nonflat = pxo < 0xffff_ffff && offsets_contain(block, pxo + 1, pyo);
                if nonflat {
                    !(field.occupies_signed(apx, apy - 1) && field.occupies_signed(
                        apx + 1,
                        apy + 1,
                    )) && (field.occupies_signed(mx, apy - 1) || field.occupies_signed(
                        mx,
                        apy + 1,
                    ))
                } else {
                    !(field.occupies_signed(apx - 1, apy) && field.occupies_signed(
                        apx - 2,
                        apy - 1,
                    )) && (field.occupies_signed(mx, apy) || field.occupies_signed(mx, apy - 1))
                }
            }
        } else {
            false
        }
    } else {
        false
    };
    wide3 || r == Rotation::R0
}

/// Decide whether any cell of the I block has a filled cell or the
/// floor directly below it.
fn i_grounded_exec(block: &Block, field: &Field) -> (out: bool)
    requires
        block.wf(),
        field.wf(),
    ensures
        out == tgm3_i_grounded(*block, *field),
{
    let d = block.rs.data(block.id, block.r);
    let ghost cells = block.cells();
    let mut i: usize = 0;
    let mut found = false;
    while i < 4
        invariant
            0 <= i <= 4,
            block.wf(),
            field.wf(),
            d@ == block.rs.offsets_spec(block.id, block.r),
            cells == block.cells(),
            cells.len() == 4,
            found == exists|j: int|
                0 <= j < i && (field.occupied((#[trigger] cells[j]).0, cells[j].1 + 1)
                    || cells[j].1 + 1 >= field.height),
        decreases 4 - i,
    {
        let (dx, dy) = d[i];
        let cx: i64 = block.x as i64 + dx as i64;
        let cy: i64 = block.y as i64 + dy as i64;
        let below = field.occupies_signed(cx, cy + 1) || cy + 1 >= field.height as i64;
        proof {
            assert(cells[i as int] == (block.x + dx, block.y + dy));
        }
        found = found || below;
        i += 1;
    }
    proof {
        if found {
        } else {
            if tgm3_i_grounded(*block, *field) {
                let j = choose|j: int|
                    0 <= j < cells.len() && (field.occupied(
                        (#[trigger] cells[j]).0,
                        cells[j].1 + 1,
                    ) || cells[j].1 + 1 >= field.height);
            }
        }
    }
    found
}

/// A struct naming the SRS wallkick.
pub struct SRS;

impl SRS {
    /// Return the SRS wallkick.
    pub fn new() -> (r: Wallkick)
        ensures
            r == Wallkick::Srs,
    {
        Wallkick::Srs
    }
}

/// Which names the factory recognises, and the wallkick each denotes.
pub open spec fn wallkick_of_name(name: Seq<char>) -> Option<Wallkick> {
    if name == "srs"@ {
        Some(Wallkick::Srs)
    } else if name == "empty"@ {
        Some(Wallkick::Empty)
    } else if name == "simple"@ {
        Some(Wallkick::Simple)
    } else if name == "dtet"@ {
        Some(Wallkick::Dtet)
    } else if name == "tgm"@ {
        Some(Wallkick::Tgm)
    } else if name == "tgm3"@ {
        Some(Wallkick::Tgm3)
    } else {
        None
    }
}

/// Factory function for constructing a wallkick from its name.
///
/// The recognised names are `srs`, `empty`, `simple`, `dtet`, `tgm` and
/// `tgm3`; any other name is refused with [`Error::UnknownName`].
pub fn new(name: &str) -> (r: Result<Wallkick, Error>)
    ensures
        match wallkick_of_name(name@) {
            Some(wk) => r == Ok::<Wallkick, Error>(wk),
            None => r == Err::<Wallkick, Error>(Error::UnknownName),
        },
{
    if crate::str_eq(name, "srs") {
        Ok(Wallkick::Srs)
    } else if crate::str_eq(name, "empty") {
        Ok(Wallkick::Empty)
    } else if crate::str_eq(name, "simple") {
        Ok(Wallkick::Simple)
    } else if crate::str_eq(name, "dtet") {
        Ok(Wallkick::Dtet)
    } else if crate::str_eq(name, "tgm") {
        Ok(Wallkick::Tgm)
    } else if crate::str_eq(name, "tgm3") {
        Ok(Wallkick::Tgm3)
    } else {
        Err(Error::UnknownName)
    }
}

} // verus!
