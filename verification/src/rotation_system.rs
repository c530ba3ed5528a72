//! Rotation systems: the per-piece, per-orientation cell offset tables.
//!
//! A rotation system assigns each `(Id, Rotation)` pair four distinct cell
//! offsets inside a 4-by-4 bounding box.  Four named systems are provided;
//! they are selected by name through [`new`].  The `ars` table follows the
//! published Arika-style flat-side-down orientations (the snapshotted
//! sources name both `ars` and `arika`; this crate treats them as one
//! system under the name `ars`).

use vstd::prelude::*;

use crate::block::{Id, Rotation};
use crate::Error;

verus! {

/// A named, immutable rotation system.
///
/// The value is a pure table selector: all offset data is total and
/// immutable, so the type is `Copy` and passing it by value everywhere
/// mirrors the process-wide singleton of a table.
#[derive(Clone, Copy, Debug, Hash, PartialEq, Eq, Structural)]
pub enum RotationSystem {
    /// The classic SRS spawn orientations.
    Srs,
    /// Arika-style flat-side-down orientations.
    Ars,
    /// The DTET orientations.
    Dtet,
    /// The Tengen orientations.
    Tengen,
}


/// The smaller of two offsets' components.
pub open spec fn min2u(a: u32, b: u32) -> u32 {
    if a <= b {
        a
    } else {
        b
    }
}

/// The larger of two offsets' components.
pub open spec fn max2u(a: u32, b: u32) -> u32 {
    if a >= b {
        a
    } else {
        b
    }
}

/// The least x component among the first `k` offsets.
pub open spec fn minx_upto(offs: Seq<(u32, u32)>, k: int) -> u32
    decreases k,
{
    if k <= 1 {
        offs[0].0
    } else {
        min2u(minx_upto(offs, k - 1), offs[k - 1].0)
    }
}

/// The least y component among the first `k` offsets.
pub open spec fn miny_upto(offs: Seq<(u32, u32)>, k: int) -> u32
    decreases k,
{
    if k <= 1 {
        offs[0].1
    } else {
        min2u(miny_upto(offs, k - 1), offs[k - 1].1)
    }
}

/// The greatest x component among the first `k` offsets.
pub open spec fn maxx_upto(offs: Seq<(u32, u32)>, k: int) -> u32
    decreases k,
{
    if k <= 1 {
        offs[0].0
    } else {
        max2u(maxx_upto(offs, k - 1), offs[k - 1].0)
    }
}

/// The greatest y component among the first `k` offsets.
pub open spec fn maxy_upto(offs: Seq<(u32, u32)>, k: int) -> u32
    decreases k,
{
    if k <= 1 {
        offs[0].1
    } else {
        max2u(maxy_upto(offs, k - 1), offs[k - 1].1)
    }
}

/// The row-major least offset among the first `k` offsets.
pub open spec fn minp_upto(offs: Seq<(u32, u32)>, k: int) -> (u32, u32)
    decreases k,
{
    if k <= 1 {
        offs[0]
    } else {
        let p = minp_upto(offs, k - 1);
        let c = offs[k - 1];
        if c.1 < p.1 || (c.1 == p.1 && c.0 <= p.0) {
            c
        } else {
            p
        }
    }
}

/// Lexicographic order on offsets, row-major: `a` is at or before `b`
/// when scanning top-to-bottom then left-to-right.
pub open spec fn row_major_le(a: (u32, u32), b: (u32, u32)) -> bool {
    a.1 < b.1 || (a.1 == b.1 && a.0 <= b.0)
}

impl RotationSystem {
    /// The four cell offsets of piece `id` in rotation `r`, as a sequence.
    pub open spec fn offsets_spec(self, id: Id, r: Rotation) -> Seq<(u32, u32)> {
        match (self, id, r) {
            (RotationSystem::Srs, Id::I, Rotation::R0) => seq![(0u32, 1u32), (1u32, 1u32), (2u32, 1u32), (3u32, 1u32)],
            (RotationSystem::Srs, Id::I, Rotation::R90) => seq![(2u32, 0u32), (2u32, 1u32), (2u32, 2u32), (2u32, 3u32)],
            (RotationSystem::Srs, Id::I, Rotation::R180) => seq![(0u32, 2u32), (1u32, 2u32), (2u32, 2u32), (3u32, 2u32)],
            (RotationSystem::Srs, Id::I, Rotation::R270) => seq![(1u32, 0u32), (1u32, 1u32), (1u32, 2u32), (1u32, 3u32)],
            (RotationSystem::Srs, Id::T, Rotation::R0) => seq![(0u32, 1u32), (1u32, 0u32), (1u32, 1u32), (2u32, 1u32)],
            (RotationSystem::Srs, Id::T, Rotation::R90) => seq![(1u32, 0u32), (1u32, 1u32), (1u32, 2u32), (2u32, 1u32)],
            (RotationSystem::Srs, Id::T, Rotation::R180) => seq![(0u32, 1u32), (1u32, 1u32), (1u32, 2u32), (2u32, 1u32)],
            (RotationSystem::Srs, Id::T, Rotation::R270) => seq![(0u32, 1u32), (1u32, 0u32), (1u32, 1u32), (1u32, 2u32)],
            (RotationSystem::Srs, Id::L, Rotation::R0) => seq![(0u32, 1u32), (1u32, 1u32), (2u32, 0u32), (2u32, 1u32)],
            (RotationSystem::Srs, Id::L, Rotation::R90) => seq![(1u32, 0u32), (1u32, 1u32), (1u32, 2u32), (2u32, 2u32)],
            (RotationSystem::Srs, Id::L, Rotation::R180) => seq![(0u32, 1u32), (0u32, 2u32), (1u32, 1u32), (2u32, 1u32)],
            (RotationSystem::Srs, Id::L, Rotation::R270) => seq![(0u32, 0u32), (1u32, 0u32), (1u32, 1u32), (1u32, 2u32)],
            (RotationSystem::Srs, Id::J, Rotation::R0) => seq![(0u32, 0u32), (0u32, 1u32), (1u32, 1u32), (2u32, 1u32)],
            (RotationSystem::Srs, Id::J, Rotation::R90) => seq![(1u32, 0u32), (1u32, 1u32), (1u32, 2u32), (2u32, 0u32)],
            (RotationSystem::Srs, Id::J, Rotation::R180) => seq![(0u32, 1u32), (1u32, 1u32), (2u32, 1u32), (2u32, 2u32)],
            (RotationSystem::Srs, Id::J, Rotation::R270) => seq![(0u32, 2u32), (1u32, 0u32), (1u32, 1u32), (1u32, 2u32)],
            (RotationSystem::Srs, Id::S, Rotation::R0) => seq![(0u32, 1u32), (1u32, 0u32), (1u32, 1u32), (2u32, 0u32)],
            (RotationSystem::Srs, Id::S, Rotation::R90) => seq![(1u32, 0u32), (1u32, 1u32), (2u32, 1u32), (2u32, 2u32)],
            (RotationSystem::Srs, Id::S, Rotation::R180) => seq![(0u32, 2u32), (1u32, 1u32), (1u32, 2u32), (2u32, 1u32)],
            (RotationSystem::Srs, Id::S, Rotation::R270) => seq![(0u32, 0u32), (0u32, 1u32), (1u32, 1u32), (1u32, 2u32)],
            (RotationSystem::Srs, Id::Z, Rotation::R0) => seq![(0u32, 0u32), (1u32, 0u32), (1u32, 1u32), (2u32, 1u32)],
            (RotationSystem::Srs, Id::Z, Rotation::R90) => seq![(1u32, 1u32), (1u32, 2u32), (2u32, 0u32), (2u32, 1u32)],
            (RotationSystem::Srs, Id::Z, Rotation::R180) => seq![(0u32, 1u32), (1u32, 1u32), (1u32, 2u32), (2u32, 2u32)],
            (RotationSystem::Srs, Id::Z, Rotation::R270) => seq![(0u32, 1u32), (0u32, 2u32), (1u32, 0u32), (1u32, 1u32)],
            (RotationSystem::Srs, Id::O, Rotation::R0) => seq![(1u32, 0u32), (1u32, 1u32), (2u32, 0u32), (2u32, 1u32)],
            (RotationSystem::Srs, Id::O, Rotation::R90) => seq![(1u32, 0u32), (1u32, 1u32), (2u32, 0u32), (2u32, 1u32)],
            (RotationSystem::Srs, Id::O, Rotation::R180) => seq![(1u32, 0u32), (1u32, 1u32), (2u32, 0u32), (2u32, 1u32)],
            (RotationSystem::Srs, Id::O, Rotation::R270) => seq![(1u32, 0u32), (1u32, 1u32), (2u32, 0u32), (2u32, 1u32)],
            (RotationSystem::Ars, Id::I, Rotation::R0) => seq![(0u32, 1u32), (1u32, 1u32), (2u32, 1u32), (3u32, 1u32)],
            (RotationSystem::Ars, Id::I, Rotation::R90) => seq![(2u32, 0u32), (2u32, 1u32), (2u32, 2u32), (2u32, 3u32)],
            (RotationSystem::Ars, Id::I, Rotation::R180) => seq![(0u32, 1u32), (1u32, 1u32), (2u32, 1u32), (3u32, 1u32)],
            (RotationSystem::Ars, Id::I, Rotation::R270) => seq![(2u32, 0u32), (2u32, 1u32), (2u32, 2u32), (2u32, 3u32)],
            (RotationSystem::Ars, Id::T, Rotation::R0) => seq![(0u32, 1u32), (1u32, 1u32), (2u32, 1u32), (1u32, 2u32)],
            (RotationSystem::Ars, Id::T, Rotation::R90) => seq![(1u32, 0u32), (0u32, 1u32), (1u32, 1u32), (1u32, 2u32)],
            (RotationSystem::Ars, Id::T, Rotation::R180) => seq![(1u32, 1u32), (0u32, 2u32), (1u32, 2u32), (2u32, 2u32)],
            (RotationSystem::Ars, Id::T, Rotation::R270) => seq![(1u32, 0u32), (1u32, 1u32), (2u32, 1u32), (1u32, 2u32)],
            (RotationSystem::Ars, Id::L, Rotation::R0) => seq![(0u32, 1u32), (1u32, 1u32), (2u32, 1u32), (0u32, 2u32)],
            (RotationSystem::Ars, Id::L, Rotation::R90) => seq![(0u32, 0u32), (1u32, 0u32), (1u32, 1u32), (1u32, 2u32)],
            (RotationSystem::Ars, Id::L, Rotation::R180) => seq![(2u32, 1u32), (0u32, 2u32), (1u32, 2u32), (2u32, 2u32)],
            (RotationSystem::Ars, Id::L, Rotation::R270) => seq![(1u32, 0u32), (1u32, 1u32), (1u32, 2u32), (2u32, 2u32)],
            (RotationSystem::Ars, Id::J, Rotation::R0) => seq![(0u32, 1u32), (1u32, 1u32), (2u32, 1u32), (2u32, 2u32)],
            (RotationSystem::Ars, Id::J, Rotation::R90) => seq![(1u32, 0u32), (1u32, 1u32), (0u32, 2u32), (1u32, 2u32)],
            (RotationSystem::Ars, Id::J, Rotation::R180) => seq![(0u32, 1u32), (0u32, 2u32), (1u32, 2u32), (2u32, 2u32)],
            (RotationSystem::Ars, Id::J, Rotation::R270) => seq![(1u32, 0u32), (2u32, 0u32), (1u32, 1u32), (1u32, 2u32)],
            (RotationSystem::Ars, Id::S, Rotation::R0) => seq![(1u32, 1u32), (2u32, 1u32), (0u32, 2u32), (1u32, 2u32)],
            (RotationSystem::Ars, Id::S, Rotation::R90) => seq![(0u32, 0u32), (0u32, 1u32), (1u32, 1u32), (1u32, 2u32)],
            (RotationSystem::Ars, Id::S, Rotation::R180) => seq![(1u32, 1u32), (2u32, 1u32), (0u32, 2u32), (1u32, 2u32)],
            (RotationSystem::Ars, Id::S, Rotation::R270) => seq![(0u32, 0u32), (0u32, 1u32), (1u32, 1u32), (1u32, 2u32)],
            (RotationSystem::Ars, Id::Z, Rotation::R0) => seq![(0u32, 1u32), (1u32, 1u32), (1u32, 2u32), (2u32, 2u32)],
            (RotationSystem::Ars, Id::Z, Rotation::R90) => seq![(2u32, 0u32), (1u32, 1u32), (2u32, 1u32), (1u32, 2u32)],
            (RotationSystem::Ars, Id::Z, Rotation::R180) => seq![(0u32, 1u32), (1u32, 1u32), (1u32, 2u32), (2u32, 2u32)],
            (RotationSystem::Ars, Id::Z, Rotation::R270) => seq![(2u32, 0u32), (1u32, 1u32), (2u32, 1u32), (1u32, 2u32)],
            (RotationSystem::Ars, Id::O, Rotation::R0) => seq![(1u32, 1u32), (2u32, 1u32), (1u32, 2u32), (2u32, 2u32)],
            (RotationSystem::Ars, Id::O, Rotation::R90) => seq![(1u32, 1u32), (2u32, 1u32), (1u32, 2u32), (2u32, 2u32)],
            (RotationSystem::Ars, Id::O, Rotation::R180) => seq![(1u32, 1u32), (2u32, 1u32), (1u32, 2u32), (2u32, 2u32)],
            (RotationSystem::Ars, Id::O, Rotation::R270) => seq![(1u32, 1u32), (2u32, 1u32), (1u32, 2u32), (2u32, 2u32)],
            (RotationSystem::Dtet, Id::I, Rotation::R0) => seq![(0u32, 2u32), (1u32, 2u32), (2u32, 2u32), (3u32, 2u32)],
            (RotationSystem::Dtet, Id::I, Rotation::R90) => seq![(2u32, 0u32), (2u32, 1u32), (2u32, 2u32), (2u32, 3u32)],
            (RotationSystem::Dtet, Id::I, Rotation::R180) => seq![(0u32, 2u32), (1u32, 2u32), (2u32, 2u32), (3u32, 2u32)],
            (RotationSystem::Dtet, Id::I, Rotation::R270) => seq![(1u32, 0u32), (1u32, 1u32), (1u32, 2u32), (1u32, 3u32)],
            (RotationSystem::Dtet, Id::T, Rotation::R0) => seq![(0u32, 1u32), (1u32, 1u32), (2u32, 1u32), (1u32, 2u32)],
            (RotationSystem::Dtet, Id::T, Rotation::R90) => seq![(0u32, 1u32), (1u32, 0u32), (1u32, 1u32), (1u32, 2u32)],
            (RotationSystem::Dtet, Id::T, Rotation::R180) => seq![(0u32, 2u32), (1u32, 1u32), (1u32, 2u32), (2u32, 2u32)],
            (RotationSystem::Dtet, Id::T, Rotation::R270) => seq![(1u32, 0u32), (1u32, 1u32), (1u32, 2u32), (2u32, 1u32)],
            (RotationSystem::Dtet, Id::L, Rotation::R0) => seq![(0u32, 1u32), (0u32, 2u32), (1u32, 1u32), (2u32, 1u32)],
            (RotationSystem::Dtet, Id::L, Rotation::R90) => seq![(0u32, 0u32), (1u32, 0u32), (1u32, 1u32), (1u32, 2u32)],
            (RotationSystem::Dtet, Id::L, Rotation::R180) => seq![(0u32, 2u32), (1u32, 2u32), (2u32, 1u32), (2u32, 2u32)],
            (RotationSystem::Dtet, Id::L, Rotation::R270) => seq![(1u32, 0u32), (1u32, 1u32), (1u32, 2u32), (2u32, 2u32)],
            (RotationSystem::Dtet, Id::J, Rotation::R0) => seq![(0u32, 1u32), (1u32, 1u32), (2u32, 1u32), (2u32, 2u32)],
            (RotationSystem::Dtet, Id::J, Rotation::R90) => seq![(0u32, 2u32), (1u32, 0u32), (1u32, 1u32), (1u32, 2u32)],
            (RotationSystem::Dtet, Id::J, Rotation::R180) => seq![(0u32, 1u32), (0u32, 2u32), (1u32, 2u32), (2u32, 2u32)],
            (RotationSystem::Dtet, Id::J, Rotation::R270) => seq![(1u32, 0u32), (1u32, 1u32), (1u32, 2u32), (2u32, 0u32)],
            (RotationSystem::Dtet, Id::S, Rotation::R0) => seq![(0u32, 2u32), (1u32, 1u32), (1u32, 2u32), (2u32, 1u32)],
            (RotationSystem::Dtet, Id::S, Rotation::R90) => seq![(1u32, 0u32), (1u32, 1u32), (2u32, 1u32), (2u32, 2u32)],
            (RotationSystem::Dtet, Id::S, Rotation::R180) => seq![(0u32, 2u32), (1u32, 1u32), (1u32, 2u32), (2u32, 1u32)],
            (RotationSystem::Dtet, Id::S, Rotation::R270) => seq![(0u32, 0u32), (0u32, 1u32), (1u32, 1u32), (1u32, 2u32)],
            (RotationSystem::Dtet, Id::Z, Rotation::R0) => seq![(0u32, 1u32), (1u32, 1u32), (1u32, 2u32), (2u32, 2u32)],
            (RotationSystem::Dtet, Id::Z, Rotation::R90) => seq![(1u32, 1u32), (1u32, 2u32), (2u32, 0u32), (2u32, 1u32)],
            (RotationSystem::Dtet, Id::Z, Rotation::R180) => seq![(0u32, 1u32), (1u32, 1u32), (1u32, 2u32), (2u32, 2u32)],
            (RotationSystem::Dtet, Id::Z, Rotation::R270) => seq![(0u32, 1u32), (0u32, 2u32), (1u32, 0u32), (1u32, 1u32)],
            (RotationSystem::Dtet, Id::O, Rotation::R0) => seq![(1u32, 0u32), (1u32, 1u32), (2u32, 0u32), (2u32, 1u32)],
            (RotationSystem::Dtet, Id::O, Rotation::R90) => seq![(1u32, 0u32), (1u32, 1u32), (2u32, 0u32), (2u32, 1u32)],
            (RotationSystem::Dtet, Id::O, Rotation::R180) => seq![(1u32, 0u32), (1u32, 1u32), (2u32, 0u32), (2u32, 1u32)],
            (RotationSystem::Dtet, Id::O, Rotation::R270) => seq![(1u32, 0u32), (1u32, 1u32), (2u32, 0u32), (2u32, 1u32)],
            (RotationSystem::Tengen, Id::I, Rotation::R0) => seq![(0u32, 0u32), (1u32, 0u32), (2u32, 0u32), (3u32, 0u32)],
            (RotationSystem::Tengen, Id::I, Rotation::R90) => seq![(1u32, 0u32), (1u32, 1u32), (1u32, 2u32), (1u32, 3u32)],
            (RotationSystem::Tengen, Id::I, Rotation::R180) => seq![(0u32, 0u32), (1u32, 0u32), (2u32, 0u32), (3u32, 0u32)],
            (RotationSystem::Tengen, Id::I, Rotation::R270) => seq![(1u32, 0u32), (1u32, 1u32), (1u32, 2u32), (1u32, 3u32)],
            (RotationSystem::Tengen, Id::T, Rotation::R0) => seq![(0u32, 0u32), (1u32, 0u32), (1u32, 1u32), (2u32, 0u32)],
            (RotationSystem::Tengen, Id::T, Rotation::R90) => seq![(0u32, 1u32), (1u32, 0u32), (1u32, 1u32), (1u32, 2u32)],
            (RotationSystem::Tengen, Id::T, Rotation::R180) => seq![(0u32, 1u32), (1u32, 0u32), (1u32, 1u32), (2u32, 1u32)],
            (RotationSystem::Tengen, Id::T, Rotation::R270) => seq![(0u32, 0u32), (0u32, 1u32), (0u32, 2u32), (1u32, 1u32)],
            (RotationSystem::Tengen, Id::L, Rotation::R0) => seq![(0u32, 0u32), (0u32, 1u32), (1u32, 0u32), (2u32, 0u32)],
            (RotationSystem::Tengen, Id::L, Rotation::R90) => seq![(0u32, 0u32), (1u32, 0u32), (1u32, 1u32), (1u32, 2u32)],
            (RotationSystem::Tengen, Id::L, Rotation::R180) => seq![(0u32, 1u32), (1u32, 1u32), (2u32, 0u32), (2u32, 1u32)],
            (RotationSystem::Tengen, Id::L, Rotation::R270) => seq![(0u32, 0u32), (0u32, 1u32), (0u32, 2u32), (1u32, 2u32)],
            (RotationSystem::Tengen, Id::J, Rotation::R0) => seq![(0u32, 0u32), (1u32, 0u32), (2u32, 0u32), (2u32, 1u32)],
            (RotationSystem::Tengen, Id::J, Rotation::R90) => seq![(0u32, 2u32), (1u32, 0u32), (1u32, 1u32), (1u32, 2u32)],
            (RotationSystem::Tengen, Id::J, Rotation::R180) => seq![(0u32, 0u32), (0u32, 1u32), (1u32, 1u32), (2u32, 1u32)],
            (RotationSystem::Tengen, Id::J, Rotation::R270) => seq![(0u32, 0u32), (0u32, 1u32), (0u32, 2u32), (1u32, 0u32)],
            (RotationSystem::Tengen, Id::S, Rotation::R0) => seq![(0u32, 1u32), (1u32, 0u32), (1u32, 1u32), (2u32, 0u32)],
            (RotationSystem::Tengen, Id::S, Rotation::R90) => seq![(0u32, 0u32), (0u32, 1u32), (1u32, 1u32), (1u32, 2u32)],
            (RotationSystem::Tengen, Id::S, Rotation::R180) => seq![(0u32, 1u32), (1u32, 0u32), (1u32, 1u32), (2u32, 0u32)],
            (RotationSystem::Tengen, Id::S, Rotation::R270) => seq![(0u32, 0u32), (0u32, 1u32), (1u32, 1u32), (1u32, 2u32)],
            (RotationSystem::Tengen, Id::Z, Rotation::R0) => seq![(0u32, 0u32), (1u32, 0u32), (1u32, 1u32), (2u32, 1u32)],
            (RotationSystem::Tengen, Id::Z, Rotation::R90) => seq![(0u32, 1u32), (0u32, 2u32), (1u32, 0u32), (1u32, 1u32)],
            (RotationSystem::Tengen, Id::Z, Rotation::R180) => seq![(0u32, 0u32), (1u32, 0u32), (1u32, 1u32), (2u32, 1u32)],
            (RotationSystem::Tengen, Id::Z, Rotation::R270) => seq![(0u32, 1u32), (0u32, 2u32), (1u32, 0u32), (1u32, 1u32)],
            (RotationSystem::Tengen, Id::O, Rotation::R0) => seq![(0u32, 0u32), (0u32, 1u32), (1u32, 0u32), (1u32, 1u32)],
            (RotationSystem::Tengen, Id::O, Rotation::R90) => seq![(0u32, 0u32), (0u32, 1u32), (1u32, 0u32), (1u32, 1u32)],
            (RotationSystem::Tengen, Id::O, Rotation::R180) => seq![(0u32, 0u32), (0u32, 1u32), (1u32, 0u32), (1u32, 1u32)],
            (RotationSystem::Tengen, Id::O, Rotation::R270) => seq![(0u32, 0u32), (0u32, 1u32), (1u32, 0u32), (1u32, 1u32)],
            (_, Id::Empty, _) => Seq::empty(),
        }
    }

    /// Every real piece has exactly four offsets, each component below 4,
    /// and no offset repeats.
    pub proof fn lemma_offsets_wf(self, id: Id, r: Rotation)
        requires
            id != Id::Empty,
        ensures
            self.offsets_spec(id, r).len() == 4,
            forall|i: int|
                0 <= i < 4 ==> (#[trigger] self.offsets_spec(id, r)[i]).0 < 4
                    && self.offsets_spec(id, r)[i].1 < 4,
            forall|i: int, j: int|
                #![trigger self.offsets_spec(id, r)[i], self.offsets_spec(id, r)[j]]
                0 <= i < j < 4 ==> self.offsets_spec(id, r)[i] != self.offsets_spec(id, r)[j],
    {
    }

    /// The componentwise minimum offset, as a spec value.
    pub open spec fn min_spec(self, id: Id, r: Rotation) -> (u32, u32) {
        let offs = self.offsets_spec(id, r);
        (minx_upto(offs, offs.len() as int), miny_upto(offs, offs.len() as int))
    }

    /// The componentwise maximum offset, as a spec value.
    pub open spec fn max_spec(self, id: Id, r: Rotation) -> (u32, u32) {
        let offs = self.offsets_spec(id, r);
        (maxx_upto(offs, offs.len() as int), maxy_upto(offs, offs.len() as int))
    }

    /// The row-major least offset, as a spec value.
    pub open spec fn minp_spec(self, id: Id, r: Rotation) -> (u32, u32) {
        let offs = self.offsets_spec(id, r);
        minp_upto(offs, offs.len() as int)
    }

    /// Returns the four offset values for the specified `Id` and `Rotation`.
    pub fn data(self, id: Id, r: Rotation) -> (out: [(u32, u32); 4])
        requires
            id != Id::Empty,
        ensures
            out@ == self.offsets_spec(id, r),
    {
        let out: [(u32, u32); 4] = match (self, id, r) {
            (RotationSystem::Srs, Id::I, Rotation::R0) => [(0u32, 1u32), (1u32, 1u32), (2u32, 1u32), (3u32, 1u32)],
            (RotationSystem::Srs, Id::I, Rotation::R90) => [(2u32, 0u32), (2u32, 1u32), (2u32, 2u32), (2u32, 3u32)],
            (RotationSystem::Srs, Id::I, Rotation::R180) => [(0u32, 2u32), (1u32, 2u32), (2u32, 2u32), (3u32, 2u32)],
            (RotationSystem::Srs, Id::I, Rotation::R270) => [(1u32, 0u32), (1u32, 1u32), (1u32, 2u32), (1u32, 3u32)],
            (RotationSystem::Srs, Id::T, Rotation::R0) => [(0u32, 1u32), (1u32, 0u32), (1u32, 1u32), (2u32, 1u32)],
            (RotationSystem::Srs, Id::T, Rotation::R90) => [(1u32, 0u32), (1u32, 1u32), (1u32, 2u32), (2u32, 1u32)],
            (RotationSystem::Srs, Id::T, Rotation::R180) => [(0u32, 1u32), (1u32, 1u32), (1u32, 2u32), (2u32, 1u32)],
            (RotationSystem::Srs, Id::T, Rotation::R270) => [(0u32, 1u32), (1u32, 0u32), (1u32, 1u32), (1u32, 2u32)],
            (RotationSystem::Srs, Id::L, Rotation::R0) => [(0u32, 1u32), (1u32, 1u32), (2u32, 0u32), (2u32, 1u32)],
            (RotationSystem::Srs, Id::L, Rotation::R90) => [(1u32, 0u32), (1u32, 1u32), (1u32, 2u32), (2u32, 2u32)],
            (RotationSystem::Srs, Id::L, Rotation::R180) => [(0u32, 1u32), (0u32, 2u32), (1u32, 1u32), (2u32, 1u32)],
            (RotationSystem::Srs, Id::L, Rotation::R270) => [(0u32, 0u32), (1u32, 0u32), (1u32, 1u32), (1u32, 2u32)],
            (RotationSystem::Srs, Id::J, Rotation::R0) => [(0u32, 0u32), (0u32, 1u32), (1u32, 1u32), (2u32, 1u32)],
            (RotationSystem::Srs, Id::J, Rotation::R90) => [(1u32, 0u32), (1u32, 1u32), (1u32, 2u32), (2u32, 0u32)],
            (RotationSystem::Srs, Id::J, Rotation::R180) => [(0u32, 1u32), (1u32, 1u32), (2u32, 1u32), (2u32, 2u32)],
            (RotationSystem::Srs, Id::J, Rotation::R270) => [(0u32, 2u32), (1u32, 0u32), (1u32, 1u32), (1u32, 2u32)],
            (RotationSystem::Srs, Id::S, Rotation::R0) => [(0u32, 1u32), (1u32, 0u32), (1u32, 1u32), (2u32, 0u32)],
            (RotationSystem::Srs, Id::S, Rotation::R90) => [(1u32, 0u32), (1u32, 1u32), (2u32, 1u32), (2u32, 2u32)],
            (RotationSystem::Srs, Id::S, Rotation::R180) => [(0u32, 2u32), (1u32, 1u32), (1u32, 2u32), (2u32, 1u32)],
            (RotationSystem::Srs, Id::S, Rotation::R270) => [(0u32, 0u32), (0u32, 1u32), (1u32, 1u32), (1u32, 2u32)],
            (RotationSystem::Srs, Id::Z, Rotation::R0) => [(0u32, 0u32), (1u32, 0u32), (1u32, 1u32), (2u32, 1u32)],
            (RotationSystem::Srs, Id::Z, Rotation::R90) => [(1u32, 1u32), (1u32, 2u32), (2u32, 0u32), (2u32, 1u32)],
            (RotationSystem::Srs, Id::Z, Rotation::R180) => [(0u32, 1u32), (1u32, 1u32), (1u32, 2u32), (2u32, 2u32)],
            (RotationSystem::Srs, Id::Z, Rotation::R270) => [(0u32, 1u32), (0u32, 2u32), (1u32, 0u32), (1u32, 1u32)],
            (RotationSystem::Srs, Id::O, Rotation::R0) => [(1u32, 0u32), (1u32, 1u32), (2u32, 0u32), (2u32, 1u32)],
            (RotationSystem::Srs, Id::O, Rotation::R90) => [(1u32, 0u32), (1u32, 1u32), (2u32, 0u32), (2u32, 1u32)],
            (RotationSystem::Srs, Id::O, Rotation::R180) => [(1u32, 0u32), (1u32, 1u32), (2u32, 0u32), (2u32, 1u32)],
            (RotationSystem::Srs, Id::O, Rotation::R270) => [(1u32, 0u32), (1u32, 1u32), (2u32, 0u32), (2u32, 1u32)],
            (RotationSystem::Ars, Id::I, Rotation::R0) => [(0u32, 1u32), (1u32, 1u32), (2u32, 1u32), (3u32, 1u32)],
            (RotationSystem::Ars, Id::I, Rotation::R90) => [(2u32, 0u32), (2u32, 1u32), (2u32, 2u32), (2u32, 3u32)],
            (RotationSystem::Ars, Id::I, Rotation::R180) => [(0u32, 1u32), (1u32, 1u32), (2u32, 1u32), (3u32, 1u32)],
            (RotationSystem::Ars, Id::I, Rotation::R270) => [(2u32, 0u32), (2u32, 1u32), (2u32, 2u32), (2u32, 3u32)],
            (RotationSystem::Ars, Id::T, Rotation::R0) => [(0u32, 1u32), (1u32, 1u32), (2u32, 1u32), (1u32, 2u32)],
            (RotationSystem::Ars, Id::T, Rotation::R90) => [(1u32, 0u32), (0u32, 1u32), (1u32, 1u32), (1u32, 2u32)],
            (RotationSystem::Ars, Id::T, Rotation::R180) => [(1u32, 1u32), (0u32, 2u32), (1u32, 2u32), (2u32, 2u32)],
            (RotationSystem::Ars, Id::T, Rotation::R270) => [(1u32, 0u32), (1u32, 1u32), (2u32, 1u32), (1u32, 2u32)],
            (RotationSystem::Ars, Id::L, Rotation::R0) => [(0u32, 1u32), (1u32, 1u32), (2u32, 1u32), (0u32, 2u32)],
            (RotationSystem::Ars, Id::L, Rotation::R90) => [(0u32, 0u32), (1u32, 0u32), (1u32, 1u32), (1u32, 2u32)],
            (RotationSystem::Ars, Id::L, Rotation::R180) => [(2u32, 1u32), (0u32, 2u32), (1u32, 2u32), (2u32, 2u32)],
            (RotationSystem::Ars, Id::L, Rotation::R270) => [(1u32, 0u32), (1u32, 1u32), (1u32, 2u32), (2u32, 2u32)],
            (RotationSystem::Ars, Id::J, Rotation::R0) => [(0u32, 1u32), (1u32, 1u32), (2u32, 1u32), (2u32, 2u32)],
            (RotationSystem::Ars, Id::J, Rotation::R90) => [(1u32, 0u32), (1u32, 1u32), (0u32, 2u32), (1u32, 2u32)],
            (RotationSystem::Ars, Id::J, Rotation::R180) => [(0u32, 1u32), (0u32, 2u32), (1u32, 2u32), (2u32, 2u32)],
            (RotationSystem::Ars, Id::J, Rotation::R270) => [(1u32, 0u32), (2u32, 0u32), (1u32, 1u32), (1u32, 2u32)],
            (RotationSystem::Ars, Id::S, Rotation::R0) => [(1u32, 1u32), (2u32, 1u32), (0u32, 2u32), (1u32, 2u32)],
            (RotationSystem::Ars, Id::S, Rotation::R90) => [(0u32, 0u32), (0u32, 1u32), (1u32, 1u32), (1u32, 2u32)],
            (RotationSystem::Ars, Id::S, Rotation::R180) => [(1u32, 1u32), (2u32, 1u32), (0u32, 2u32), (1u32, 2u32)],
            (RotationSystem::Ars, Id::S, Rotation::R270) => [(0u32, 0u32), (0u32, 1u32), (1u32, 1u32), (1u32, 2u32)],
            (RotationSystem::Ars, Id::Z, Rotation::R0) => [(0u32, 1u32), (1u32, 1u32), (1u32, 2u32), (2u32, 2u32)],
            (RotationSystem::Ars, Id::Z, Rotation::R90) => [(2u32, 0u32), (1u32, 1u32), (2u32, 1u32), (1u32, 2u32)],
            (RotationSystem::Ars, Id::Z, Rotation::R180) => [(0u32, 1u32), (1u32, 1u32), (1u32, 2u32), (2u32, 2u32)],
            (RotationSystem::Ars, Id::Z, Rotation::R270) => [(2u32, 0u32), (1u32, 1u32), (2u32, 1u32), (1u32, 2u32)],
            (RotationSystem::Ars, Id::O, Rotation::R0) => [(1u32, 1u32), (2u32, 1u32), (1u32, 2u32), (2u32, 2u32)],
            (RotationSystem::Ars, Id::O, Rotation::R90) => [(1u32, 1u32), (2u32, 1u32), (1u32, 2u32), (2u32, 2u32)],
            (RotationSystem::Ars, Id::O, Rotation::R180) => [(1u32, 1u32), (2u32, 1u32), (1u32, 2u32), (2u32, 2u32)],
            (RotationSystem::Ars, Id::O, Rotation::R270) => [(1u32, 1u32), (2u32, 1u32), (1u32, 2u32), (2u32, 2u32)],
            (RotationSystem::Dtet, Id::I, Rotation::R0) => [(0u32, 2u32), (1u32, 2u32), (2u32, 2u32), (3u32, 2u32)],
            (RotationSystem::Dtet, Id::I, Rotation::R90) => [(2u32, 0u32), (2u32, 1u32), (2u32, 2u32), (2u32, 3u32)],
            (RotationSystem::Dtet, Id::I, Rotation::R180) => [(0u32, 2u32), (1u32, 2u32), (2u32, 2u32), (3u32, 2u32)],
            (RotationSystem::Dtet, Id::I, Rotation::R270) => [(1u32, 0u32), (1u32, 1u32), (1u32, 2u32), (1u32, 3u32)],
            (RotationSystem::Dtet, Id::T, Rotation::R0) => [(0u32, 1u32), (1u32, 1u32), (2u32, 1u32), (1u32, 2u32)],
            (RotationSystem::Dtet, Id::T, Rotation::R90) => [(0u32, 1u32), (1u32, 0u32), (1u32, 1u32), (1u32, 2u32)],
            (RotationSystem::Dtet, Id::T, Rotation::R180) => [(0u32, 2u32), (1u32, 1u32), (1u32, 2u32), (2u32, 2u32)],
            (RotationSystem::Dtet, Id::T, Rotation::R270) => [(1u32, 0u32), (1u32, 1u32), (1u32, 2u32), (2u32, 1u32)],
            (RotationSystem::Dtet, Id::L, Rotation::R0) => [(0u32, 1u32), (0u32, 2u32), (1u32, 1u32), (2u32, 1u32)],
            (RotationSystem::Dtet, Id::L, Rotation::R90) => [(0u32, 0u32), (1u32, 0u32), (1u32, 1u32), (1u32, 2u32)],
            (RotationSystem::Dtet, Id::L, Rotation::R180) => [(0u32, 2u32), (1u32, 2u32), (2u32, 1u32), (2u32, 2u32)],
            (RotationSystem::Dtet, Id::L, Rotation::R270) => [(1u32, 0u32), (1u32, 1u32), (1u32, 2u32), (2u32, 2u32)],
            (RotationSystem::Dtet, Id::J, Rotation::R0) => [(0u32, 1u32), (1u32, 1u32), (2u32, 1u32), (2u32, 2u32)],
            (RotationSystem::Dtet, Id::J, Rotation::R90) => [(0u32, 2u32), (1u32, 0u32), (1u32, 1u32), (1u32, 2u32)],
            (RotationSystem::Dtet, Id::J, Rotation::R180) => [(0u32, 1u32), (0u32, 2u32), (1u32, 2u32), (2u32, 2u32)],
            (RotationSystem::Dtet, Id::J, Rotation::R270) => [(1u32, 0u32), (1u32, 1u32), (1u32, 2u32), (2u32, 0u32)],
            (RotationSystem::Dtet, Id::S, Rotation::R0) => [(0u32, 2u32), (1u32, 1u32), (1u32, 2u32), (2u32, 1u32)],
            (RotationSystem::Dtet, Id::S, Rotation::R90) => [(1u32, 0u32), (1u32, 1u32), (2u32, 1u32), (2u32, 2u32)],
            (RotationSystem::Dtet, Id::S, Rotation::R180) => [(0u32, 2u32), (1u32, 1u32), (1u32, 2u32), (2u32, 1u32)],
            (RotationSystem::Dtet, Id::S, Rotation::R270) => [(0u32, 0u32), (0u32, 1u32), (1u32, 1u32), (1u32, 2u32)],
            (RotationSystem::Dtet, Id::Z, Rotation::R0) => [(0u32, 1u32), (1u32, 1u32), (1u32, 2u32), (2u32, 2u32)],
            (RotationSystem::Dtet, Id::Z, Rotation::R90) => [(1u32, 1u32), (1u32, 2u32), (2u32, 0u32), (2u32, 1u32)],
            (RotationSystem::Dtet, Id::Z, Rotation::R180) => [(0u32, 1u32), (1u32, 1u32), (1u32, 2u32), (2u32, 2u32)],
            (RotationSystem::Dtet, Id::Z, Rotation::R270) => [(0u32, 1u32), (0u32, 2u32), (1u32, 0u32), (1u32, 1u32)],
            (RotationSystem::Dtet, Id::O, Rotation::R0) => [(1u32, 0u32), (1u32, 1u32), (2u32, 0u32), (2u32, 1u32)],
            (RotationSystem::Dtet, Id::O, Rotation::R90) => [(1u32, 0u32), (1u32, 1u32), (2u32, 0u32), (2u32, 1u32)],
            (RotationSystem::Dtet, Id::O, Rotation::R180) => [(1u32, 0u32), (1u32, 1u32), (2u32, 0u32), (2u32, 1u32)],
            (RotationSystem::Dtet, Id::O, Rotation::R270) => [(1u32, 0u32), (1u32, 1u32), (2u32, 0u32), (2u32, 1u32)],
            (RotationSystem::Tengen, Id::I, Rotation::R0) => [(0u32, 0u32), (1u32, 0u32), (2u32, 0u32), (3u32, 0u32)],
            (RotationSystem::Tengen, Id::I, Rotation::R90) => [(1u32, 0u32), (1u32, 1u32), (1u32, 2u32), (1u32, 3u32)],
            (RotationSystem::Tengen, Id::I, Rotation::R180) => [(0u32, 0u32), (1u32, 0u32), (2u32, 0u32), (3u32, 0u32)],
            (RotationSystem::Tengen, Id::I, Rotation::R270) => [(1u32, 0u32), (1u32, 1u32), (1u32, 2u32), (1u32, 3u32)],
            (RotationSystem::Tengen, Id::T, Rotation::R0) => [(0u32, 0u32), (1u32, 0u32), (1u32, 1u32), (2u32, 0u32)],
            (RotationSystem::Tengen, Id::T, Rotation::R90) => [(0u32, 1u32), (1u32, 0u32), (1u32, 1u32), (1u32, 2u32)],
            (RotationSystem::Tengen, Id::T, Rotation::R180) => [(0u32, 1u32), (1u32, 0u32), (1u32, 1u32), (2u32, 1u32)],
            (RotationSystem::Tengen, Id::T, Rotation::R270) => [(0u32, 0u32), (0u32, 1u32), (0u32, 2u32), (1u32, 1u32)],
            (RotationSystem::Tengen, Id::L, Rotation::R0) => [(0u32, 0u32), (0u32, 1u32), (1u32, 0u32), (2u32, 0u32)],
            (RotationSystem::Tengen, Id::L, Rotation::R90) => [(0u32, 0u32), (1u32, 0u32), (1u32, 1u32), (1u32, 2u32)],
            (RotationSystem::Tengen, Id::L, Rotation::R180) => [(0u32, 1u32), (1u32, 1u32), (2u32, 0u32), (2u32, 1u32)],
            (RotationSystem::Tengen, Id::L, Rotation::R270) => [(0u32, 0u32), (0u32, 1u32), (0u32, 2u32), (1u32, 2u32)],
            (RotationSystem::Tengen, Id::J, Rotation::R0) => [(0u32, 0u32), (1u32, 0u32), (2u32, 0u32), (2u32, 1u32)],
            (RotationSystem::Tengen, Id::J, Rotation::R90) => [(0u32, 2u32), (1u32, 0u32), (1u32, 1u32), (1u32, 2u32)],
            (RotationSystem::Tengen, Id::J, Rotation::R180) => [(0u32, 0u32), (0u32, 1u32), (1u32, 1u32), (2u32, 1u32)],
            (RotationSystem::Tengen, Id::J, Rotation::R270) => [(0u32, 0u32), (0u32, 1u32), (0u32, 2u32), (1u32, 0u32)],
            (RotationSystem::Tengen, Id::S, Rotation::R0) => [(0u32, 1u32), (1u32, 0u32), (1u32, 1u32), (2u32, 0u32)],
            (RotationSystem::Tengen, Id::S, Rotation::R90) => [(0u32, 0u32), (0u32, 1u32), (1u32, 1u32), (1u32, 2u32)],
            (RotationSystem::Tengen, Id::S, Rotation::R180) => [(0u32, 1u32), (1u32, 0u32), (1u32, 1u32), (2u32, 0u32)],
            (RotationSystem::Tengen, Id::S, Rotation::R270) => [(0u32, 0u32), (0u32, 1u32), (1u32, 1u32), (1u32, 2u32)],
            (RotationSystem::Tengen, Id::Z, Rotation::R0) => [(0u32, 0u32), (1u32, 0u32), (1u32, 1u32), (2u32, 1u32)],
            (RotationSystem::Tengen, Id::Z, Rotation::R90) => [(0u32, 1u32), (0u32, 2u32), (1u32, 0u32), (1u32, 1u32)],
            (RotationSystem::Tengen, Id::Z, Rotation::R180) => [(0u32, 0u32), (1u32, 0u32), (1u32, 1u32), (2u32, 1u32)],
            (RotationSystem::Tengen, Id::Z, Rotation::R270) => [(0u32, 1u32), (0u32, 2u32), (1u32, 0u32), (1u32, 1u32)],
            (RotationSystem::Tengen, Id::O, Rotation::R0) => [(0u32, 0u32), (0u32, 1u32), (1u32, 0u32), (1u32, 1u32)],
            (RotationSystem::Tengen, Id::O, Rotation::R90) => [(0u32, 0u32), (0u32, 1u32), (1u32, 0u32), (1u32, 1u32)],
            (RotationSystem::Tengen, Id::O, Rotation::R180) => [(0u32, 0u32), (0u32, 1u32), (1u32, 0u32), (1u32, 1u32)],
            (RotationSystem::Tengen, Id::O, Rotation::R270) => [(0u32, 0u32), (0u32, 1u32), (1u32, 0u32), (1u32, 1u32)],
            (_, Id::Empty, _) => [(0u32, 0u32), (0u32, 0u32), (0u32, 0u32), (0u32, 0u32)],
        };
        proof {
            assert(out@ =~= self.offsets_spec(id, r));
        }
        out
    }

    /// Returns a tuple containing the componentwise minimum offset of the
    /// specified block: the leading empty `(x, y)` columns.
    pub fn min(self, id: Id, r: Rotation) -> (out: (u32, u32))
        requires
            id != Id::Empty,
        ensures
            forall|i: int|
                0 <= i < self.offsets_spec(id, r).len() ==> out.0 <= (
                #[trigger] self.offsets_spec(id, r)[i]).0 && out.1 <= self.offsets_spec(id, r)[i].1,
            exists|i: int|
                0 <= i < self.offsets_spec(id, r).len() && out.0 == (
                #[trigger] self.offsets_spec(id, r)[i]).0,
            exists|i: int|
                0 <= i < self.offsets_spec(id, r).len() && out.1 == (
                #[trigger] self.offsets_spec(id, r)[i]).1,
            out == self.min_spec(id, r),
    {
        let d = self.data(id, r);
        let mut a: u32 = d[0].0;
        let mut b: u32 = d[0].1;
        let ghost offs = self.offsets_spec(id, r);
        let mut k: usize = 1;
        while k < 4
            invariant
                1 <= k <= 4,
                offs == self.offsets_spec(id, r),
                d@ == offs,
                forall|i: int| 0 <= i < k ==> a <= (#[trigger] offs[i]).0 && b <= offs[i].1,
                exists|i: int| 0 <= i < k && a == (#[trigger] offs[i]).0,
                exists|i: int| 0 <= i < k && b == (#[trigger] offs[i]).1,
                a == minx_upto(offs, k as int),
                b == miny_upto(offs, k as int),
            decreases 4 - k,
        {
            if d[k].0 < a {
                a = d[k].0;
            }
            if d[k].1 < b {
                b = d[k].1;
            }
            k += 1;
        }
        (a, b)
    }

    /// Returns a tuple containing the componentwise maximum offset of the
    /// specified block.
    pub fn max(self, id: Id, r: Rotation) -> (out: (u32, u32))
        requires
            id != Id::Empty,
        ensures
            forall|i: int|
                0 <= i < self.offsets_spec(id, r).len() ==> out.0 >= (
                #[trigger] self.offsets_spec(id, r)[i]).0 && out.1 >= self.offsets_spec(id, r)[i].1,
            exists|i: int|
                0 <= i < self.offsets_spec(id, r).len() && out.0 == (
                #[trigger] self.offsets_spec(id, r)[i]).0,
            exists|i: int|
                0 <= i < self.offsets_spec(id, r).len() && out.1 == (
                #[trigger] self.offsets_spec(id, r)[i]).1,
            out == self.max_spec(id, r),
    {
        let d = self.data(id, r);
        let mut a: u32 = d[0].0;
        let mut b: u32 = d[0].1;
        let ghost offs = self.offsets_spec(id, r);
        let mut k: usize = 1;
        while k < 4
            invariant
                1 <= k <= 4,
                offs == self.offsets_spec(id, r),
                d@ == offs,
                forall|i: int| 0 <= i < k ==> a >= (#[trigger] offs[i]).0 && b >= offs[i].1,
                exists|i: int| 0 <= i < k && a == (#[trigger] offs[i]).0,
                exists|i: int| 0 <= i < k && b == (#[trigger] offs[i]).1,
                a == maxx_upto(offs, k as int),
                b == maxy_upto(offs, k as int),
            decreases 4 - k,
        {
            if d[k].0 > a {
                a = d[k].0;
            }
            if d[k].1 > b {
                b = d[k].1;
            }
            k += 1;
        }
        (a, b)
    }

    /// Returns the offset of the first piece of the block when the 4-by-4
    /// box is scanned row by row from `y = 0` onwards, left to right.
    pub fn minp(self, id: Id, r: Rotation) -> (out: (u32, u32))
        requires
            id != Id::Empty,
        ensures
            self.offsets_spec(id, r).contains(out),
            forall|i: int|
                0 <= i < self.offsets_spec(id, r).len() ==> row_major_le(
                    out,
                    #[trigger] self.offsets_spec(id, r)[i],
                ),
            out == self.minp_spec(id, r),
    {
        let d = self.data(id, r);
        let mut a: u32 = d[0].0;
        let mut b: u32 = d[0].1;
        let ghost offs = self.offsets_spec(id, r);
        proof {
            assert(offs.contains(offs[0]));
        }
        let mut k: usize = 1;
        while k < 4
            invariant
                1 <= k <= 4,
                offs == self.offsets_spec(id, r),
                d@ == offs,
                offs.contains((a, b)),
                forall|i: int| 0 <= i < k ==> row_major_le((a, b), #[trigger] offs[i]),
                (a, b) == minp_upto(offs, k as int),
            decreases 4 - k,
        {
            let (x, y) = d[k];
            if y < b || (y == b && x <= a) {
                a = x;
                b = y;
                proof {
                    assert(offs.contains(offs[k as int]));
                }
            }
            k += 1;
        }
        (a, b)
    }
}

/// A struct naming the SRS rotation system.
pub struct SRS;

impl SRS {
    /// Return the SRS rotation system.
    pub fn new() -> (r: RotationSystem)
        ensures
            r == RotationSystem::Srs,
    {
        RotationSystem::Srs
    }
}

/// A struct naming the Tengen rotation system.
pub struct Tengen;

impl Tengen {
    /// Return the Tengen rotation system.
    pub fn new() -> (r: RotationSystem)
        ensures
            r == RotationSystem::Tengen,
    {
        RotationSystem::Tengen
    }
}

/// Which names the factory recognises, and the system each denotes.
pub open spec fn system_of_name(name: Seq<char>) -> Option<RotationSystem> {
    if name == "srs"@ {
        Some(RotationSystem::Srs)
    } else if name == "ars"@ {
        Some(RotationSystem::Ars)
    } else if name == "dtet"@ {
        Some(RotationSystem::Dtet)
    } else if name == "tengen"@ {
        Some(RotationSystem::Tengen)
    } else {
        None
    }
}

/// Factory function for constructing a rotation system from its name.
///
/// The recognised names are `srs`, `ars`, `dtet` and `tengen`; any other
/// name is refused with [`Error::UnknownName`].
pub fn new(name: &str) -> (r: Result<RotationSystem, Error>)
    ensures
        match system_of_name(name@) {
            Some(rs) => r == Ok::<RotationSystem, Error>(rs),
            None => r == Err::<RotationSystem, Error>(Error::UnknownName),
        },
{
    if crate::str_eq(name, "srs") {
        Ok(RotationSystem::Srs)
    } else if crate::str_eq(name, "ars") {
        Ok(RotationSystem::Ars)
    } else if crate::str_eq(name, "dtet") {
        Ok(RotationSystem::Dtet)
    } else if crate::str_eq(name, "tengen") {
        Ok(RotationSystem::Tengen)
    } else {
        Err(Error::UnknownName)
    }
}


/// Among the first `k` offsets, the row-major least one is an entry and
/// bounds every entry.
proof fn lemma_minp_upto(offs: Seq<(u32, u32)>, k: int)
    requires
        1 <= k <= offs.len(),
    ensures
        exists|i: int| 0 <= i < k && offs[i] == minp_upto(offs, k),
        forall|i: int| 0 <= i < k ==> row_major_le(minp_upto(offs, k), #[trigger] offs[i]),
    decreases k,
{
    if k == 1 {
        assert(offs[0] == minp_upto(offs, 1));
    } else {
        lemma_minp_upto(offs, k - 1);
        let p = minp_upto(offs, k - 1);
        let i0 = choose|i: int| 0 <= i < k - 1 && offs[i] == p;
        if offs[k - 1].1 < p.1 || (offs[k - 1].1 == p.1 && offs[k - 1].0 <= p.0) {
            assert(offs[k - 1] == minp_upto(offs, k));
        } else {
            assert(offs[i0] == minp_upto(offs, k));
        }
    }
}

impl RotationSystem {
    /// The row-major least offset is one of the four and bounds them all.
    pub proof fn lemma_minp_spec(self, id: Id, r: Rotation)
        requires
            id != Id::Empty,
        ensures
            self.offsets_spec(id, r).contains(self.minp_spec(id, r)),
            forall|i: int|
                0 <= i < self.offsets_spec(id, r).len() ==> row_major_le(
                    self.minp_spec(id, r),
                    #[trigger] self.offsets_spec(id, r)[i],
                ),
    {
        self.lemma_offsets_wf(id, r);
        lemma_minp_upto(self.offsets_spec(id, r), 4);
        let i0 = choose|i: int|
            0 <= i < 4 && self.offsets_spec(id, r)[i] == minp_upto(self.offsets_spec(id, r), 4);
        assert(self.offsets_spec(id, r).contains(self.offsets_spec(id, r)[i0]));
    }
}

} // verus!
