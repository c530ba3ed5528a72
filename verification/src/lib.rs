//! A verified tetris gameplay engine.
//!
//! The library provides the primitives of falling-piece play — a playfield,
//! an active piece, rotation-system offset tables, wallkick searches and
//! piece randomizers — together with a tick-driven engine that composes
//! them.  Every executable function carries a contract describing exactly
//! what it computes.

use vstd::prelude::*;

pub mod block;
pub mod controller;
pub mod engine;
pub mod field;
pub mod history;
pub mod options;
pub mod randomizer;
pub mod rotation_system;
pub mod schema;
pub mod statistics;
pub mod utility;
pub mod wallkick;

verus! {

/// The error values surfaced by fallible operations of this crate.
///
/// Collision checks are never errors (they are boolean-valued); these
/// values only arise from misconfiguration or malformed schema text.
#[derive(Clone, Copy, Debug, PartialEq, Eq, Structural)]
pub enum Error {
    /// A factory was given a name it does not recognise.
    UnknownName,
    /// A direct cell query lay outside the field.
    OutOfBounds,
    /// A preview request exceeded the randomizer lookahead.
    PreviewTooLarge,
    /// Schema rows of differing lengths.
    UnevenRows,
    /// A schema with no rows at all.
    EmptyInput,
    /// Schema `@` cells that match no piece shape.
    UnmatchedBlock,
    /// A schema without any `@` cell.
    MissingBlock,
    /// A field cell and a block cell coincide while rendering.
    SchemaCollision,
    /// Engine options with a zero tick duration.
    ZeroTickRate,
    /// A schema character that names no cell kind.
    UnknownCharacter,
    /// A schema picture too large to map onto a field.
    TooLarge,
}

/// Compare two string slices by their character sequences.
pub fn str_eq(a: &str, b: &str) -> (r: bool)
    ensures
        r == (a@ == b@),
{
    let ao = a.to_owned();
    let bo = b.to_owned();
    ao == bo
}

} // verus!
