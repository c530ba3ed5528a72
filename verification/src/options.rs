//! Immutable gameplay options, grouped for callers that want to manage
//! a named profile of settings themselves.

use vstd::prelude::*;

verus! {

/// A bundle of tunable gameplay values.
///
/// These mirror the engine's settings in plain milliseconds and counts;
/// they are not tied to a name — that is left to the caller.
#[derive(Clone, Copy, Debug)]
pub struct Options {
    /// Delayed auto-shift, in ms.
    pub das: u64,
    /// Entry delay, in ms.
    pub are: u64,
    /// How many ms must pass for the block to fall one cell.
    pub gravity: u64,
    /// Auto-repeat rate, in ms.
    pub arr: u64,
    /// Is hold enabled?
    pub has_hold: bool,
    /// How many times hold may be used per piece.
    pub hold_limit: u64,
    /// Is hard drop allowed?
    pub has_hard_drop: bool,
    /// Is soft drop allowed?
    pub has_soft_drop: bool,
    /// The speed soft drop works at, in ms per cell.
    pub soft_drop_speed: u64,
    /// Maximum number of preview pieces.
    pub preview_count: u64,
}

impl Default for Options {
    /// The defaults: 180 ms shift delay, no entry delay, one-second
    /// gravity, 16 ms repeat, hold and both drops enabled, one hold per
    /// piece, soft drop at one cell per tick, three preview pieces.
    fn default() -> (r: Options)
        ensures
            r.das == 180u64 && r.are == 0u64 && r.gravity == 1000u64 && r.arr == 16u64,
            r.has_hold && r.hold_limit == 1u64 && r.has_hard_drop && r.has_soft_drop,
            r.soft_drop_speed == 16u64 && r.preview_count == 3u64,
    {
        Options {
            das: 180,
            are: 0,
            gravity: 1000,
            arr: 16,
            has_hold: true,
            hold_limit: 1,
            has_hard_drop: true,
            has_soft_drop: true,
            soft_drop_speed: 16,
            preview_count: 3,
        }
    }
}

impl Options {
    /// Construct a new `Options` value with the default settings.
    pub fn new() -> (r: Options)
        ensures
            r.das == 180u64 && r.are == 0u64 && r.gravity == 1000u64 && r.arr == 16u64,
            r.has_hold && r.hold_limit == 1u64 && r.has_hard_drop && r.has_soft_drop,
            r.soft_drop_speed == 16u64 && r.preview_count == 3u64,
    {
        Options::default()
    }
}

} // verus!
