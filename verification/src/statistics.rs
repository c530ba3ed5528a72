//! Monotone counters describing an individual game.

use vstd::prelude::*;

verus! {

/// `Statistics` is a plain record of counters; the engine is the only
/// writer.  Lines are accounted by clear size, so in every reachable
/// engine state `lines == singles + 2·doubles + 3·triples + 4·fours`.
#[derive(Clone, Copy, Debug)]
pub struct Statistics {
    /// How many lines have been cleared.
    pub lines: u64,
    /// How many pieces have been locked into the field.
    pub pieces: u64,
    /// Total single line clears.
    pub singles: u64,
    /// Total double line clears.
    pub doubles: u64,
    /// Total triple line clears.
    pub triples: u64,
    /// Total quadruple line clears.
    pub fours: u64,
}

impl Statistics {
    /// The line counter agrees with the per-size clear counters.
    pub open spec fn lines_consistent(self) -> bool {
        self.lines == self.singles + 2 * self.doubles + 3 * self.triples + 4 * self.fours
    }

    /// Construct a new `Statistics` object.  Values are zeroed.
    pub fn new() -> (s: Statistics)
        ensures
            s.lines == 0u64 && s.pieces == 0u64 && s.singles == 0u64 && s.doubles == 0u64
                && s.triples == 0u64 && s.fours == 0u64,
            s.lines_consistent(),
    {
        Statistics { lines: 0, pieces: 0, singles: 0, doubles: 0, triples: 0, fours: 0 }
    }
}

} // verus!
