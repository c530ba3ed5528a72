//! The high-level engine which composes all the components into one
//! tick-driven state machine.
//!
//! `update` is called once per tick; it consumes the controller state
//! and advances the playfield, the active block, the hold slot, the
//! preview stream, the statistics and the input history.
//!
//! Fractional rates — gravity and soft drop in cells per millisecond —
//! are held in fixed point: micro-cells (millionths of a cell) per
//! millisecond, so the gravity accumulators are exact integers and
//! every step is proved free of overflow.

use vstd::prelude::*;
use vstd::set_lib::group_set_lib_default;

use crate::block::{dropped_from, Block, BlockOptions, Direction, Id, Rotation};
use crate::controller::{Action, Controller};
use crate::field::{row_not_full, Field, FieldOptions};
use crate::history::History;
use crate::randomizer::{self, Randomizer};
use crate::rotation_system::{self, RotationSystem};
use crate::statistics::Statistics;
use crate::wallkick::{self, Wallkick};
use crate::Error;

verus! {

/// One cell, in micro-cells: the unit of the gravity accumulators.
pub const MICRO_CELL: u64 = 1_000_000;

/// The current `Engine` status.
#[derive(Clone, Copy, Debug, PartialEq, Eq, Structural)]
pub enum Status {
    /// Entry delay between a lock and the next piece spawn.
    Are,
    /// The main movement phase.
    Move,
    /// Reached on lockout; terminal.
    GameOver,
}

/// Stores internal `Engine` state for the current piece; reset on spawn.
#[derive(Clone, Copy, Debug)]
pub struct EngineInternal {
    /// How many ticks the engine has been in the current status.
    pub status_timer: u64,
    /// Accumulated gravity, in micro-cells.
    pub gravity_counter: u64,
    /// Accumulated soft drop, in micro-cells.
    pub soft_drop_counter: u64,
    /// How many times the current piece has been held.
    pub hold_count: u64,
    /// Is the piece currently locking?
    pub locking: bool,
    /// For how many ticks the piece has been locking.
    pub lock_timer: u64,
    /// Was an initial hold requested during Are?
    pub ihs_flag: bool,
    /// Was an initial rotate requested during Are?
    pub irs_flag: bool,
    /// Which rotation the initial rotate requested.
    pub irs_rotation: Rotation,
    /// Must a new piece be spawned before the next move tick?
    pub need_piece: bool,
    /// For how many ticks the current piece has been alive.
    pub piece_timer: u64,
}

/// Configurable options which alter how the engine plays.
///
/// Durations are in milliseconds; rates are in micro-cells per
/// millisecond (a micro-cell is a millionth of a cell).
#[derive(Clone, Copy, Debug)]
pub struct EngineSettings {
    /// How many milliseconds the entry delay lasts.
    pub are: u64,
    /// Auto-repeat rate (in ms).
    pub arr: u64,
    /// Delayed auto-shift (in ms).
    pub das: u64,
    /// How fast soft drop falls (micro-cells per ms).
    pub soft_drop_speed: u64,
    /// How long the lock delay lasts (in ms).
    pub lock_delay: u64,
    /// How many holds are allowed per piece.
    pub hold_limit: u64,
    /// Natural fall rate (micro-cells per ms).
    pub gravity: u64,
    /// Should gravity be performed before the horizontal move?
    pub gravity_before_move: bool,
}

impl Default for EngineSettings {
    /// The defaults: no entry delay, 16 ms auto-repeat, 180 ms delayed
    /// auto-shift, soft drop of two cells per ms, 300 ms lock delay, one
    /// hold per piece, gravity of a thousandth of a cell per ms, and the
    /// horizontal move before gravity.
    fn default() -> (r: EngineSettings)
        ensures
            r.are == 0u64 && r.arr == 16u64 && r.das == 180u64,
            r.soft_drop_speed == 2_000_000u64,
            r.lock_delay == 300u64 && r.hold_limit == 1u64 && r.gravity == 1_000u64,
            !r.gravity_before_move,
    {
        EngineSettings {
            are: 0,
            arr: 16,
            das: 180,
            soft_drop_speed: 2_000_000,
            lock_delay: 300,
            hold_limit: 1,
            gravity: 1_000,
            gravity_before_move: false,
        }
    }
}

/// Options for initializing an `Engine`.
#[derive(Debug)]
pub struct EngineOptions {
    /// The playfield dimensions and spawn point.
    pub field_options: FieldOptions,
    /// Which randomizer to use: one of `bag`, `memoryless`, `gameboy`,
    /// `tgm1`, `tgm2`.
    pub randomizer_name: String,
    /// The randomizer preview bound.
    pub randomizer_lookahead: usize,
    /// Which rotation system to use: one of `srs`, `ars`, `dtet`,
    /// `tengen`.
    pub rotation_system_name: String,
    /// Which wallkick to use: one of `srs`, `empty`, `simple`, `dtet`,
    /// `tgm`, `tgm3`.
    pub wallkick_name: String,
    /// How many milliseconds one tick lasts.
    pub mspt: u64,
    /// The gameplay settings.
    pub engine_settings: EngineSettings,
}

impl Default for EngineOptions {
    /// The defaults: a default field, the 7-bag randomizer with a
    /// 7-piece preview, the SRS rotation system and wallkick, and 16 ms
    /// ticks.
    fn default() -> (r: EngineOptions)
        ensures
            r.field_options.width == 10 && r.field_options.height == 25,
            r.field_options.hidden == 3 && r.field_options.spawn == (4i32, 0i32),
            r.randomizer_name@ == "bag"@,
            r.randomizer_lookahead == 7,
            r.rotation_system_name@ == "srs"@,
            r.wallkick_name@ == "srs"@,
            r.mspt == 16u64,
            r.engine_settings.are == 0u64 && r.engine_settings.hold_limit == 1u64,
    {
        EngineOptions {
            field_options: FieldOptions::default(),
            randomizer_name: "bag".to_owned(),
            randomizer_lookahead: 7,
            rotation_system_name: "srs".to_owned(),
            wallkick_name: "srs".to_owned(),
            mspt: 16,
            engine_settings: EngineSettings::default(),
        }
    }
}



/// The grid of `g` with block `b` frozen in: the block's identity at
/// its cells, the old contents elsewhere.
pub open spec fn frozen_grid(g: Seq<Seq<Id>>, b: Block) -> Seq<Seq<Id>> {
    Seq::new(
        g.len(),
        |y: int|
            Seq::new(
                g[y].len(),
                |x: int|
                    if b.cells().contains((x, y)) {
                        b.id
                    } else {
                        g[y][x]
                    },
            ),
    )
}

/// The grid of `g` after a line clear: the completed rows are removed,
/// the survivors keep their order, and fresh empty rows of width `w`
/// fill the top.
pub open spec fn cleared_grid(g: Seq<Seq<Id>>, w: int) -> Seq<Seq<Id>> {
    let kept = g.filter(|row: Seq<Id>| row_not_full(row));
    Seq::new(
        g.len(),
        |y: int|
            if y < g.len() - kept.len() {
                Seq::new(w as nat, |x: int| Id::Empty)
            } else {
                kept[y - (g.len() - kept.len())]
            },
    )
}

/// How many completed rows a grid holds.
pub open spec fn full_row_count(g: Seq<Seq<Id>>) -> int {
    g.len() - g.filter(|row: Seq<Id>| row_not_full(row)).len()
}

/// The line counters after clearing `c` rows: the cleared count joins
/// `lines` and the matching size counter, unless nothing was cleared or
/// the counters have reached their guard near the top of their range.
/// The piece counter is not covered here.
pub open spec fn lines_accounted(pre: Statistics, post: Statistics, c: int) -> bool {
    if 1 <= c <= 4 && pre.lines + 4 <= u64::MAX {
        &&& post.lines == pre.lines + c
        &&& post.singles == pre.singles + (if c == 1 { 1int } else { 0int })
        &&& post.doubles == pre.doubles + (if c == 2 { 1int } else { 0int })
        &&& post.triples == pre.triples + (if c == 3 { 1int } else { 0int })
        &&& post.fours == pre.fours + (if c == 4 { 1int } else { 0int })
    } else {
        &&& post.lines == pre.lines
        &&& post.singles == pre.singles
        &&& post.doubles == pre.doubles
        &&& post.triples == pre.triples
        &&& post.fours == pre.fours
    }
}

/// One more recorded piece, the counter saturating at the top.
pub open spec fn piece_counted(pre: u64, post: u64) -> bool {
    post == (if pre == u64::MAX {
        u64::MAX as int
    } else {
        pre + 1
    })
}

/// Has an action fired this tick under the auto-shift schedule: on the
/// press tick, or past the charge at the repeat period (a period below
/// one tick repeats every tick)?
pub open spec fn pressed_spec(t: int, das: int, period: int) -> bool {
    t == 1 || (t >= das && (t - das) % (if period >= 1 {
        period
    } else {
        1
    }) == 0)
}

/// One attempted unit step of the active block: it moves by `(vx, vy)`
/// when the stepped position is free and stays put otherwise.
pub open spec fn step_outcome(pre: Block, post: Block, f: Field, vx: int, vy: int) -> bool {
    if !pre.spec_collides_at(f, vx, vy) {
        &&& post.id == pre.id
        &&& post.r == pre.r
        &&& post.rs == pre.rs
        &&& post.x as int == pre.x + vx
        &&& post.y as int == pre.y + vy
    } else {
        post == pre
    }
}

/// No row of the field is completely filled.
pub open spec fn no_full_rows(f: Field) -> bool {
    forall|y: int| 0 <= y < f.height ==> row_not_full(#[trigger] f.grid()[y])
}

/// At most `n` rows of the field are completely filled.
pub open spec fn full_rows_at_most(f: Field, n: int) -> bool {
    f.grid().len() - f.grid().filter(|row: Seq<Id>| row_not_full(row)).len() <= n
}

/// The tick-driven gameplay engine.
pub struct Engine {
    /// The controller consumed each tick.
    pub co: Controller,
    /// The randomizer producing the piece stream.
    pub rd: Randomizer,
    /// The wallkick policy.
    pub wk: Wallkick,
    /// The rotation system for every spawned piece.
    pub rs: RotationSystem,
    /// The field the game is played on.
    pub fd: Field,
    /// The active block.
    pub bk: Block,
    /// The held piece, if any.
    pub hd: Option<Id>,
    /// The gameplay settings.
    pub op: EngineSettings,
    /// The statistics of the current game.
    pub st: Statistics,
    /// The input history of the game.
    pub hs: History,
    /// Is the game still running?
    pub running: bool,
    /// How many milliseconds one tick lasts.
    pub mspt: u64,
    /// How many ticks have elapsed this game.
    pub tick_count: u64,
    /// Internal per-piece state.
    pub it: EngineInternal,
    /// The current game status.
    pub status: Status,
    /// The status of the previous tick.
    pub last_status: Status,
    /// How many lock events the statistics have recorded.
    pub lock_events: Ghost<nat>,
}

impl Engine {
    /// The engine invariant, preserved by every tick.
    ///
    /// Besides the components' own well-formedness it pins the gameplay
    /// laws: the line counter agrees with the per-size clear counters,
    /// the piece counter equals the number of recorded lock events, no
    /// completely filled row survives a tick, and an alive block that
    /// has seen at least one move tick never overlaps the stack.
    pub open spec fn wf(self) -> bool {
        &&& self.parts_wf()
        &&& no_full_rows(self.fd)
        &&& (self.it.need_piece ==> self.status == Status::Move)
        &&& (self.status == Status::Move && !self.it.need_piece && self.it.piece_timer > 0
            ==> !self.bk.spec_collides(self.fd))
    }

    /// The componentwise part of the invariant: every component is
    /// well-formed and the counters agree.
    pub open spec fn parts_wf(self) -> bool {
        &&& self.fd.wf()
        &&& self.co.wf()
        &&& self.rd.wf()
        &&& self.hs.wf()
        &&& self.bk.wf()
        &&& self.mspt >= 1
        &&& self.st.lines_consistent()
        &&& self.st.pieces == self.lock_events@
        &&& (self.hd matches Some(id) ==> id != Id::Empty)
        &&& (self.it.irs_flag ==> self.it.irs_rotation == Rotation::R90 || self.it.irs_rotation
            == Rotation::R270)
        &&& (self.wk == Wallkick::Srs ==> self.it.irs_rotation == Rotation::R0
            || self.it.irs_rotation == Rotation::R90 || self.it.irs_rotation == Rotation::R270)
    }

    /// Adjust a millisecond duration to ticks.
    fn ticks(&self, val: u64) -> (r: u64)
        requires
            self.mspt >= 1,
        ensures
            r == val as int / self.mspt as int,
    {
        val / self.mspt
    }

    /// Has this action fired on this tick, given its repeat rate: on its
    /// first tick, or past the delayed auto-shift charge at the rate's
    /// period.  A period shorter than one tick repeats every tick.
    fn is_pressed(&self, action: Action, rate: u64) -> (r: bool)
        requires
            self.co.wf(),
            self.mspt >= 1,
        ensures
            r == {
                let sct = self.co.time@[action.index_spec()];
                let das = self.op.das as int / self.mspt as int;
                let period = if rate as int / self.mspt as int >= 1 {
                    rate as int / self.mspt as int
                } else {
                    1int
                };
                sct == 1 || (sct >= das && (sct - das) % period == 0)
            },
    {
        let sct = self.co.time(action);
        let das = self.ticks(self.op.das);
        let period_raw = self.ticks(rate);
        let period = if period_raw >= 1 {
            period_raw
        } else {
            1
        };
        sct == 1 || (sct >= das && (sct - das) % period == 0)
    }
}

/// A sequence whose elements all satisfy the predicate filters to
/// itself.
proof fn lemma_filter_all<A>(s: Seq<A>, pred: spec_fn(A) -> bool)
    requires
        forall|i: int| 0 <= i < s.len() ==> pred(#[trigger] s[i]),
    ensures
        s.filter(pred) == s,
    decreases s.len(),
{
    reveal(Seq::filter);
    if s.len() == 0 {
        assert(s.filter(pred) =~= s);
    } else {
        lemma_filter_all(s.drop_last(), pred);
        assert(pred(s.last()));
        assert(s.filter(pred) =~= s.drop_last().push(s.last()));
        assert(s.drop_last().push(s.last()) =~= s);
    }
}

/// If every element failing the predicate has its index in the finite
/// set `bad`, then at most `bad.len()` elements are filtered out.
proof fn lemma_filter_drop_bound<A>(s: Seq<A>, pred: spec_fn(A) -> bool, bad: Set<int>)
    requires
        bad.finite(),
        forall|i: int| 0 <= i < s.len() && !pred(#[trigger] s[i]) ==> bad.contains(i),
    ensures
        s.len() - s.filter(pred).len() <= bad.len(),
    decreases s.len(),
{
    broadcast use group_set_lib_default;

    reveal(Seq::filter);
    if s.len() == 0 {
    } else {
        let last = (s.len() - 1) as int;
        if pred(s[last]) {
            lemma_filter_drop_bound(s.drop_last(), pred, bad);
        } else {
            let bad2 = bad.remove(last);
            assert(bad.contains(last));
            assert(bad2.len() == bad.len() - 1);
            assert forall|i: int|
                0 <= i < s.drop_last().len() && !pred(#[trigger] s.drop_last()[i]) implies bad2
                .contains(i) by {
                assert(s.drop_last()[i] == s[i]);
            }
            lemma_filter_drop_bound(s.drop_last(), pred, bad2);
        }
        s.drop_last().lemma_filter_len(pred);
    }
}


/// `a + b`, saturating at the top of `u64`.
fn sat_add(a: u64, b: u64) -> (r: u64)
    ensures
        r == if a + b <= u64::MAX {
            a + b
        } else {
            u64::MAX as int
        },
{
    if a <= u64::MAX - b {
        a + b
    } else {
        u64::MAX
    }
}

/// `a * b`, saturating at the top of `u64`.
fn sat_mul(a: u64, b: u64) -> (r: u64)
    ensures
        r == if a * b <= u64::MAX {
            a * b
        } else {
            u64::MAX as int
        },
{
    if b == 0 {
        0
    } else if a <= u64::MAX / b {
        proof {
            assert(a * b <= u64::MAX) by (nonlinear_arith)
                requires
                    b >= 1,
                    a <= u64::MAX as int / b as int,
            {}
        }
        a * b
    } else {
        proof {
            assert(a * b > u64::MAX) by (nonlinear_arith)
                requires
                    b >= 1,
                    a > u64::MAX as int / b as int,
            {}
        }
        u64::MAX
    }
}

/// Collision queries agree on fields with equal dimensions and grids.
proof fn lemma_same_grid_collision(f1: Field, f2: Field, cells: Seq<(int, int)>)
    requires
        f1.width == f2.width,
        f1.height == f2.height,
        f1.grid() == f2.grid(),
    ensures
        crate::block::cells_blocked(f1, cells) == crate::block::cells_blocked(f2, cells),
{
    if crate::block::cells_blocked(f1, cells) {
        let i = choose|i: int|
            0 <= i < cells.len() && crate::block::pos_blocked(f1, cells[i].0, cells[i].1);
        assert(crate::block::pos_blocked(f2, cells[i].0, cells[i].1));
    }
    if crate::block::cells_blocked(f2, cells) {
        let i = choose|i: int|
            0 <= i < cells.len() && crate::block::pos_blocked(f2, cells[i].0, cells[i].1);
        assert(crate::block::pos_blocked(f1, cells[i].0, cells[i].1));
    }
}

impl Engine {
    /// Spawn the next piece from the randomizer at the field's spawn
    /// point, in `R0`, under the engine's rotation system.
    fn do_piece_spawn(&mut self)
        requires
            old(self).rd.wf(),
        ensures
            final(self).rd.wf(),
            final(self).bk.wf(),
            final(self).bk.x == final(self).fd.spawn.0,
            final(self).bk.y == final(self).fd.spawn.1,
            final(self).bk.r == Rotation::R0,
            final(self).bk.rs == old(self).rs,
            *final(self) == (Engine { bk: final(self).bk, rd: final(self).rd, ..*old(self) }),
    {
        let id = self.rd.next();
        let mut options = BlockOptions::default();
        options.rotation_system = self.rs;
        self.bk = Block::with_options(id, &self.fd, options);
    }

    /// Swap the active piece with the held piece, drawing from the
    /// randomizer when no piece is held yet.  The incoming piece spawns
    /// at the field's spawn point in `R0`.
    fn do_hold(&mut self)
        requires
            old(self).rd.wf(),
            old(self).bk.wf(),
            (old(self).hd matches Some(id) ==> id != Id::Empty),
        ensures
            final(self).rd.wf(),
            final(self).bk.wf(),
            final(self).hd == Some(old(self).bk.id),
            final(self).bk.id == (match old(self).hd {
                Some(id) => id,
                None => final(self).bk.id,
            }),
            final(self).bk.x == final(self).fd.spawn.0,
            final(self).bk.y == final(self).fd.spawn.1,
            final(self).bk.r == Rotation::R0,
            final(self).bk.rs == old(self).rs,
            *final(self) == (Engine {
                bk: final(self).bk,
                rd: final(self).rd,
                hd: final(self).hd,
                ..*old(self)
            }),
    {
        let mut options = BlockOptions::default();
        options.rotation_system = self.rs;
        match self.hd {
            Option::None => {
                self.hd = Some(self.bk.id);
                let id = self.rd.next();
                self.bk = Block::with_options(id, &self.fd, options);
            },
            Some(held) => {
                let tmp = self.bk.id;
                self.bk = Block::with_options(held, &self.fd, options);
                self.hd = Some(tmp);
            },
        }
    }

    /// Is the freshly placed piece overlapping the stack?
    fn check_lockout(&mut self) -> (r: bool)
        requires
            old(self).fd.wf(),
            old(self).bk.wf(),
        ensures
            *final(self) == *old(self),
            r == old(self).bk.spec_collides(old(self).fd),
    {
        self.bk.collides(&self.fd)
    }

    /// Perform a hold if the hold action fired this tick and the piece
    /// still has holds left.  A swapped-in piece that overlaps the stack
    /// ends the game, as any spawn overlap does.
    fn check_hold(&mut self) -> (r: bool)
        requires
            old(self).fd.wf(),
            old(self).co.wf(),
            old(self).rd.wf(),
            old(self).bk.wf(),
            (old(self).hd matches Some(id) ==> id != Id::Empty),
            !old(self).bk.spec_collides(old(self).fd),
        ensures
            final(self).fd == old(self).fd,
            final(self).co == old(self).co,
            final(self).hs == old(self).hs,
            final(self).st == old(self).st,
            final(self).lock_events == old(self).lock_events,
            final(self).op == old(self).op,
            final(self).wk == old(self).wk,
            final(self).rs == old(self).rs,
            final(self).mspt == old(self).mspt,
            final(self).rd.wf(),
            final(self).bk.wf(),
            (final(self).hd matches Some(id) ==> id != Id::Empty),
            final(self).it == old(self).it || final(self).it == (EngineInternal {
                hold_count: final(self).it.hold_count,
                ..old(self).it
            }),
            final(self).status == old(self).status || final(self).status == Status::GameOver,
            final(self).status != Status::GameOver ==> !final(self).bk.spec_collides(
                final(self).fd,
            ) && final(self).status == old(self).status,
            final(self).it.need_piece == old(self).it.need_piece,
            final(self).it.piece_timer == old(self).it.piece_timer,
            final(self).it.irs_flag == old(self).it.irs_flag,
            final(self).it.irs_rotation == old(self).it.irs_rotation,
            final(self).running == old(self).running,
            final(self).tick_count == old(self).tick_count,
            final(self).last_status == old(self).last_status,
            r == (old(self).co.time@[Action::Hold.index_spec()] == 1 && old(self).it.hold_count
                < old(self).op.hold_limit),
            !r ==> *final(self) == *old(self),
            r ==> final(self).hd == Some(old(self).bk.id) && final(self).it.hold_count == old(self).it.hold_count + 1,
    {
        if self.co.time(Action::Hold) == 1 && self.it.hold_count < self.op.hold_limit {
            self.do_hold();
            self.it.hold_count = self.it.hold_count + 1;
            if self.bk.collides(&self.fd) {
                self.status = Status::GameOver;
            }
            true
        } else {
            false
        }
    }

    /// Perform the horizontal auto-shift movement for this tick.
    ///
    /// When both directions are held the more recent press wins, and a
    /// single shift fires once either hold has outlasted the auto-shift
    /// delay; otherwise a direction fires on its press tick and then at
    /// the auto-repeat rate once charged.
    fn check_move(&mut self) -> (r: bool)
        requires
            old(self).fd.wf(),
            old(self).co.wf(),
            old(self).bk.wf(),
            old(self).mspt >= 1,
            !old(self).bk.spec_collides(old(self).fd),
        ensures
            *final(self) == (Engine { bk: final(self).bk, ..*old(self) }),
            final(self).bk.wf(),
            final(self).bk.id == old(self).bk.id,
            final(self).bk.r == old(self).bk.r,
            final(self).bk.rs == old(self).bk.rs,
            final(self).bk.y == old(self).bk.y,
            !final(self).bk.spec_collides(old(self).fd),
            ({
                let lt = old(self).co.time@[Action::MoveLeft.index_spec()] as int;
                let rt = old(self).co.time@[Action::MoveRight.index_spec()] as int;
                let la = old(self).co.active@[Action::MoveLeft.index_spec()];
                let ra = old(self).co.active@[Action::MoveRight.index_spec()];
                let dd = old(self).op.das as int / old(self).mspt as int;
                let pp = old(self).op.arr as int / old(self).mspt as int;
                if la && ra {
                    r && (if lt > dd || rt > dd {
                        step_outcome(
                            old(self).bk,
                            final(self).bk,
                            old(self).fd,
                            if lt < rt {
                                -1int
                            } else {
                                1int
                            },
                            0,
                        )
                    } else {
                        final(self).bk == old(self).bk
                    })
                } else if pressed_spec(lt, dd, pp) {
                    r && step_outcome(old(self).bk, final(self).bk, old(self).fd, -1, 0)
                } else if pressed_spec(rt, dd, pp) {
                    r && step_outcome(old(self).bk, final(self).bk, old(self).fd, 1, 0)
                } else {
                    !r && final(self).bk == old(self).bk
                }
            }),
    {
        if self.co.active(Action::MoveLeft) && self.co.active(Action::MoveRight) {
            let action = if self.co.time(Action::MoveLeft) < self.co.time(Action::MoveRight) {
                Direction::Left
            } else {
                Direction::Right
            };
            let das = self.ticks(self.op.das);
            if self.co.time(Action::MoveLeft) > das || self.co.time(Action::MoveRight) > das {
                self.bk.shift(&self.fd, action);
            }
            true
        } else if self.is_pressed(Action::MoveLeft, self.op.arr) {
            self.bk.shift(&self.fd, Direction::Left);
            true
        } else if self.is_pressed(Action::MoveRight, self.op.arr) {
            self.bk.shift(&self.fd, Direction::Right);
            true
        } else {
            false
        }
    }

    /// Perform the rotations requested this tick: a rotate-left press
    /// turns anticlockwise, a rotate-right press clockwise, each through
    /// the engine's wallkick search; left is processed first.
    fn check_rotate(&mut self) -> (r: bool)
        requires
            old(self).fd.wf(),
            old(self).co.wf(),
            old(self).bk.wf(),
            !old(self).bk.spec_collides(old(self).fd),
        ensures
            *final(self) == (Engine { bk: final(self).bk, ..*old(self) }),
            final(self).bk.wf(),
            final(self).bk.id == old(self).bk.id,
            !final(self).bk.spec_collides(old(self).fd),
    {
        let mut r = false;
        if self.co.time(Action::RotateLeft) == 1 {
            self.bk.rotate_with_wallkick(&self.fd, self.wk, Rotation::R270);
            r = true;
        }
        if self.co.time(Action::RotateRight) == 1 {
            self.bk.rotate_with_wallkick(&self.fd, self.wk, Rotation::R90);
            r = true;
        }
        r
    }

    /// Record a lock event: the current piece counts once, with the
    /// counter saturating at the top of its range.
    fn record_lock(&mut self)
        requires
            old(self).st.pieces == old(self).lock_events@,
        ensures
            *final(self) == (Engine {
                st: final(self).st,
                lock_events: final(self).lock_events,
                ..*old(self)
            }),
            final(self).st == (Statistics { pieces: final(self).st.pieces, ..old(self).st }),
            final(self).st.pieces == final(self).lock_events@,
            piece_counted(old(self).st.pieces, final(self).st.pieces),
    {
        if self.st.pieces < u64::MAX {
            self.st.pieces = self.st.pieces + 1;
            proof {
                self.lock_events@ = self.lock_events@ + 1;
            }
        }
    }

    /// Freeze the active block into the field and account the lock.
    ///
    /// Afterwards at most four rows — the rows the block touched — can
    /// be completely filled.
    fn freeze_block(&mut self)
        requires
            old(self).fd.wf(),
            old(self).bk.wf(),
            !old(self).bk.spec_collides(old(self).fd),
            no_full_rows(old(self).fd),
            old(self).st.pieces == old(self).lock_events@,
        ensures
            *final(self) == (Engine {
                fd: final(self).fd,
                st: final(self).st,
                lock_events: final(self).lock_events,
                ..*old(self)
            }),
            final(self).fd.wf(),
            final(self).fd.width == old(self).fd.width,
            final(self).fd.height == old(self).fd.height,
            final(self).fd.hidden == old(self).fd.hidden,
            final(self).fd.spawn == old(self).fd.spawn,
            full_rows_at_most(final(self).fd, 4),
            final(self).st == (Statistics { pieces: final(self).st.pieces, ..old(self).st }),
            final(self).st.pieces == final(self).lock_events@,
            piece_counted(old(self).st.pieces, final(self).st.pieces),
            final(self).fd.grid() == frozen_grid(old(self).fd.grid(), old(self).bk),
    {
        let ghost prefd = self.fd;
        let b = self.bk;
        self.fd.freeze(b);
        proof {
            let pred = |row: Seq<Id>| row_not_full(row);
            let cells = b.cells();
            b.rs.lemma_offsets_wf(b.id, b.r);
            let bad = Set::<int>::empty().insert(cells[0].1).insert(cells[1].1).insert(
                cells[2].1,
            ).insert(cells[3].1);
            assert(bad.finite());
            assert(bad.len() <= 4);
            assert forall|y: int|
                0 <= y < self.fd.grid().len() && !pred(#[trigger] self.fd.grid()[y]) implies bad
                .contains(y) by {
                if !bad.contains(y) {
                    assert forall|x: int|
                        0 <= x < prefd.width implies #[trigger] self.fd.grid()[y][x]
                            == prefd.grid()[y][x] by {
                        if cells.contains((x, y)) {
                            let k = choose|k: int| 0 <= k < cells.len() && cells[k] == (x, y);
                            assert(bad.contains(cells[k].1));
                            assert(false);
                        }
                        assert(self.fd.cell(x, y) == prefd.cell(x, y));
                    }
                    assert(self.fd.grid()[y] =~= prefd.grid()[y]);
                    assert(row_not_full(prefd.grid()[y]));
                    assert(false);
                }
            }
            lemma_filter_drop_bound(self.fd.grid(), pred, bad);
            assert forall|y: int| 0 <= y < self.fd.grid().len() implies #[trigger] self.fd.grid()[y]
                =~= frozen_grid(prefd.grid(), b)[y] by {
                assert forall|x: int| 0 <= x < prefd.width implies #[trigger] self.fd.grid()[y][x]
                    == frozen_grid(prefd.grid(), b)[y][x] by {
                    assert(self.fd.cell(x, y) == (if b.cells().contains((x, y)) {
                        b.id
                    } else {
                        prefd.cell(x, y)
                    }));
                }
            }
            assert(self.fd.grid() =~= frozen_grid(prefd.grid(), b));
        }
        self.record_lock();
    }

    /// Perform a hard drop if the action fired this tick: send the block
    /// to the floor, freeze it, count the lock, reset the hold budget,
    /// and either enter the entry delay or request an immediate respawn.
    fn check_hard_drop(&mut self) -> (r: bool)
        requires
            old(self).fd.wf(),
            old(self).co.wf(),
            old(self).bk.wf(),
            !old(self).bk.spec_collides(old(self).fd),
            no_full_rows(old(self).fd),
            old(self).st.pieces == old(self).lock_events@,
        ensures
            r == (old(self).co.time@[Action::HardDrop.index_spec()] == 1),
            !r ==> *final(self) == *old(self),
            final(self).co == old(self).co,
            final(self).rd == old(self).rd,
            final(self).hs == old(self).hs,
            final(self).hd == old(self).hd,
            final(self).op == old(self).op,
            final(self).wk == old(self).wk,
            final(self).rs == old(self).rs,
            final(self).mspt == old(self).mspt,
            final(self).running == old(self).running,
            final(self).tick_count == old(self).tick_count,
            final(self).last_status == old(self).last_status,
            final(self).bk.wf(),
            final(self).fd.wf(),
            final(self).fd.width == old(self).fd.width,
            final(self).fd.height == old(self).fd.height,
            final(self).fd.hidden == old(self).fd.hidden,
            final(self).fd.spawn == old(self).fd.spawn,
            final(self).st == (Statistics { pieces: final(self).st.pieces, ..old(self).st }),
            final(self).st.pieces == final(self).lock_events@,
            r ==> full_rows_at_most(final(self).fd, 4),
            r ==> final(self).status == Status::Are || final(self).it.need_piece,
            r ==> final(self).it.hold_count == 0,
            r ==> piece_counted(old(self).st.pieces, final(self).st.pieces),
            r ==> exists|g: Block|
                #[trigger] dropped_from(old(self).bk, g, old(self).fd) && final(self).bk == g
                    && final(self).fd.grid() == frozen_grid(old(self).fd.grid(), g),
            !r ==> final(self).fd == old(self).fd,
            final(self).it.need_piece == old(self).it.need_piece || final(self).it.need_piece,
            final(self).it.need_piece ==> final(self).status == old(self).status || old(self).it.need_piece,
            final(self).status == old(self).status || final(self).status == Status::Are,
            final(self).it.piece_timer == old(self).it.piece_timer,
            final(self).it.irs_flag == old(self).it.irs_flag,
            final(self).it.irs_rotation == old(self).it.irs_rotation,
    {
        if self.co.time(Action::HardDrop) == 1 {
            self.bk.shift_extend(&self.fd, Direction::Down);
            proof {
                let k0 = choose|k: int|
                    0 <= k && self.bk.x as int == old(self).bk.x + k * 0 && self.bk.y as int
                        == old(self).bk.y + k * 1 && crate::block::chain_free(
                        old(self).bk,
                        old(self).fd,
                        0,
                        1,
                        k,
                    );
                assert(self.bk.x == old(self).bk.x);
                assert(self.bk.y == old(self).bk.y + k0);
                assert(crate::block::chain_free(old(self).bk, old(self).fd, 0, 1, k0));
                assert(dropped_from(old(self).bk, self.bk, old(self).fd));
            }
            self.freeze_block();
            self.it.hold_count = 0;
            if self.op.are > 0 {
                self.status = Status::Are;
            } else {
                self.it.status_timer = 0;
                self.it.need_piece = true;
            }
            true
        } else {
            false
        }
    }

    /// Advance the gravity and soft-drop accumulators and fall as many
    /// whole cells as they allow; a fall blocked by the stack or the
    /// floor starts the locking state.
    ///
    /// Soft drop adds to gravity rather than replacing it, and neither
    /// accumulator resets on hold or rotation.
    fn check_gravity_and_soft_drop(&mut self) -> (r: bool)
        requires
            old(self).fd.wf(),
            old(self).co.wf(),
            old(self).bk.wf(),
            !old(self).bk.spec_collides(old(self).fd),
        ensures
            *final(self) == (Engine { bk: final(self).bk, it: final(self).it, ..*old(self) }),
            final(self).it == (EngineInternal {
                gravity_counter: final(self).it.gravity_counter,
                soft_drop_counter: final(self).it.soft_drop_counter,
                locking: final(self).it.locking,
                ..old(self).it
            }),
            final(self).bk.wf(),
            final(self).bk.id == old(self).bk.id,
            final(self).bk.r == old(self).bk.r,
            final(self).bk.rs == old(self).bk.rs,
            final(self).bk.x == old(self).bk.x,
            final(self).bk.y >= old(self).bk.y,
            !final(self).bk.spec_collides(old(self).fd),
    {
        let add_gravity = sat_mul(self.mspt, self.op.gravity);
        self.it.gravity_counter = sat_add(self.it.gravity_counter, add_gravity);
        if self.co.active(Action::MoveDown) {
            let add_soft = sat_mul(self.mspt, self.op.soft_drop_speed);
            self.it.soft_drop_counter = sat_add(self.it.soft_drop_counter, add_soft);
        } else {
            self.it.soft_drop_counter = 0;
        }
        let ghost pre = *self;
        let mut fell = false;
        while self.it.gravity_counter >= MICRO_CELL || self.it.soft_drop_counter >= MICRO_CELL
            invariant
                pre.fd.wf(),
                pre.bk.wf(),
                *self == (Engine { bk: self.bk, it: self.it, ..pre }),
                self.it == (EngineInternal {
                    gravity_counter: self.it.gravity_counter,
                    soft_drop_counter: self.it.soft_drop_counter,
                    locking: self.it.locking,
                    ..pre.it
                }),
                self.bk.wf(),
                self.bk.id == pre.bk.id,
                self.bk.r == pre.bk.r,
                self.bk.rs == pre.bk.rs,
                self.bk.x == pre.bk.x,
                self.bk.y >= pre.bk.y,
                !self.bk.spec_collides(pre.fd),
            decreases self.it.gravity_counter + self.it.soft_drop_counter,
        {
            if !self.bk.shift(&self.fd, Direction::Down) {
                self.it.locking = true;
            }
            if self.it.gravity_counter >= MICRO_CELL {
                self.it.gravity_counter = self.it.gravity_counter - MICRO_CELL;
            }
            if self.it.soft_drop_counter >= MICRO_CELL {
                self.it.soft_drop_counter = self.it.soft_drop_counter - MICRO_CELL;
            }
            fell = true;
        }
        fell
    }

    /// Decide whether the piece locks this tick.
    ///
    /// A piece that can still fall has its lock state reset; a piece
    /// whose lock delay has expired is frozen and the engine either
    /// enters the entry delay or requests an immediate respawn.  On a
    /// hard-drop tick the drop has already frozen the piece.
    fn check_lock(&mut self, hard: bool)
        requires
            old(self).fd.wf(),
            old(self).co.wf(),
            old(self).bk.wf(),
            old(self).mspt >= 1,
            old(self).st.pieces == old(self).lock_events@,
            old(self).it.need_piece ==> old(self).status == Status::Move,
            !hard ==> !old(self).bk.spec_collides(old(self).fd) && no_full_rows(old(self).fd)
                && old(self).status == Status::Move && !old(self).it.need_piece,
            hard ==> full_rows_at_most(old(self).fd, 4),
        ensures
            final(self).co == old(self).co,
            final(self).rd == old(self).rd,
            final(self).hs == old(self).hs,
            final(self).hd == old(self).hd,
            final(self).op == old(self).op,
            final(self).wk == old(self).wk,
            final(self).rs == old(self).rs,
            final(self).mspt == old(self).mspt,
            final(self).running == old(self).running,
            final(self).tick_count == old(self).tick_count,
            final(self).last_status == old(self).last_status,
            final(self).bk == old(self).bk,
            final(self).fd.wf(),
            final(self).fd.width == old(self).fd.width,
            final(self).fd.height == old(self).fd.height,
            final(self).fd.hidden == old(self).fd.hidden,
            final(self).fd.spawn == old(self).fd.spawn,
            final(self).st == (Statistics { pieces: final(self).st.pieces, ..old(self).st }),
            final(self).st.pieces == final(self).lock_events@,
            full_rows_at_most(final(self).fd, 4),
            final(self).status == Status::Move && !final(self).it.need_piece ==> final(self).fd
                == old(self).fd && final(self).status == old(self).status
                && final(self).it.need_piece == old(self).it.need_piece,
            old(self).it.need_piece ==> final(self).it.need_piece,
            final(self).it.need_piece ==> final(self).status == Status::Move,
            final(self).status == old(self).status || final(self).status == Status::Are,
            final(self).it.piece_timer == old(self).it.piece_timer,
            final(self).it.irs_flag == old(self).it.irs_flag,
            final(self).it.irs_rotation == old(self).it.irs_rotation,
            final(self).it.hold_count == old(self).it.hold_count,
            hard ==> final(self).fd == old(self).fd && final(self).st == old(self).st
                && final(self).lock_events == old(self).lock_events,
            (!hard && old(self).bk.spec_collides_at(old(self).fd, 0, 1) && old(self).it.lock_timer as int > old(self).op.lock_delay as int / old(self).mspt as int) ==> {
                &&& piece_counted(old(self).st.pieces, final(self).st.pieces)
                &&& final(self).fd.grid() == frozen_grid(old(self).fd.grid(), old(self).bk)
                &&& (final(self).status == Status::Are || final(self).it.need_piece)
            },
            (hard || !old(self).bk.spec_collides_at(old(self).fd, 0, 1) || old(self).it.lock_timer as int <= old(self).op.lock_delay as int / old(self).mspt as int)
                ==> final(self).fd == old(self).fd && final(self).st == old(self).st,
    {
        proof {
            if !hard {
                lemma_filter_all(
                    self.fd.grid(),
                    |row: Seq<Id>| row_not_full(row),
                );
            }
        }
        if !self.bk.collides_at_offset(&self.fd, (0, 1)) {
            self.it.locking = false;
            self.it.lock_timer = 0;
        }
        let lock_delay = self.ticks(self.op.lock_delay);
        if self.it.lock_timer > lock_delay && !hard {
            self.freeze_block();
            if self.op.are > 0 {
                self.status = Status::Are;
            } else {
                self.it.status_timer = 0;
                self.it.need_piece = true;
            }
        }
        if self.it.locking {
            self.it.lock_timer = sat_add(self.it.lock_timer, 1);
        }
    }
}


impl Engine {
    /// The first frame of a fresh piece: perform the initial hold and
    /// initial rotate requested during the entry delay, then check for a
    /// spawn overlap, which ends the game.
    fn move_first_frame(&mut self) -> (go: bool)
        requires
            old(self).wf(),
            old(self).status == Status::Move,
            !old(self).it.need_piece,
        ensures
            final(self).parts_wf(),
            final(self).fd == old(self).fd,
            no_full_rows(final(self).fd),
            final(self).op == old(self).op,
            final(self).wk == old(self).wk,
            final(self).rs == old(self).rs,
            final(self).mspt == old(self).mspt,
            final(self).tick_count == old(self).tick_count,
            final(self).last_status == old(self).last_status,
            final(self).co == old(self).co,
            final(self).st == old(self).st,
            final(self).lock_events == old(self).lock_events,
            final(self).hs == old(self).hs,
            final(self).running == old(self).running,
            final(self).it.need_piece == old(self).it.need_piece,
            final(self).it.piece_timer == old(self).it.piece_timer,
            go ==> final(self).status == Status::GameOver,
            !go ==> final(self).status == Status::Move && !final(self).bk.spec_collides(
                final(self).fd,
            ),
            old(self).it.piece_timer != 0 ==> *final(self) == *old(self) && !go,
    {
        if self.it.piece_timer == 0 {
            if self.it.ihs_flag {
                self.do_hold();
                self.it.ihs_flag = false;
            }
            if self.it.irs_flag {
                let rot = self.it.irs_rotation;
                self.bk.rotate_with_wallkick(&self.fd, self.wk, rot);
                self.it.irs_flag = false;
                self.it.irs_rotation = Rotation::R0;
            }
            if self.check_lockout() {
                self.status = Status::GameOver;
                return true;
            }
            false
        } else {
            false
        }
    }

    /// The tail of a movement tick: the lock decision, line clearing
    /// with statistics accounting, the input history, the quit request,
    /// and the piece timer.
    #[verifier::rlimit(100)]
    fn finish_move_tick(&mut self, hard: bool)
        requires
            old(self).parts_wf(),
            old(self).it.need_piece ==> old(self).status == Status::Move,
            !hard ==> !old(self).bk.spec_collides(old(self).fd) && no_full_rows(old(self).fd)
                && old(self).status == Status::Move && !old(self).it.need_piece,
            hard ==> full_rows_at_most(old(self).fd, 4) && (old(self).status == Status::Are || old(self).it.need_piece),
        ensures
            final(self).wf(),
            final(self).op == old(self).op,
            final(self).wk == old(self).wk,
            final(self).rs == old(self).rs,
            final(self).mspt == old(self).mspt,
            final(self).tick_count == old(self).tick_count,
            final(self).last_status == old(self).last_status,
            final(self).co == old(self).co,
            final(self).rd == old(self).rd,
            final(self).hd == old(self).hd,
            final(self).hs.events@ == old(self).hs.events@ + crate::history::edge_events_upto(
                old(self).hs.snapshot@,
                old(self).co.active@,
                old(self).hs.tick_count,
                8,
            ),
            final(self).hs.snapshot@ == old(self).co.active@,
            final(self).running == (old(self).running && !(old(self).co.time@[
                Action::Quit.index_spec()] == 1)),
            final(self).it.piece_timer == (if old(self).it.piece_timer == u64::MAX {
                u64::MAX as int
            } else {
                old(self).it.piece_timer + 1
            }),
            final(self).it.hold_count == old(self).it.hold_count,
            final(self).status != Status::GameOver,
            hard ==> {
                &&& final(self).fd.grid() == cleared_grid(
                    old(self).fd.grid(),
                    old(self).fd.width as int,
                )
                &&& final(self).st.pieces == old(self).st.pieces
                &&& lines_accounted(old(self).st, final(self).st, full_row_count(old(self).fd.grid()))
                &&& (final(self).status == Status::Are || final(self).it.need_piece)
            },
    {
        let ghost pre_lock = *self;
        self.check_lock(hard);
        let ghost pre_clear = *self;
        let cleared = self.fd.clear_lines();
        proof {
            assert(cleared <= 4);
            if hard {
                let g = pre_clear.fd.grid();
                let w = pre_clear.fd.width as int;
                let kept = g.filter(|row: Seq<Id>| row_not_full(row));
                assert forall|y: int| 0 <= y < self.fd.grid().len() implies #[trigger] self
                    .fd.grid()[y] =~= cleared_grid(g, w)[y] by {
                    if y < g.len() - kept.len() {
                        assert(crate::field::row_all_empty(self.fd.grid()[y]));
                        assert forall|x: int| 0 <= x < w implies #[trigger] self.fd.grid()[y][x]
                            == Id::Empty by {}
                    } else {
                        assert(self.fd.grid()[y] == kept[y - (g.len() - kept.len())]);
                    }
                }
                assert(self.fd.grid() =~= cleared_grid(g, w));
            }
        }
        if cleared > 0 && self.st.lines <= u64::MAX - 4 {
            self.st.lines = self.st.lines + cleared as u64;
            if cleared == 1 {
                self.st.singles = self.st.singles + 1;
            } else if cleared == 2 {
                self.st.doubles = self.st.doubles + 1;
            } else if cleared == 3 {
                self.st.triples = self.st.triples + 1;
            } else {
                self.st.fours = self.st.fours + 1;
            }
        }
        self.hs.update(&self.co);
        if self.co.time(Action::Quit) == 1 {
            self.running = false;
        }
        self.it.piece_timer = sat_add(self.it.piece_timer, 1);
        proof {
            if self.status == Status::Move && !self.it.need_piece {
                assert(!hard) by {
                    if hard {
                        assert(pre_lock.status == Status::Are || pre_lock.it.need_piece);
                    }
                }
                assert(pre_clear.fd == pre_lock.fd);
                assert(no_full_rows(pre_clear.fd));
                lemma_filter_all(
                    pre_clear.fd.grid(),
                    |row: Seq<Id>| row_not_full(row),
                );
                assert(cleared == 0);
                assert forall|y: int| 0 <= y < self.fd.grid().len() implies #[trigger] self
                    .fd.grid()[y] == pre_clear.fd.grid()[y] by {
                    assert(self.fd.grid()[y] == pre_clear.fd.grid().filter(
                        |row: Seq<Id>| row_not_full(row),
                    )[y - 0]);
                }
                assert(self.fd.grid() =~= pre_clear.fd.grid());
                assert(!pre_lock.bk.spec_collides(pre_lock.fd));
                lemma_same_grid_collision(self.fd, pre_clear.fd, self.bk.cells());
                assert(!self.bk.spec_collides(self.fd));
            }
        }
    }

    /// One tick of the main movement phase: initial hold and rotate on
    /// the piece's first frame, the spawn-overlap lockout, hard drop,
    /// hold, rotation, movement and gravity in the configured order,
    /// the lock decision, line clearing with statistics, the input
    /// history, and the quit request.
    fn stat_move(&mut self)
        requires
            old(self).wf(),
            old(self).status == Status::Move,
            !old(self).it.need_piece,
        ensures
            final(self).wf(),
            final(self).op == old(self).op,
            final(self).wk == old(self).wk,
            final(self).rs == old(self).rs,
            final(self).mspt == old(self).mspt,
            final(self).tick_count == old(self).tick_count,
            final(self).last_status == old(self).last_status,
            final(self).co == old(self).co,
            final(self).status == Status::GameOver ==> final(self).fd == old(self).fd && final(self).st == old(self).st && final(self).hs == old(self).hs && final(self).running == old(self).running,
            final(self).status != Status::GameOver ==> {
                &&& final(self).hs.events@ == old(self).hs.events@
                    + crate::history::edge_events_upto(
                    old(self).hs.snapshot@,
                    old(self).co.active@,
                    old(self).hs.tick_count,
                    8,
                )
                &&& final(self).hs.snapshot@ == old(self).co.active@
                &&& final(self).running == (old(self).running && !(old(self).co.time@[
                    Action::Quit.index_spec()] == 1))
                &&& final(self).it.piece_timer == (if old(self).it.piece_timer == u64::MAX {
                    u64::MAX as int
                } else {
                    old(self).it.piece_timer + 1
                })
            },
            (old(self).co.time@[Action::HardDrop.index_spec()] == 1 && old(self).it.piece_timer
                > 0) ==> {
                &&& piece_counted(old(self).st.pieces, final(self).st.pieces)
                &&& final(self).it.hold_count == 0
                &&& (final(self).status == Status::Are || final(self).it.need_piece)
                &&& exists|g: Block|
                    #[trigger] dropped_from(old(self).bk, g, old(self).fd) && final(self).fd.grid() == cleared_grid(
                        frozen_grid(old(self).fd.grid(), g),
                        old(self).fd.width as int,
                    ) && lines_accounted(
                        old(self).st,
                        final(self).st,
                        full_row_count(frozen_grid(old(self).fd.grid(), g)),
                    )
            },
    {
        if self.move_first_frame() {
            return;
        }
        let hard = self.check_hard_drop();
        let ghost after_drop = *self;
        if !hard {
            self.check_hold();
            if self.status == Status::GameOver {
                return;
            }
            self.check_rotate();
            if self.op.gravity_before_move {
                self.check_gravity_and_soft_drop();
                self.check_move();
            } else {
                self.check_move();
                self.check_gravity_and_soft_drop();
            }
        }
        self.finish_move_tick(hard);
        proof {
            if old(self).co.time@[Action::HardDrop.index_spec()] == 1 && old(self).it.piece_timer > 0 {
                let g = choose|g: Block|
                    #[trigger] dropped_from(old(self).bk, g, old(self).fd) && after_drop.bk == g
                        && after_drop.fd.grid() == frozen_grid(old(self).fd.grid(), g);
                assert(self.fd.grid() == cleared_grid(
                    frozen_grid(old(self).fd.grid(), g),
                    old(self).fd.width as int,
                ));
                assert(lines_accounted(
                    old(self).st,
                    self.st,
                    full_row_count(frozen_grid(old(self).fd.grid(), g)),
                ));
            }
        }
    }

    /// One tick of the entry delay: record initial hold and rotate
    /// requests for the next piece, and end the delay once its time has
    /// elapsed.
    fn stat_are(&mut self)
        requires
            old(self).wf(),
            old(self).status == Status::Are,
        ensures
            final(self).wf(),
            final(self).op == old(self).op,
            final(self).wk == old(self).wk,
            final(self).rs == old(self).rs,
            final(self).mspt == old(self).mspt,
            final(self).tick_count == old(self).tick_count,
            final(self).last_status == old(self).last_status,
            final(self).co == old(self).co,
            final(self).fd == old(self).fd,
            final(self).st == old(self).st,
            final(self).lock_events == old(self).lock_events,
            final(self).hs == old(self).hs,
            final(self).hd == old(self).hd,
            final(self).bk == old(self).bk,
            final(self).rd == old(self).rd,
            final(self).running == old(self).running,
            final(self).it.ihs_flag == (old(self).it.ihs_flag || old(self).co.time@[
                Action::Hold.index_spec()] == 1),
            final(self).it.need_piece == (old(self).it.need_piece || old(self).it.status_timer
                > old(self).op.are as int / old(self).mspt as int),
            final(self).status == (if old(self).it.status_timer > old(self).op.are as int / old(self).mspt as int {
                Status::Move
            } else {
                old(self).status
            }),
    {
        if self.co.time(Action::Hold) == 1 {
            self.it.ihs_flag = true;
        }
        if self.co.time(Action::RotateLeft) == 1 {
            self.it.irs_flag = true;
            self.it.irs_rotation = Rotation::R270;
        }
        if self.co.time(Action::RotateRight) == 1 {
            self.it.irs_flag = true;
            self.it.irs_rotation = Rotation::R90;
        }
        let are_ticks = self.ticks(self.op.are);
        if self.it.status_timer > are_ticks {
            self.it.need_piece = true;
            self.status = Status::Move;
        }
    }

    /// The terminal phase: the game stops running.
    fn stat_gameover(&mut self)
        requires
            old(self).wf(),
        ensures
            *final(self) == (Engine { running: false, ..*old(self) }),
            final(self).wf(),
    {
        self.running = false;
    }

    /// The main update phase of the engine: advance the controller
    /// timers, spawn a piece when one is due, dispatch on the current
    /// status, and advance the status and tick counters.
    ///
    /// Each call is expected to stand for `mspt` milliseconds; it is up
    /// to the caller to schedule calls appropriately.
    pub fn update(&mut self)
        requires
            old(self).wf(),
        ensures
            final(self).wf(),
            final(self).op == old(self).op,
            final(self).wk == old(self).wk,
            final(self).rs == old(self).rs,
            final(self).mspt == old(self).mspt,
            final(self).tick_count == (if old(self).tick_count == u64::MAX {
                u64::MAX
            } else {
                (old(self).tick_count + 1) as u64
            }),
            old(self).status == Status::GameOver ==> final(self).status == Status::GameOver
                && !final(self).running && final(self).fd == old(self).fd && final(self).st
                == old(self).st && final(self).hd == old(self).hd && final(self).bk == old(self).bk && final(self).rd == old(self).rd && final(self).hs == old(self).hs,
            forall|i: int|
                0 <= i < 8 ==> ((final(self).co.time@[i] == 0u64) <==> !final(self).co.active@[i]),
            final(self).co.active@ == old(self).co.active@,
            old(self).status == Status::Are ==> {
                &&& final(self).it.ihs_flag == (old(self).it.ihs_flag || (old(self).co.active@[
                    Action::Hold.index_spec()] && old(self).co.time@[Action::Hold.index_spec()]
                    == 0))
                &&& final(self).it.need_piece == (old(self).it.status_timer as int > old(self).op.are as int / old(self).mspt as int)
                &&& final(self).status == (if old(self).it.status_timer as int > old(self).op.are as int / old(self).mspt as int {
                    Status::Move
                } else {
                    Status::Are
                })
                &&& final(self).fd == old(self).fd && final(self).st == old(self).st && final(self).hs == old(self).hs && final(self).hd == old(self).hd
            },
            (old(self).status == Status::Move && final(self).status != Status::GameOver) ==> {
                &&& final(self).hs.events@ == old(self).hs.events@
                    + crate::history::edge_events_upto(
                    old(self).hs.snapshot@,
                    old(self).co.active@,
                    old(self).hs.tick_count,
                    8,
                )
                &&& final(self).hs.snapshot@ == old(self).co.active@
                &&& final(self).running == (old(self).running && !(old(self).co.active@[
                    Action::Quit.index_spec()] && old(self).co.time@[Action::Quit.index_spec()]
                    == 0))
                &&& final(self).it.piece_timer == (if (if old(self).it.need_piece {
                    0int
                } else {
                    old(self).it.piece_timer as int
                }) == u64::MAX {
                    u64::MAX as int
                } else {
                    (if old(self).it.need_piece {
                        0int
                    } else {
                        old(self).it.piece_timer as int
                    }) + 1
                })
            },
            (old(self).status == Status::Move && !old(self).it.need_piece && old(self).it.piece_timer > 0 && old(self).co.active@[Action::HardDrop.index_spec()] && old(self).co.time@[Action::HardDrop.index_spec()] == 0) ==> {
                &&& piece_counted(old(self).st.pieces, final(self).st.pieces)
                &&& final(self).it.hold_count == 0
                &&& (final(self).status == Status::Are || final(self).it.need_piece)
                &&& exists|g: Block|
                    #[trigger] dropped_from(old(self).bk, g, old(self).fd) && final(self).fd.grid() == cleared_grid(
                        frozen_grid(old(self).fd.grid(), g),
                        old(self).fd.width as int,
                    ) && lines_accounted(
                        old(self).st,
                        final(self).st,
                        full_row_count(frozen_grid(old(self).fd.grid(), g)),
                    )
            },
    {
        self.co.update();
        self.last_status = self.status;
        if self.it.need_piece {
            self.do_piece_spawn();
            self.it.need_piece = false;
            self.it.locking = false;
            self.it.piece_timer = 0;
            self.it.hold_count = 0;
            self.it.lock_timer = 0;
            self.it.soft_drop_counter = 0;
            self.it.gravity_counter = 0;
        }
        match self.status {
            Status::Move => self.stat_move(),
            Status::Are => self.stat_are(),
            Status::GameOver => self.stat_gameover(),
        }
        if self.status != self.last_status {
            self.it.status_timer = 0;
        } else {
            self.it.status_timer = sat_add(self.it.status_timer, 1);
        }
        self.tick_count = sat_add(self.tick_count, 1);
    }

    /// Construct a new `Engine` from an `EngineOptions` value.
    ///
    /// Construction fails with [`Error::ZeroTickRate`] when the tick
    /// duration is zero, and with [`Error::UnknownName`] when the
    /// randomizer, rotation-system or wallkick name is not recognised;
    /// otherwise it succeeds.  The new engine is in the movement phase,
    /// waiting to spawn its first piece on the first update.
    pub fn new(options: EngineOptions) -> (r: Result<Engine, Error>)
        requires
            1 <= options.field_options.width <= 0x7fff_ffff,
            1 <= options.field_options.height <= 0x7fff_ffff,
        ensures
            (options.mspt >= 1 && randomizer::randomizer_of_name(options.randomizer_name@)
                is Some && rotation_system::system_of_name(options.rotation_system_name@) is Some
                && wallkick::wallkick_of_name(options.wallkick_name@) is Some) <==> r is Ok,
            r matches Err(e) ==> ((e == Error::ZeroTickRate && options.mspt == 0) || (e
                == Error::UnknownName && options.mspt >= 1)),
            r matches Ok(e) ==> {
                &&& e.wf()
                &&& e.mspt == options.mspt
                &&& e.op == options.engine_settings
                &&& Some(e.rd.kind) == randomizer::randomizer_of_name(options.randomizer_name@)
                &&& Some(e.rs) == rotation_system::system_of_name(options.rotation_system_name@)
                &&& Some(e.wk) == wallkick::wallkick_of_name(options.wallkick_name@)
                &&& e.fd.width == options.field_options.width
                &&& e.fd.height == options.field_options.height
                &&& e.fd.spawn == options.field_options.spawn
                &&& e.fd.hidden == (if options.field_options.hidden
                    < options.field_options.height {
                    options.field_options.hidden as int
                } else {
                    options.field_options.height - 1
                })
                &&& (forall|x: int, y: int|
                    0 <= x < e.fd.width && 0 <= y < e.fd.height ==> e.fd.cell(x, y) == Id::Empty)
                &&& e.status == Status::Move
                &&& e.it.need_piece
                &&& e.running
                &&& e.tick_count == 0
                &&& e.hd is None
                &&& e.st.lines == 0 && e.st.pieces == 0
                &&& e.st.singles == 0 && e.st.doubles == 0 && e.st.triples == 0 && e.st.fours
                    == 0
                &&& e.hs.events@ == Seq::<crate::history::Event>::empty()
                &&& e.hs.tick_count == 0
            },
    {
        if options.mspt == 0 {
            return Err(Error::ZeroTickRate);
        }
        let rd = match randomizer::new(options.randomizer_name.as_str(), options.randomizer_lookahead) {
            Ok(rd) => rd,
            Err(e) => {
                return Err(e);
            },
        };
        let rs = match rotation_system::new(options.rotation_system_name.as_str()) {
            Ok(rs) => rs,
            Err(e) => {
                return Err(e);
            },
        };
        let wk = match wallkick::new(options.wallkick_name.as_str()) {
            Ok(wk) => wk,
            Err(e) => {
                return Err(e);
            },
        };
        let fd = Field::with_options(options.field_options);
        proof {
            assert forall|y: int| 0 <= y < fd.height implies row_not_full(
                #[trigger] fd.grid()[y],
            ) by {
                assert(fd.cell(0, y) == Id::Empty);
            }
        }
        let bk = Block { id: Id::I, x: 0, y: 0, r: Rotation::R0, rs };
        let engine = Engine {
            co: Controller::new(),
            rd,
            wk,
            rs,
            fd,
            bk,
            hd: Option::None,
            op: options.engine_settings,
            st: Statistics::new(),
            hs: History::new(),
            running: true,
            mspt: options.mspt,
            tick_count: 0,
            it: EngineInternal {
                status_timer: 0,
                gravity_counter: 0,
                soft_drop_counter: 0,
                hold_count: 0,
                locking: false,
                lock_timer: 0,
                ihs_flag: false,
                irs_flag: false,
                irs_rotation: Rotation::R0,
                need_piece: true,
                piece_timer: 0,
            },
            status: Status::Move,
            last_status: Status::Move,
            lock_events: Ghost(0),
        };
        Ok(engine)
    }
}

} // verus!
