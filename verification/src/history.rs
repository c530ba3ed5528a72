//! The append-only input log of a game.
//!
//! Each tick the engine hands the controller state to the history, which
//! records one event per action whose active flag changed since the last
//! snapshot: a press on a rising edge, a release on a falling edge.

use vstd::prelude::*;

use crate::controller::{Action, Controller};

verus! {

/// An individual event in a history sequence.
#[derive(Clone, Copy, Debug)]
pub struct Event {
    /// Was the event a press (`true`) or a release (`false`)?
    pub press: bool,
    /// At what tick did this event occur?
    pub ticks: u64,
    /// What action does this event concern?
    pub action: Action,
}

/// The events produced at tick `tick` for the actions with index below
/// `n`, when the previous snapshot was `snap` and the current active
/// flags are `act`: one event per changed flag, in action-index order.
pub open spec fn edge_events_upto(snap: Seq<bool>, act: Seq<bool>, tick: u64, n: nat) -> Seq<Event>
    decreases n,
{
    if n == 0 {
        Seq::empty()
    } else {
        edge_events_upto(snap, act, tick, (n - 1) as nat) + (if snap[n - 1] != act[n - 1] {
            seq![
                Event {
                    press: act[n - 1],
                    ticks: tick,
                    action: Action::from_index_spec(n - 1),
                },
            ]
        } else {
            Seq::empty()
        })
    }
}

/// Manages the input history of a particular game: an ordered sequence
/// of press and release events, derived from controller snapshots.
#[derive(Debug)]
pub struct History {
    /// Ordered sequence of historical events.
    pub events: Vec<Event>,
    /// The snapshot of active flags seen by the previous update.
    pub snapshot: Vec<bool>,
    /// How many updates this history has seen.
    pub tick_count: u64,
}

impl History {
    /// The snapshot covers exactly the eight actions.
    pub open spec fn wf(self) -> bool {
        self.snapshot@.len() == 8
    }

    /// Construct a new, empty history sequence.
    pub fn new() -> (h: History)
        ensures
            h.wf(),
            h.events@ == Seq::<Event>::empty(),
            h.tick_count == 0u64,
            forall|i: int| 0 <= i < 8 ==> !h.snapshot@[i],
    {
        let mut snapshot: Vec<bool> = Vec::new();
        let mut i: usize = 0;
        while i < 8
            invariant
                snapshot@.len() == i,
                i <= 8,
                forall|j: int| 0 <= j < i ==> !snapshot@[j],
            decreases 8 - i,
        {
            snapshot.push(false);
            i += 1;
        }
        History { events: Vec::new(), snapshot, tick_count: 0 }
    }

    /// Record the edge events between the stored snapshot and the given
    /// controller state, then remember that state and advance the tick.
    ///
    /// The tick counter saturates rather than wrap.
    pub fn update(&mut self, controller: &Controller)
        requires
            old(self).wf(),
            controller.wf(),
        ensures
            final(self).wf(),
            final(self).events@ == old(self).events@ + edge_events_upto(
                old(self).snapshot@,
                controller.active@,
                old(self).tick_count,
                8,
            ),
            final(self).snapshot@ == controller.active@,
            final(self).tick_count == (if old(self).tick_count == u64::MAX {
                u64::MAX
            } else {
                (old(self).tick_count + 1) as u64
            }),
    {
        let ghost snap = self.snapshot@;
        let ghost act = controller.active@;
        let ghost tick = self.tick_count;
        let ghost start = self.events@;
        let mut i: usize = 0;
        while i < 8
            invariant
                self.wf(),
                controller.wf(),
                snap == self.snapshot@,
                act == controller.active@,
                tick == self.tick_count,
                i <= 8,
                self.events@ == start + edge_events_upto(snap, act, tick, i as nat),
            decreases 8 - i,
        {
            let last = self.snapshot[i];
            let curr = controller.active[i];
            if last != curr {
                let action = match Action::from_index(i) {
                    Some(a) => a,
                    Option::None => Action::Quit,
                };
                self.events.push(Event { press: curr, ticks: self.tick_count, action });
            }
            proof {
                assert(edge_events_upto(snap, act, tick, (i + 1) as nat) == edge_events_upto(
                    snap,
                    act,
                    tick,
                    i as nat,
                ) + (if snap[i as int] != act[i as int] {
                    seq![
                        Event {
                            press: act[i as int],
                            ticks: tick,
                            action: Action::from_index_spec(i as int),
                        },
                    ]
                } else {
                    Seq::empty()
                }));
                assert(self.events@ =~= start + edge_events_upto(snap, act, tick, (i + 1) as nat));
            }
            i += 1;
        }
        let mut j: usize = 0;
        while j < 8
            invariant
                self.wf(),
                controller.wf(),
                act == controller.active@,
                j <= 8,
                self.events@ == start + edge_events_upto(snap, act, tick, 8),
                self.tick_count == tick,
                forall|m: int| 0 <= m < j ==> self.snapshot@[m] == act[m],
                forall|m: int| j <= m < 8 ==> self.snapshot@[m] == snap[m],
            decreases 8 - j,
        {
            let curr = controller.active[j];
            self.snapshot.set(j, curr);
            j += 1;
        }
        proof {
            assert(self.snapshot@ =~= act);
        }
        if self.tick_count != u64::MAX {
            self.tick_count = self.tick_count + 1;
        }
    }

    /// Return the recorded event sequence.
    pub fn get_sequence(&self) -> (r: &Vec<Event>)
        ensures
            r@ == self.events@,
    {
        &self.events
    }
}

} // verus!
