//! An abstract controller for specifying actions.
//!
//! The controller bridges physical input and the engine: a key press maps
//! to `activate`, a key release to `deactivate`, and once per tick
//! `update` advances the per-action hold timers.

use vstd::prelude::*;
use vstd::pervasive::VecAdditionalExecFns;

verus! {

/// Actions which are understood by the controller.
#[derive(Clone, Copy, Debug, Hash, PartialEq, Eq, Structural)]
pub enum Action {
    MoveLeft,
    MoveRight,
    MoveDown,
    HardDrop,
    RotateLeft,
    RotateRight,
    Hold,
    Quit,
}

impl Action {
    /// The small-integer index of this action, in declaration order.
    pub open spec fn index_spec(self) -> int {
        match self {
            Action::MoveLeft => 0,
            Action::MoveRight => 1,
            Action::MoveDown => 2,
            Action::HardDrop => 3,
            Action::RotateLeft => 4,
            Action::RotateRight => 5,
            Action::Hold => 6,
            Action::Quit => 7,
        }
    }

    /// Convert this action to its small-integer index.
    pub fn to_index(self) -> (r: usize)
        ensures
            r == self.index_spec(),
            r < 8,
    {
        match self {
            Action::MoveLeft => 0,
            Action::MoveRight => 1,
            Action::MoveDown => 2,
            Action::HardDrop => 3,
            Action::RotateLeft => 4,
            Action::RotateRight => 5,
            Action::Hold => 6,
            Action::Quit => 7,
        }
    }

    /// The action with the given index, in spec form.
    pub open spec fn from_index_spec(v: int) -> Action {
        if v == 0 {
            Action::MoveLeft
        } else if v == 1 {
            Action::MoveRight
        } else if v == 2 {
            Action::MoveDown
        } else if v == 3 {
            Action::HardDrop
        } else if v == 4 {
            Action::RotateLeft
        } else if v == 5 {
            Action::RotateRight
        } else if v == 6 {
            Action::Hold
        } else {
            Action::Quit
        }
    }

    /// Recover an action from its index; out-of-range values are refused.
    pub fn from_index(v: usize) -> (r: Option<Action>)
        ensures
            v < 8 ==> r == Some(Action::from_index_spec(v as int)),
            v >= 8 ==> r is None,
    {
        match v {
            0 => Some(Action::MoveLeft),
            1 => Some(Action::MoveRight),
            2 => Some(Action::MoveDown),
            3 => Some(Action::HardDrop),
            4 => Some(Action::RotateLeft),
            5 => Some(Action::RotateRight),
            6 => Some(Action::Hold),
            7 => Some(Action::Quit),
            _ => Option::None,
        }
    }
}

/// A controller stores, for each of the eight actions, whether it is
/// currently active and for how many consecutive ticks it has been held.
///
/// At its simplest this parallels the keystate of a keyboard.
#[derive(Debug)]
pub struct Controller {
    /// The length each action has occurred for, in ticks.
    pub time: Vec<u64>,
    /// Which actions are currently active.
    pub active: Vec<bool>,
}

impl Controller {
    /// Both arrays cover exactly the eight actions.
    pub open spec fn wf(self) -> bool {
        self.time@.len() == 8 && self.active@.len() == 8
    }

    /// Return a new controller instance with all actions inactive and all
    /// timers zeroed.
    pub fn new() -> (c: Controller)
        ensures
            c.wf(),
            forall|i: int| 0 <= i < 8 ==> c.time@[i] == 0u64 && !c.active@[i],
    {
        let mut time: Vec<u64> = Vec::new();
        let mut active: Vec<bool> = Vec::new();
        let mut i: usize = 0;
        while i < 8
            invariant
                time@.len() == i,
                active@.len() == i,
                i <= 8,
                forall|j: int| 0 <= j < i ==> time@[j] == 0u64 && !active@[j],
            decreases 8 - i,
        {
            time.push(0);
            active.push(false);
            i += 1;
        }
        Controller { time, active }
    }

    /// Query if an action is currently active.
    pub fn active(&self, action: Action) -> (r: bool)
        requires
            self.wf(),
        ensures
            r == self.active@[action.index_spec()],
    {
        self.active[action.to_index()]
    }

    /// Query how long an action has been active for.
    pub fn time(&self, action: Action) -> (r: u64)
        requires
            self.wf(),
        ensures
            r == self.time@[action.index_spec()],
    {
        self.time[action.to_index()]
    }

    /// Activate the specified action.  Activating an already active
    /// action has no effect.
    pub fn activate(&mut self, action: Action)
        requires
            old(self).wf(),
        ensures
            final(self).wf(),
            final(self).active@ == old(self).active@.update(action.index_spec(), true),
            final(self).time@ == old(self).time@,
    {
        let i = action.to_index();
        self.active.set(i, true);
    }

    /// Deactivate the specified action.  Deactivating an already inactive
    /// action has no effect.  The action's timer is not reset.
    pub fn deactivate(&mut self, action: Action)
        requires
            old(self).wf(),
        ensures
            final(self).wf(),
            final(self).active@ == old(self).active@.update(action.index_spec(), false),
            final(self).time@ == old(self).time@,
    {
        let i = action.to_index();
        self.active.set(i, false);
    }

    /// Deactivate all actions.  This does not reset the internal time of
    /// any action.
    pub fn deactivate_all(&mut self)
        requires
            old(self).wf(),
        ensures
            final(self).wf(),
            forall|i: int| 0 <= i < 8 ==> !final(self).active@[i],
            final(self).time@ == old(self).time@,
    {
        let mut i: usize = 0;
        while i < 8
            invariant
                old(self).wf(),
                self.wf(),
                i <= 8,
                self.time@ == old(self).time@,
                forall|j: int| 0 <= j < i ==> !self.active@[j],
            decreases 8 - i,
        {
            self.active.set(i, false);
            i += 1;
        }
    }

    /// Update all actions: an active action's timer advances by one tick,
    /// an inactive action's timer resets to zero.
    ///
    /// Afterwards a timer is zero exactly when its action is inactive; an
    /// active timer counts the consecutive ticks held, this one included.
    pub fn update(&mut self)
        requires
            old(self).wf(),
        ensures
            final(self).wf(),
            final(self).active@ == old(self).active@,
            forall|i: int|
                0 <= i < 8 ==> final(self).time@[i] == (if old(self).active@[i] {
                    if old(self).time@[i] == u64::MAX {
                        u64::MAX
                    } else {
                        (old(self).time@[i] + 1) as u64
                    }
                } else {
                    0u64
                }),
            forall|i: int|
                0 <= i < 8 ==> ((final(self).time@[i] == 0u64) <==> !final(self).active@[i]),
    {
        let mut i: usize = 0;
        while i < 8
            invariant
                old(self).wf(),
                self.wf(),
                i <= 8,
                self.active@ == old(self).active@,
                forall|j: int| i <= j < 8 ==> self.time@[j] == old(self).time@[j],
                forall|j: int|
                    0 <= j < i ==> self.time@[j] == (if old(self).active@[j] {
                        if old(self).time@[j] == u64::MAX {
                            u64::MAX
                        } else {
                            (old(self).time@[j] + 1) as u64
                        }
                    } else {
                        0u64
                    }),
            decreases 8 - i,
        {
            let t = if self.active[i] {
                let cur = self.time[i];
                if cur == u64::MAX {
                    u64::MAX
                } else {
                    cur + 1
                }
            } else {
                0
            };
            self.time.set(i, t);
            i += 1;
        }
    }
}

} // verus!
