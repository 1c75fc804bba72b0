//! A loading station: a passenger zone or a cargo hold.
//!
//! A station holds its current load, its target load, and the value stored
//! for it in the simulation's variable store (the authoritative value, which
//! can be edited from outside between ticks). Loads are whole units: seats
//! for a passenger zone, grams for a cargo hold.
use vstd::prelude::*;

verus! {

/// The mathematical model of a station.
pub struct StationView {
    pub current: nat,
    pub target: nat,
    pub stored: nat,
    pub capacity: nat,
    /// How far one step of gradual loading moves the current load.
    pub step: nat,
}

pub open spec fn station_wf(s: StationView) -> bool {
    &&& s.current <= s.capacity
    &&& s.target <= s.capacity
    &&& s.stored <= s.capacity
    &&& s.step > 0
}

pub open spec fn at_target(s: StationView) -> bool {
    s.current == s.target
}

pub open spec fn is_synced(s: StationView) -> bool {
    s.current == s.stored
}

/// The station after taking over its stored value.
pub open spec fn synced(s: StationView) -> StationView {
    StationView { current: s.stored, ..s }
}

/// The station after taking its stored value from its current load.
pub open spec fn published(s: StationView) -> StationView {
    StationView { stored: s.current, ..s }
}

pub open spec fn moved_all(s: StationView) -> StationView {
    StationView { current: s.target, ..s }
}

/// One step toward the target, never past it.
pub open spec fn moved_one(s: StationView) -> StationView {
    if s.current < s.target {
        if s.target - s.current <= s.step {
            StationView { current: s.target, ..s }
        } else {
            StationView { current: s.current + s.step, ..s }
        }
    } else if s.current > s.target {
        if s.current - s.target <= s.step {
            StationView { current: s.target, ..s }
        } else {
            StationView { current: (s.current - s.step) as nat, ..s }
        }
    } else {
        s
    }
}

pub open spec fn clamp(v: nat, cap: nat) -> nat {
    if v <= cap {
        v
    } else {
        cap
    }
}

#[derive(Clone, Copy)]
pub struct Station {
    current: u64,
    target: u64,
    stored: u64,
    capacity: u64,
    step: u64,
}

impl View for Station {
    type V = StationView;

    closed spec fn view(&self) -> StationView {
        StationView {
            current: self.current as nat,
            target: self.target as nat,
            stored: self.stored as nat,
            capacity: self.capacity as nat,
            step: self.step as nat,
        }
    }
}

impl Station {
    /// An empty station, with an empty target and an empty stored value.
    pub fn new(capacity: u64, step: u64) -> (r: Station)
        requires
            step > 0,
        ensures
            r@ == (StationView { current: 0, target: 0, stored: 0, capacity: capacity as nat, step: step as nat }),
    {
        Station { current: 0, target: 0, stored: 0, capacity, step }
    }

    pub fn current(&self) -> (r: u64)
        ensures
            r as nat == self@.current,
    {
        self.current
    }

    pub fn target(&self) -> (r: u64)
        ensures
            r as nat == self@.target,
    {
        self.target
    }

    pub fn stored(&self) -> (r: u64)
        ensures
            r as nat == self@.stored,
    {
        self.stored
    }

    pub fn capacity(&self) -> (r: u64)
        ensures
            r as nat == self@.capacity,
    {
        self.capacity
    }

    pub fn at_target(&self) -> (r: bool)
        ensures
            r == at_target(self@),
    {
        self.current == self.target
    }

    pub fn is_synced(&self) -> (r: bool)
        ensures
            r == is_synced(self@),
    {
        self.current == self.stored
    }

    pub fn force_sync(&mut self)
        ensures
            final(self)@ == synced(old(self)@),
    {
        self.current = self.stored;
    }

    pub fn publish(&mut self)
        ensures
            final(self)@ == published(old(self)@),
    {
        self.stored = self.current;
    }

    pub fn move_all(&mut self)
        ensures
            final(self)@ == moved_all(old(self)@),
    {
        self.current = self.target;
    }

    pub fn move_one(&mut self)
        ensures
            final(self)@ == moved_one(old(self)@),
    {
        if self.current < self.target {
            if self.target - self.current <= self.step {
                self.current = self.target;
            } else {
                self.current = self.current + self.step;
            }
        } else if self.current > self.target {
            if self.current - self.target <= self.step {
                self.current = self.target;
            } else {
                self.current = self.current - self.step;
            }
        }
    }

    /// An external write of the stored value; a value over capacity is cut
    /// down to the capacity.
    pub fn set_stored(&mut self, v: u64)
        ensures
            final(self)@ == (StationView { stored: clamp(v as nat, old(self)@.capacity), ..old(self)@ }),
    {
        self.stored = if v <= self.capacity { v } else { self.capacity };
    }

    /// An external write of the target; a value over capacity is cut down to
    /// the capacity.
    pub fn set_target(&mut self, v: u64)
        ensures
            final(self)@ == (StationView { target: clamp(v as nat, old(self)@.capacity), ..old(self)@ }),
    {
        self.target = if v <= self.capacity { v } else { self.capacity };
    }
}

/// Gradual loading never leaves the station's bounds and never overshoots.
pub proof fn lemma_moved_one_bounds(s: StationView)
    requires
        station_wf(s),
    ensures
        station_wf(moved_one(s)),
        s.current <= s.target ==> s.current <= moved_one(s).current <= s.target,
        s.current >= s.target ==> s.target <= moved_one(s).current <= s.current,
        moved_one(s).current == s.target || moved_one(s).current + s.step == s.current
            || moved_one(s).current == s.current + s.step,
{
}

} // verus!
