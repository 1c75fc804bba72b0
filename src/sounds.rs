//! The four cabin sound cues driven by boarding progress.
use vstd::prelude::*;

verus! {

pub struct SoundView {
    pub boarding: bool,
    pub deboarding: bool,
    pub complete: bool,
    pub ambience: bool,
}

pub open spec fn silent() -> SoundView {
    SoundView { boarding: false, deboarding: false, complete: false, ambience: false }
}

pub struct A320BoardingSounds {
    pax_boarding: bool,
    pax_deboarding: bool,
    pax_complete: bool,
    pax_ambience: bool,
}

impl View for A320BoardingSounds {
    type V = SoundView;

    closed spec fn view(&self) -> SoundView {
        SoundView {
            boarding: self.pax_boarding,
            deboarding: self.pax_deboarding,
            complete: self.pax_complete,
            ambience: self.pax_ambience,
        }
    }
}

impl A320BoardingSounds {
    /// All four cues off.
    pub fn new() -> (r: A320BoardingSounds)
        ensures
            r@ == silent(),
    {
        A320BoardingSounds {
            pax_boarding: false,
            pax_deboarding: false,
            pax_complete: false,
            pax_ambience: false,
        }
    }

    pub fn start_pax_boarding(&mut self)
        ensures
            final(self)@ == (SoundView { boarding: true, ..old(self)@ }),
    {
        self.pax_boarding = true;
    }

    pub fn stop_pax_boarding(&mut self)
        ensures
            final(self)@ == (SoundView { boarding: false, ..old(self)@ }),
    {
        self.pax_boarding = false;
    }

    pub fn start_pax_deboarding(&mut self)
        ensures
            final(self)@ == (SoundView { deboarding: true, ..old(self)@ }),
    {
        self.pax_deboarding = true;
    }

    pub fn stop_pax_deboarding(&mut self)
        ensures
            final(self)@ == (SoundView { deboarding: false, ..old(self)@ }),
    {
        self.pax_deboarding = false;
    }

    pub fn start_pax_complete(&mut self)
        ensures
            final(self)@ == (SoundView { complete: true, ..old(self)@ }),
    {
        self.pax_complete = true;
    }

    pub fn stop_pax_complete(&mut self)
        ensures
            final(self)@ == (SoundView { complete: false, ..old(self)@ }),
    {
        self.pax_complete = false;
    }

    pub fn start_pax_ambience(&mut self)
        ensures
            final(self)@ == (SoundView { ambience: true, ..old(self)@ }),
    {
        self.pax_ambience = true;
    }

    pub fn stop_pax_ambience(&mut self)
        ensures
            final(self)@ == (SoundView { ambience: false, ..old(self)@ }),
    {
        self.pax_ambience = false;
    }

    pub fn pax_ambience(&self) -> (r: bool)
        ensures
            r == self@.ambience,
    {
        self.pax_ambience
    }

    pub fn pax_boarding(&self) -> (r: bool)
        ensures
            r == self@.boarding,
    {
        self.pax_boarding
    }

    pub fn pax_deboarding(&self) -> (r: bool)
        ensures
            r == self@.deboarding,
    {
        self.pax_deboarding
    }

    pub fn pax_complete(&self) -> (r: bool)
        ensures
            r == self@.complete,
    {
        self.pax_complete
    }
}

} // verus!
