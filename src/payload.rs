//! The boarding orchestrator: one tick of synchronisation, mode dispatch,
//! paced movement toward the targets, and sound derivation.
use vstd::prelude::*;

use crate::layout::{
    A320Cargo, A320Pax, cargo_index, cargo_max, pax_index, pax_seats, STATION_COUNT,
};
use crate::sounds::{A320BoardingSounds, SoundView, silent};
use crate::station::{
    at_target, clamp, moved_all, moved_one, published, station_wf, synced, Station, StationView,
};

verus! {

/// How fast the stations move toward their targets.
#[derive(Debug, Clone, Copy, PartialEq, Eq, Structural)]
pub enum BoardingRate {
    Instant,
    Fast,
    Real,
}

/// One gradual step of a cargo hold, in grams.
pub const CARGO_STEP_G: u64 = 60_000;

/// Weight of one passenger until told otherwise, in grams.
pub const DEFAULT_PER_PAX_WEIGHT_G: u32 = 84_000;

/// Time that must be exceeded between two progress rounds, in milliseconds.
pub open spec fn delay_ms(rate: BoardingRate) -> nat {
    match rate {
        BoardingRate::Instant => 0,
        BoardingRate::Fast => 1000,
        BoardingRate::Real => 5000,
    }
}

pub open spec fn views(v: Seq<Station>) -> Seq<StationView> {
    v.map_values(|s: Station| s@)
}

pub open spec fn all_at_target(s: Seq<StationView>) -> bool {
    forall|i: int| 0 <= i < s.len() ==> #[trigger] at_target(s[i])
}

pub open spec fn any_aboard(s: Seq<StationView>) -> bool {
    exists|i: int| 0 <= i < s.len() && #[trigger] s[i].current > 0
}

pub open spec fn any_below_target(s: Seq<StationView>) -> bool {
    exists|i: int| 0 <= i < s.len() && #[trigger] s[i].current < s[i].target
}

pub open spec fn any_above_target(s: Seq<StationView>) -> bool {
    exists|i: int| 0 <= i < s.len() && #[trigger] s[i].current > s[i].target
}

pub open spec fn sync_all(s: Seq<StationView>) -> Seq<StationView> {
    s.map_values(|x: StationView| synced(x))
}

pub open spec fn publish_all(s: Seq<StationView>) -> Seq<StationView> {
    s.map_values(|x: StationView| published(x))
}

pub open spec fn move_all_seq(s: Seq<StationView>) -> Seq<StationView> {
    s.map_values(|x: StationView| moved_all(x))
}

/// Moves the first station at or after `i` that is not at its target by one
/// step; every other station stays.
pub open spec fn step_first(s: Seq<StationView>, i: nat) -> Seq<StationView>
    decreases s.len() - i,
{
    if i >= s.len() {
        s
    } else if at_target(s[i as int]) {
        step_first(s, i + 1)
    } else {
        s.update(i as int, moved_one(s[i as int]))
    }
}

/// One progress round over a row of stations.
pub open spec fn round(s: Seq<StationView>, rate: BoardingRate) -> Seq<StationView> {
    if rate == BoardingRate::Instant {
        move_all_seq(s)
    } else {
        step_first(s, 0)
    }
}

fn sync_stations(v: &mut Vec<Station>)
    ensures
        views(final(v)@) == sync_all(views(old(v)@)),
{
    let ghost v0 = v@;
    let n = v.len();
    let mut i: usize = 0;
    while i < n
        invariant
            n == v0.len(),
            v@.len() == n,
            0 <= i <= n,
            forall|j: int| 0 <= j < i ==> #[trigger] v@[j]@ == synced(v0[j]@),
            forall|j: int| i <= j < n ==> #[trigger] v@[j] == v0[j],
        decreases n - i,
    {
        let mut s = v[i];
        if !s.is_synced() {
            s.force_sync();
        }
        v.set(i, s);
        i = i + 1;
    }
    assert(views(v@) =~= sync_all(views(v0)));
}

fn publish_stations(v: &mut Vec<Station>)
    ensures
        views(final(v)@) == publish_all(views(old(v)@)),
{
    let ghost v0 = v@;
    let n = v.len();
    let mut i: usize = 0;
    while i < n
        invariant
            n == v0.len(),
            v@.len() == n,
            0 <= i <= n,
            forall|j: int| 0 <= j < i ==> #[trigger] v@[j]@ == published(v0[j]@),
            forall|j: int| i <= j < n ==> #[trigger] v@[j] == v0[j],
        decreases n - i,
    {
        let mut s = v[i];
        s.publish();
        v.set(i, s);
        i = i + 1;
    }
    assert(views(v@) =~= publish_all(views(v0)));
}

/// Brings every station that is not at its target all the way there.
fn move_all_stations(v: &mut Vec<Station>)
    ensures
        views(final(v)@) == move_all_seq(views(old(v)@)),
{
    let ghost v0 = v@;
    let n = v.len();
    let mut i: usize = 0;
    while i < n
        invariant
            n == v0.len(),
            v@.len() == n,
            0 <= i <= n,
            forall|j: int| 0 <= j < i ==> #[trigger] v@[j]@ == moved_all(v0[j]@),
            forall|j: int| i <= j < n ==> #[trigger] v@[j] == v0[j],
        decreases n - i,
    {
        let mut s = v[i];
        if !s.at_target() {
            s.move_all();
        }
        v.set(i, s);
        i = i + 1;
    }
    assert(views(v@) =~= move_all_seq(views(v0)));
}

/// Moves the first station that is not at its target by one step, and no
/// other.
fn move_first_station(v: &mut Vec<Station>)
    ensures
        views(final(v)@) == step_first(views(old(v)@), 0),
{
    let ghost v0 = v@;
    let n = v.len();
    let mut i: usize = 0;
    while i < n
        invariant
            n == v0.len(),
            v0 == old(v)@,
            v@ == v0,
            0 <= i <= n,
            step_first(views(v0), 0) == step_first(views(v0), i as nat),
        decreases n - i,
    {
        let mut s = v[i];
        assert(views(v0)[i as int] == v0[i as int]@);
        if !s.at_target() {
            s.move_one();
            v.set(i, s);
            assert(views(v@) =~= views(v0).update(i as int, moved_one(v0[i as int]@)));
            assert(step_first(views(v0), i as nat) == views(v0).update(
                i as int,
                moved_one(v0[i as int]@),
            ));
            return;
        }
        i = i + 1;
    }
}

fn all_stations_at_target(v: &Vec<Station>) -> (r: bool)
    ensures
        r == all_at_target(views(v@)),
{
    let n = v.len();
    let mut i: usize = 0;
    while i < n
        invariant
            n == v@.len(),
            0 <= i <= n,
            forall|j: int| 0 <= j < i ==> #[trigger] at_target(v@[j]@),
        decreases n - i,
    {
        if !v[i].at_target() {
            assert(!at_target(views(v@)[i as int]));
            return false;
        }
        i = i + 1;
    }
    assert(forall|j: int| 0 <= j < n ==> views(v@)[j] == v@[j]@);
    true
}

fn any_station_aboard(v: &Vec<Station>) -> (r: bool)
    ensures
        r == any_aboard(views(v@)),
{
    let n = v.len();
    let mut i: usize = 0;
    while i < n
        invariant
            n == v@.len(),
            0 <= i <= n,
            forall|j: int| 0 <= j < i ==> #[trigger] v@[j]@.current == 0,
        decreases n - i,
    {
        if v[i].current() > 0 {
            assert(views(v@)[i as int].current > 0);
            return true;
        }
        i = i + 1;
    }
    assert(forall|j: int| 0 <= j < n ==> views(v@)[j] == v@[j]@);
    false
}

fn any_station_below_target(v: &Vec<Station>) -> (r: bool)
    ensures
        r == any_below_target(views(v@)),
{
    let n = v.len();
    let mut i: usize = 0;
    while i < n
        invariant
            n == v@.len(),
            0 <= i <= n,
            forall|j: int| 0 <= j < i ==> !(#[trigger] v@[j]@.current < v@[j]@.target),
        decreases n - i,
    {
        if v[i].current() < v[i].target() {
            assert(views(v@)[i as int].current < views(v@)[i as int].target);
            return true;
        }
        i = i + 1;
    }
    assert(forall|j: int| 0 <= j < n ==> views(v@)[j] == v@[j]@);
    false
}

fn any_station_above_target(v: &Vec<Station>) -> (r: bool)
    ensures
        r == any_above_target(views(v@)),
{
    let n = v.len();
    let mut i: usize = 0;
    while i < n
        invariant
            n == v@.len(),
            0 <= i <= n,
            forall|j: int| 0 <= j < i ==> !(#[trigger] v@[j]@.current > v@[j]@.target),
        decreases n - i,
    {
        if v[i].current() > v[i].target() {
            assert(views(v@)[i as int].current > views(v@)[i as int].target);
            return true;
        }
        i = i + 1;
    }
    assert(forall|j: int| 0 <= j < n ==> views(v@)[j] == v@[j]@);
    false
}

/// The mathematical model of the orchestrator.
pub struct PayloadView {
    /// Developer-override level; above zero the stations are frozen against
    /// their stored values.
    pub developer_state: int,
    /// Whether boarding is active.
    pub boarding: bool,
    /// Whether a ground-service integration owns the load.
    pub gsx_enabled: bool,
    pub rate: BoardingRate,
    /// Weight of one passenger, in grams.
    pub per_pax_weight: nat,
    pub pax: Seq<StationView>,
    pub cargo: Seq<StationView>,
    pub sounds: SoundView,
    /// Time accumulated since the last progress round, in milliseconds.
    pub time_ms: nat,
}

pub open spec fn payload_wf(m: PayloadView) -> bool {
    &&& m.pax.len() == STATION_COUNT
    &&& m.cargo.len() == STATION_COUNT
    &&& forall|i: int|
        0 <= i < STATION_COUNT ==> {
            &&& station_wf(#[trigger] m.pax[i])
            &&& m.pax[i].capacity == pax_seats(i)
            &&& m.pax[i].step == 1
        }
    &&& forall|i: int|
        0 <= i < STATION_COUNT ==> {
            &&& station_wf(#[trigger] m.cargo[i])
            &&& m.cargo[i].capacity == cargo_max(i)
            &&& m.cargo[i].step == CARGO_STEP_G
        }
}

pub open spec fn override_active(m: PayloadView) -> bool {
    m.developer_state > 0
}

/// Every station takes over its stored value.
pub open spec fn synchronized(m: PayloadView) -> PayloadView {
    PayloadView { pax: sync_all(m.pax), cargo: sync_all(m.cargo), ..m }
}

/// Every station's stored value takes its current load.
pub open spec fn written_back(m: PayloadView) -> PayloadView {
    PayloadView { pax: publish_all(m.pax), cargo: publish_all(m.cargo), ..m }
}

/// Autonomous driving: idle, or boarding with paced progress rounds.
pub open spec fn drive(m: PayloadView, delta_ms: nat) -> PayloadView {
    if !m.boarding {
        PayloadView {
            time_ms: 0,
            sounds: SoundView {
                boarding: false,
                deboarding: false,
                complete: false,
                ambience: any_aboard(m.pax),
            },
            ..m
        }
    } else {
        let fires = m.time_ms + delta_ms > delay_ms(m.rate);
        let pax = if fires {
            round(m.pax, m.rate)
        } else {
            m.pax
        };
        let cargo = if fires {
            round(m.cargo, m.rate)
        } else {
            m.cargo
        };
        PayloadView {
            pax,
            cargo,
            time_ms: if fires {
                0
            } else {
                m.time_ms + delta_ms
            },
            sounds: SoundView {
                boarding: any_below_target(pax),
                deboarding: any_above_target(pax),
                complete: all_at_target(pax),
                ambience: any_aboard(pax),
            },
            boarding: !(all_at_target(pax) && all_at_target(cargo)),
            ..m
        }
    }
}

/// Ground service owns the load: boarding stops and every cue goes silent.
pub open spec fn handed_over(m: PayloadView) -> PayloadView {
    PayloadView { boarding: false, sounds: silent(), ..m }
}

/// One tick: synchronisation unless frozen, then ground service or
/// autonomous driving, then the write-back of the loads unless frozen.
pub open spec fn tick(m: PayloadView, delta_ms: nat) -> PayloadView {
    let s = if override_active(m) {
        m
    } else {
        synchronized(m)
    };
    let d = if s.gsx_enabled {
        handed_over(s)
    } else {
        drive(s, delta_ms)
    };
    if override_active(m) {
        d
    } else {
        written_back(d)
    }
}

proof fn lemma_step_first_keeps(s: Seq<StationView>, i: nat)
    ensures
        step_first(s, i).len() == s.len(),
        forall|j: int|
            0 <= j < s.len() ==> {
                &&& (#[trigger] step_first(s, i)[j]).capacity == s[j].capacity
                &&& step_first(s, i)[j].step == s[j].step
                &&& step_first(s, i)[j].target == s[j].target
                &&& step_first(s, i)[j].stored == s[j].stored
                &&& (station_wf(s[j]) ==> station_wf(step_first(s, i)[j]))
            },
    decreases s.len() - i,
{
    if i < s.len() {
        if at_target(s[i as int]) {
            lemma_step_first_keeps(s, i + 1);
        } else if station_wf(s[i as int]) {
            crate::station::lemma_moved_one_bounds(s[i as int]);
        }
    }
}

pub(crate) proof fn lemma_tick_wf(m: PayloadView, delta_ms: nat)
    requires
        payload_wf(m),
    ensures
        payload_wf(tick(m, delta_ms)),
{
    let s = if override_active(m) {
        m
    } else {
        synchronized(m)
    };
    lemma_step_first_keeps(s.pax, 0);
    lemma_step_first_keeps(s.cargo, 0);
    let t = tick(m, delta_ms);
    assert forall|i: int| 0 <= i < STATION_COUNT implies {
        &&& station_wf(#[trigger] t.pax[i])
        &&& t.pax[i].capacity == pax_seats(i)
        &&& t.pax[i].step == 1
    } by {
        assert(station_wf(m.pax[i]));
    }
    assert forall|i: int| 0 <= i < STATION_COUNT implies {
        &&& station_wf(#[trigger] t.cargo[i])
        &&& t.cargo[i].capacity == cargo_max(i)
        &&& t.cargo[i].step == CARGO_STEP_G
    } by {
        assert(station_wf(m.cargo[i]));
    }
}

/// The boarding orchestrator of the aircraft.
pub struct A320Payload {
    developer_state: i8,
    is_boarding: bool,
    is_gsx_enabled: bool,
    board_rate: BoardingRate,
    per_pax_weight: u32,
    pax: Vec<Station>,
    cargo: Vec<Station>,
    boarding_sounds: A320BoardingSounds,
    time_ms: u64,
}

impl View for A320Payload {
    type V = PayloadView;

    closed spec fn view(&self) -> PayloadView {
        PayloadView {
            developer_state: self.developer_state as int,
            boarding: self.is_boarding,
            gsx_enabled: self.is_gsx_enabled,
            rate: self.board_rate,
            per_pax_weight: self.per_pax_weight as nat,
            pax: views(self.pax@),
            cargo: views(self.cargo@),
            sounds: self.boarding_sounds@,
            time_ms: self.time_ms as nat,
        }
    }
}

impl A320Payload {
    pub open spec fn wf(&self) -> bool {
        payload_wf(self@)
    }

    /// Empty cabin and holds with empty targets, boarding off, Instant rate,
    /// the default passenger weight and every cue silent.
    pub fn new() -> (r: A320Payload)
        ensures
            r.wf(),
            r@.developer_state == 0,
            !r@.boarding,
            !r@.gsx_enabled,
            r@.rate == BoardingRate::Instant,
            r@.per_pax_weight == DEFAULT_PER_PAX_WEIGHT_G as nat,
            r@.sounds == silent(),
            r@.time_ms == 0,
            forall|i: int|
                0 <= i < STATION_COUNT ==> (#[trigger] r@.pax[i]).current == 0 && r@.pax[i].target
                    == 0 && r@.pax[i].stored == 0,
            forall|i: int|
                0 <= i < STATION_COUNT ==> (#[trigger] r@.cargo[i]).current == 0
                    && r@.cargo[i].target == 0 && r@.cargo[i].stored == 0,
    {
        let mut pax: Vec<Station> = Vec::new();
        let zones = A320Pax::iterator();
        let mut k: usize = 0;
        while k < zones.len()
            invariant
                zones@ == seq![A320Pax::A, A320Pax::B, A320Pax::C, A320Pax::D],
                0 <= k <= zones@.len(),
                pax@.len() == k,
                forall|i: int|
                    0 <= i < k ==> #[trigger] pax@[i]@ == (StationView {
                        current: 0,
                        target: 0,
                        stored: 0,
                        capacity: pax_seats(i),
                        step: 1,
                    }),
            decreases zones@.len() - k,
        {
            pax.push(Station::new(zones[k].max_pax(), 1));
            k = k + 1;
        }
        let mut cargo: Vec<Station> = Vec::new();
        let holds = A320Cargo::iterator();
        let mut k: usize = 0;
        while k < holds.len()
            invariant
                holds@ == seq![
                    A320Cargo::FwdBaggage,
                    A320Cargo::AftContainer,
                    A320Cargo::AftBaggage,
                    A320Cargo::AftBulkLoose,
                ],
                0 <= k <= holds@.len(),
                cargo@.len() == k,
                forall|i: int|
                    0 <= i < k ==> #[trigger] cargo@[i]@ == (StationView {
                        current: 0,
                        target: 0,
                        stored: 0,
                        capacity: cargo_max(i),
                        step: CARGO_STEP_G as nat,
                    }),
            decreases holds@.len() - k,
        {
            cargo.push(Station::new(holds[k].max_cargo(), CARGO_STEP_G));
            k = k + 1;
        }
        let r = A320Payload {
            developer_state: 0,
            is_boarding: false,
            is_gsx_enabled: false,
            board_rate: BoardingRate::Instant,
            per_pax_weight: DEFAULT_PER_PAX_WEIGHT_G,
            pax,
            cargo,
            boarding_sounds: A320BoardingSounds::new(),
            time_ms: 0,
        };
        assert forall|i: int| 0 <= i < STATION_COUNT implies #[trigger] r@.pax[i] == r.pax@[i]@ && r@.cargo[i] == r.cargo@[i]@ by {}
        r
    }

    /// Runs one tick of `delta_ms` milliseconds of simulated time.
    pub fn update(&mut self, delta_ms: u64)
        requires
            old(self).wf(),
        ensures
            final(self).wf(),
            final(self)@ == tick(old(self)@, delta_ms as nat),
    {
        proof {
            lemma_tick_wf(self@, delta_ms as nat);
        }
        let frozen = self.is_developer_state_active();
        if !frozen {
            self.ensure_payload_sync();
        }
        if self.is_gsx_enabled() {
            self.stop_boarding();
            self.stop_all_sounds();
        } else {
            self.update_intern(delta_ms);
        }
        if !frozen {
            self.write_back_payload();
        }
    }

    fn ensure_payload_sync(&mut self)
        ensures
            final(self)@ == synchronized(old(self)@),
    {
        sync_stations(&mut self.pax);
        sync_stations(&mut self.cargo);
    }

    fn write_back_payload(&mut self)
        ensures
            final(self)@ == written_back(old(self)@),
    {
        publish_stations(&mut self.pax);
        publish_stations(&mut self.cargo);
    }

    fn update_intern(&mut self, delta_ms: u64)
        ensures
            final(self)@ == drive(old(self)@, delta_ms as nat),
    {
        if !self.is_boarding {
            self.time_ms = 0;
            self.stop_boarding_sounds();
            self.update_pax_ambience();
            return;
        }
        let delay = self.board_delay_ms();
        let fires = if self.time_ms > delay {
            true
        } else {
            delta_ms > delay - self.time_ms
        };
        if fires {
            self.time_ms = 0;
            self.update_pax();
            self.update_cargo();
        } else {
            self.time_ms = self.time_ms + delta_ms;
        }
        self.update_boarding_sounds();
        self.update_pax_ambience();
        self.update_boarding_status();
    }

    fn board_delay_ms(&self) -> (r: u64)
        ensures
            r as nat == delay_ms(self@.rate),
    {
        match self.board_rate {
            BoardingRate::Instant => 0,
            BoardingRate::Fast => 1000,
            BoardingRate::Real => 5000,
        }
    }

    /// One progress round over the passenger zones.
    fn update_pax(&mut self)
        ensures
            final(self)@ == (PayloadView { pax: round(old(self)@.pax, old(self)@.rate), ..old(self)@ }),
    {
        if self.board_rate == BoardingRate::Instant {
            move_all_stations(&mut self.pax);
        } else {
            move_first_station(&mut self.pax);
        }
    }

    /// One progress round over the cargo holds.
    fn update_cargo(&mut self)
        ensures
            final(self)@ == (PayloadView { cargo: round(old(self)@.cargo, old(self)@.rate), ..old(self)@ }),
    {
        if self.board_rate == BoardingRate::Instant {
            move_all_stations(&mut self.cargo);
        } else {
            move_first_station(&mut self.cargo);
        }
    }

    fn update_boarding_status(&mut self)
        ensures
            final(self)@ == (PayloadView {
                boarding: old(self)@.boarding && !(all_at_target(old(self)@.pax) && all_at_target(
                    old(self)@.cargo,
                )),
                ..old(self)@
            }),
    {
        if self.is_fully_loaded() {
            self.is_boarding = false;
        }
    }

    fn update_boarding_sounds(&mut self)
        ensures
            final(self)@ == (PayloadView {
                sounds: SoundView {
                    boarding: old(self)@.boarding && any_below_target(old(self)@.pax),
                    deboarding: old(self)@.boarding && any_above_target(old(self)@.pax),
                    complete: old(self)@.boarding && all_at_target(old(self)@.pax),
                    ..old(self)@.sounds
                },
                ..old(self)@
            }),
    {
        let pax_board = self.is_pax_boarding();
        self.play_sound_pax_boarding(pax_board);
        let pax_deboard = self.is_pax_deboarding();
        self.play_sound_pax_deboarding(pax_deboard);
        let pax_complete = self.is_pax_loaded() && self.is_boarding();
        self.play_sound_pax_complete(pax_complete);
    }

    fn update_pax_ambience(&mut self)
        ensures
            final(self)@ == (PayloadView {
                sounds: SoundView { ambience: any_aboard(old(self)@.pax), ..old(self)@.sounds },
                ..old(self)@
            }),
    {
        let pax_ambience = !self.has_no_pax();
        self.play_sound_pax_ambience(pax_ambience);
    }

    fn play_sound_pax_boarding(&mut self, playing: bool)
        ensures
            final(self)@ == (PayloadView {
                sounds: SoundView { boarding: playing, ..old(self)@.sounds },
                ..old(self)@
            }),
    {
        if playing {
            self.boarding_sounds.start_pax_boarding();
        } else {
            self.boarding_sounds.stop_pax_boarding();
        }
    }

    fn play_sound_pax_deboarding(&mut self, playing: bool)
        ensures
            final(self)@ == (PayloadView {
                sounds: SoundView { deboarding: playing, ..old(self)@.sounds },
                ..old(self)@
            }),
    {
        if playing {
            self.boarding_sounds.start_pax_deboarding();
        } else {
            self.boarding_sounds.stop_pax_deboarding();
        }
    }

    fn play_sound_pax_complete(&mut self, playing: bool)
        ensures
            final(self)@ == (PayloadView {
                sounds: SoundView { complete: playing, ..old(self)@.sounds },
                ..old(self)@
            }),
    {
        if playing {
            self.boarding_sounds.start_pax_complete();
        } else {
            self.boarding_sounds.stop_pax_complete();
        }
    }

    fn play_sound_pax_ambience(&mut self, playing: bool)
        ensures
            final(self)@ == (PayloadView {
                sounds: SoundView { ambience: playing, ..old(self)@.sounds },
                ..old(self)@
            }),
    {
        if playing {
            self.boarding_sounds.start_pax_ambience();
        } else {
            self.boarding_sounds.stop_pax_ambience();
        }
    }

    fn stop_boarding_sounds(&mut self)
        ensures
            final(self)@ == (PayloadView {
                sounds: SoundView {
                    boarding: false,
                    deboarding: false,
                    complete: false,
                    ..old(self)@.sounds
                },
                ..old(self)@
            }),
    {
        self.boarding_sounds.stop_pax_boarding();
        self.boarding_sounds.stop_pax_deboarding();
        self.boarding_sounds.stop_pax_complete();
    }

    fn stop_all_sounds(&mut self)
        ensures
            final(self)@ == (PayloadView { sounds: silent(), ..old(self)@ }),
    {
        self.boarding_sounds.stop_pax_boarding();
        self.boarding_sounds.stop_pax_deboarding();
        self.boarding_sounds.stop_pax_ambience();
        self.boarding_sounds.stop_pax_complete();
    }

    fn stop_boarding(&mut self)
        ensures
            final(self)@ == (PayloadView { boarding: false, ..old(self)@ }),
    {
        self.is_boarding = false;
    }

    /// Whether the developer override freezes synchronisation.
    pub fn is_developer_state_active(&self) -> (r: bool)
        ensures
            r == override_active(self@),
    {
        self.developer_state > 0
    }

    /// Whether boarding is active and some zone is below its target.
    pub fn is_pax_boarding(&self) -> (r: bool)
        ensures
            r == (self@.boarding && any_below_target(self@.pax)),
    {
        self.is_boarding && any_station_below_target(&self.pax)
    }

    /// Whether boarding is active and some zone is above its target.
    pub fn is_pax_deboarding(&self) -> (r: bool)
        ensures
            r == (self@.boarding && any_above_target(self@.pax)),
    {
        self.is_boarding && any_station_above_target(&self.pax)
    }

    /// Whether every passenger zone is at its target.
    pub fn is_pax_loaded(&self) -> (r: bool)
        ensures
            r == all_at_target(self@.pax),
    {
        all_stations_at_target(&self.pax)
    }

    /// Whether every cargo hold is at its target.
    pub fn is_cargo_loaded(&self) -> (r: bool)
        ensures
            r == all_at_target(self@.cargo),
    {
        all_stations_at_target(&self.cargo)
    }

    /// Whether every zone and every hold is at its target.
    pub fn is_fully_loaded(&self) -> (r: bool)
        ensures
            r == (all_at_target(self@.pax) && all_at_target(self@.cargo)),
    {
        self.is_pax_loaded() && self.is_cargo_loaded()
    }

    /// Whether every passenger zone is empty.
    pub fn has_no_pax(&self) -> (r: bool)
        ensures
            r == !any_aboard(self@.pax),
    {
        !any_station_aboard(&self.pax)
    }

    pub fn is_boarding(&self) -> (r: bool)
        ensures
            r == self@.boarding,
    {
        self.is_boarding
    }

    pub fn is_gsx_enabled(&self) -> (r: bool)
        ensures
            r == self@.gsx_enabled,
    {
        self.is_gsx_enabled
    }

    /// Sets the developer-override level; above zero it freezes synchronisation.
    pub fn set_developer_state(&mut self, v: i8)
        requires
            old(self).wf(),
        ensures
            final(self).wf(),
            final(self)@ == (PayloadView { developer_state: v as int, ..old(self)@ }),
    {
        self.developer_state = v;
    }

    /// Requests or cancels boarding.
    pub fn set_boarding(&mut self, v: bool)
        requires
            old(self).wf(),
        ensures
            final(self).wf(),
            final(self)@ == (PayloadView { boarding: v, ..old(self)@ }),
    {
        self.is_boarding = v;
    }

    /// Hands the load to ground service, or takes it back.
    pub fn set_gsx_enabled(&mut self, v: bool)
        requires
            old(self).wf(),
        ensures
            final(self).wf(),
            final(self)@ == (PayloadView { gsx_enabled: v, ..old(self)@ }),
    {
        self.is_gsx_enabled = v;
    }

    /// Selects the boarding rate.
    pub fn set_board_rate(&mut self, v: BoardingRate)
        requires
            old(self).wf(),
        ensures
            final(self).wf(),
            final(self)@ == (PayloadView { rate: v, ..old(self)@ }),
    {
        self.board_rate = v;
    }

    /// Sets the weight of one passenger, in grams.
    pub fn set_per_pax_weight(&mut self, v: u32)
        requires
            old(self).wf(),
        ensures
            final(self).wf(),
            final(self)@ == (PayloadView { per_pax_weight: v as nat, ..old(self)@ }),
    {
        self.per_pax_weight = v;
    }

    /// External write of a zone's stored passenger count; a count over the zone's seats is cut down to them.
    pub fn write_pax(&mut self, which: A320Pax, v: u64)
        requires
            old(self).wf(),
        ensures
            final(self).wf(),
            final(self)@ == (PayloadView {
                pax: old(self)@.pax.update(
                    pax_index(which),
                    StationView {
                        stored: clamp(v as nat, old(self)@.pax[pax_index(which)].capacity),
                        ..old(self)@.pax[pax_index(which)]
                    },
                ),
                ..old(self)@
            }),
    {
        let i = which.index();
        let mut s = self.pax[i];
        s.set_stored(v);
        self.pax.set(i, s);
        assert(views(self.pax@) =~= views(old(self).pax@).update(i as int, s@));
    }

    /// External write of a zone's target passenger count; a count over the zone's seats is cut down to them.
    pub fn write_pax_target(&mut self, which: A320Pax, v: u64)
        requires
            old(self).wf(),
        ensures
            final(self).wf(),
            final(self)@ == (PayloadView {
                pax: old(self)@.pax.update(
                    pax_index(which),
                    StationView {
                        target: clamp(v as nat, old(self)@.pax[pax_index(which)].capacity),
                        ..old(self)@.pax[pax_index(which)]
                    },
                ),
                ..old(self)@
            }),
    {
        let i = which.index();
        let mut s = self.pax[i];
        s.set_target(v);
        self.pax.set(i, s);
        assert(views(self.pax@) =~= views(old(self).pax@).update(i as int, s@));
    }

    /// External write of a hold's stored load in grams; a load over the hold's maximum is cut down to it.
    pub fn write_cargo(&mut self, which: A320Cargo, v: u64)
        requires
            old(self).wf(),
        ensures
            final(self).wf(),
            final(self)@ == (PayloadView {
                cargo: old(self)@.cargo.update(
                    cargo_index(which),
                    StationView {
                        stored: clamp(v as nat, old(self)@.cargo[cargo_index(which)].capacity),
                        ..old(self)@.cargo[cargo_index(which)]
                    },
                ),
                ..old(self)@
            }),
    {
        let i = which.index();
        let mut s = self.cargo[i];
        s.set_stored(v);
        self.cargo.set(i, s);
        assert(views(self.cargo@) =~= views(old(self).cargo@).update(i as int, s@));
    }

    /// External write of a hold's target load in grams; a load over the hold's maximum is cut down to it.
    pub fn write_cargo_target(&mut self, which: A320Cargo, v: u64)
        requires
            old(self).wf(),
        ensures
            final(self).wf(),
            final(self)@ == (PayloadView {
                cargo: old(self)@.cargo.update(
                    cargo_index(which),
                    StationView {
                        target: clamp(v as nat, old(self)@.cargo[cargo_index(which)].capacity),
                        ..old(self)@.cargo[cargo_index(which)]
                    },
                ),
                ..old(self)@
            }),
    {
        let i = which.index();
        let mut s = self.cargo[i];
        s.set_target(v);
        self.cargo.set(i, s);
        assert(views(self.cargo@) =~= views(old(self).cargo@).update(i as int, s@));
    }

    pub fn board_rate(&self) -> (r: BoardingRate)
        ensures
            r == self@.rate,
    {
        self.board_rate
    }

    /// Weight of one passenger, in grams.
    pub fn per_pax_weight(&self) -> (r: u32)
        ensures
            r as nat == self@.per_pax_weight,
    {
        self.per_pax_weight
    }

    pub fn boarding_sounds(&self) -> (r: &A320BoardingSounds)
        ensures
            r@ == self@.sounds,
    {
        &self.boarding_sounds
    }

    /// Passengers seated in a zone.
    pub fn pax_num(&self, ps: A320Pax) -> (r: u64)
        requires
            self.wf(),
        ensures
            r as nat == self@.pax[pax_index(ps)].current,
    {
        self.pax[ps.index()].current()
    }

    /// Passengers wanted in a zone.
    pub fn pax_target_num(&self, ps: A320Pax) -> (r: u64)
        requires
            self.wf(),
        ensures
            r as nat == self@.pax[pax_index(ps)].target,
    {
        self.pax[ps.index()].target()
    }

    /// Whether a zone's passenger count matches its stored value.
    pub fn pax_is_sync(&self, ps: A320Pax) -> (r: bool)
        requires
            self.wf(),
        ensures
            r == crate::station::is_synced(self@.pax[pax_index(ps)]),
    {
        self.pax[ps.index()].is_synced()
    }

    /// Weight of the passengers seated in a zone, in grams.
    pub fn pax_payload(&self, ps: A320Pax) -> (r: u64)
        requires
            self.wf(),
        ensures
            r as nat == self@.pax[pax_index(ps)].current * self@.per_pax_weight,
    {
        let n = self.pax[ps.index()].current();
        let w = self.per_pax_weight as u64;
        assert(self@.pax[pax_index(ps)] == self.pax@[pax_index(ps)]@);
        assert(station_wf(self@.pax[pax_index(ps)]));
        assert(n <= 48);
        assert(n * w <= 48 * 0xffff_ffffu64) by (nonlinear_arith)
            requires
                n <= 48,
                w <= 0xffff_ffffu64,
        ;
        n * w
    }

    /// Load in a hold, in grams.
    pub fn cargo(&self, cs: A320Cargo) -> (r: u64)
        requires
            self.wf(),
        ensures
            r as nat == self@.cargo[cargo_index(cs)].current,
    {
        self.cargo[cs.index()].current()
    }

    /// Load wanted in a hold, in grams.
    pub fn cargo_target(&self, cs: A320Cargo) -> (r: u64)
        requires
            self.wf(),
        ensures
            r as nat == self@.cargo[cargo_index(cs)].target,
    {
        self.cargo[cs.index()].target()
    }

    /// Whether a hold's load matches its stored value.
    pub fn cargo_is_sync(&self, cs: A320Cargo) -> (r: bool)
        requires
            self.wf(),
        ensures
            r == crate::station::is_synced(self@.cargo[cargo_index(cs)]),
    {
        self.cargo[cs.index()].is_synced()
    }
}

} // verus!
