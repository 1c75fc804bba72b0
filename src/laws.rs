//! Laws of the boarding tick, stated over the model of the orchestrator.
use vstd::prelude::*;

use crate::layout::{cargo_max, pax_seats, STATION_COUNT};
use crate::payload::{
    all_at_target, any_above_target, any_below_target, move_all_seq, override_active,
    payload_wf, publish_all, step_first, sync_all, synchronized, tick, BoardingRate, PayloadView,
};
use crate::station::{at_target, moved_one, station_wf, StationView};

verus! {

/// The shape of a gradual round: when every station from `i` on is at its
/// target nothing moves; otherwise the first one that is not moves one step
/// and nothing else changes.
proof fn lemma_step_first_shape(s: Seq<StationView>, i: nat)
    ensures
        (forall|j: int| i <= j < s.len() ==> #[trigger] at_target(s[j])) ==> step_first(s, i)
            == s,
        !(forall|j: int| i <= j < s.len() ==> #[trigger] at_target(s[j])) ==> exists|k: int|
            i <= k < s.len() && (forall|j: int| i <= j < k ==> #[trigger] at_target(s[j]))
                && !at_target(s[k]) && step_first(s, i) == s.update(k, moved_one(s[k])),
    decreases s.len() - i,
{
    if i < s.len() {
        lemma_step_first_shape(s, i + 1);
        if !at_target(s[i as int]) {
            assert(forall|j: int| i <= j < i ==> #[trigger] at_target(s[j]));
        } else if !(forall|j: int| i + 1 <= j < s.len() ==> #[trigger] at_target(s[j])) {
            let k = choose|k: int|
                i + 1 <= k < s.len() && (forall|j: int| i + 1 <= j < k ==> #[trigger] at_target(s[j]))
                    && !at_target(s[k]) && step_first(s, i + 1) == s.update(k, moved_one(s[k]));
            assert(forall|j: int| i <= j < k ==> #[trigger] at_target(s[j]));
        }
    }
}

/// A round over stations that are all at their targets changes nothing.
proof fn lemma_settled_round(s: Seq<StationView>, rate: BoardingRate)
    requires
        all_at_target(s),
    ensures
        crate::payload::round(s, rate) == s,
{
    lemma_step_first_shape(s, 0);
    assert forall|i: int| 0 <= i < s.len() implies #[trigger] move_all_seq(s)[i] == s[i] by {
        assert(at_target(s[i]));
    }
    assert(move_all_seq(s) =~= s);
}

proof fn lemma_settled_sync(s: Seq<StationView>)
    requires
        forall|i: int| 0 <= i < s.len() ==> (#[trigger] s[i]).stored == s[i].current,
    ensures
        sync_all(s) == s,
        publish_all(s) == s,
{
    assert(sync_all(s) =~= s);
    assert(publish_all(s) =~= s);
}

/// After any tick every passenger zone and every cargo hold holds no less
/// than nothing and no more than its capacity, and the orchestrator stays
/// well formed.
pub proof fn lemma_tick_keeps_loads_in_bounds(m: PayloadView, delta_ms: nat)
    requires
        payload_wf(m),
    ensures
        payload_wf(tick(m, delta_ms)),
        forall|i: int|
            0 <= i < STATION_COUNT ==> (#[trigger] tick(m, delta_ms).pax[i]).current <= pax_seats(
                i,
            ),
        forall|i: int|
            0 <= i < STATION_COUNT ==> (#[trigger] tick(m, delta_ms).cargo[i]).current <= cargo_max(
                i,
            ),
{
    crate::payload::lemma_tick_wf(m, delta_ms);
    let t = tick(m, delta_ms);
    assert forall|i: int| 0 <= i < STATION_COUNT implies (#[trigger] t.pax[i]).current
        <= pax_seats(i) by {
        assert(station_wf(t.pax[i]));
    }
    assert forall|i: int| 0 <= i < STATION_COUNT implies (#[trigger] t.cargo[i]).current
        <= cargo_max(i) by {
        assert(station_wf(t.cargo[i]));
    }
}

/// Once a tick has left every station at its target, a further tick changes
/// no station and leaves the boarding, deboarding and completion cues off.
pub proof fn lemma_settled_tick_is_idle(m: PayloadView, first_ms: nat, next_ms: nat)
    requires
        payload_wf(m),
        all_at_target(tick(m, first_ms).pax),
        all_at_target(tick(m, first_ms).cargo),
    ensures
        tick(tick(m, first_ms), next_ms).pax == tick(m, first_ms).pax,
        tick(tick(m, first_ms), next_ms).cargo == tick(m, first_ms).cargo,
        !tick(tick(m, first_ms), next_ms).sounds.boarding,
        !tick(tick(m, first_ms), next_ms).sounds.deboarding,
        !tick(tick(m, first_ms), next_ms).sounds.complete,
{
    let t1 = tick(m, first_ms);
    let s = if override_active(m) {
        m
    } else {
        synchronized(m)
    };
    if !s.gsx_enabled && s.boarding {
        let d = crate::payload::drive(s, first_ms);
        assert forall|i: int| 0 <= i < d.pax.len() implies #[trigger] at_target(d.pax[i]) by {
            assert(at_target(t1.pax[i]));
        }
        assert forall|i: int| 0 <= i < d.cargo.len() implies #[trigger] at_target(d.cargo[i]) by {
            assert(at_target(t1.cargo[i]));
        }
    }
    assert(!t1.boarding);
    if !override_active(t1) {
        lemma_settled_sync(t1.pax);
        lemma_settled_sync(t1.cargo);
    }
}

/// Under the Instant rate, a boarding tick that adds any time at all brings
/// every passenger zone and every cargo hold to its target in one round and
/// ends boarding.
pub proof fn lemma_instant_tick_reaches_targets(m: PayloadView, delta_ms: nat)
    requires
        payload_wf(m),
        m.rate == BoardingRate::Instant,
        m.boarding,
        !m.gsx_enabled,
        m.time_ms + delta_ms > 0,
    ensures
        all_at_target(tick(m, delta_ms).pax),
        all_at_target(tick(m, delta_ms).cargo),
        forall|i: int|
            0 <= i < STATION_COUNT ==> (#[trigger] tick(m, delta_ms).pax[i]).target
                == m.pax[i].target,
        forall|i: int|
            0 <= i < STATION_COUNT ==> (#[trigger] tick(m, delta_ms).cargo[i]).target
                == m.cargo[i].target,
        !tick(m, delta_ms).boarding,
{
}

/// Under the Fast rate, a boarding tick moves passengers only when the
/// accumulated time exceeds one second, and then moves exactly one passenger
/// one seat toward the target, at the first zone in order that is not at its
/// target; the zones before it are all at their targets and no other zone
/// changes.
pub proof fn lemma_fast_tick_moves_one_pax(m: PayloadView, delta_ms: nat)
    requires
        payload_wf(m),
        m.rate == BoardingRate::Fast,
        m.boarding,
        !m.gsx_enabled,
    ensures
        ({
            let s = if override_active(m) {
                m.pax
            } else {
                synchronized(m).pax
            };
            let t = tick(m, delta_ms).pax;
            &&& t.len() == s.len()
            &&& (m.time_ms + delta_ms <= 1000 || all_at_target(s)) ==> forall|i: int|
                0 <= i < s.len() ==> (#[trigger] t[i]).current == s[i].current
            &&& (m.time_ms + delta_ms > 1000 && !all_at_target(s)) ==> exists|k: int|
                0 <= k < s.len() && (forall|j: int| 0 <= j < k ==> #[trigger] at_target(s[j]))
                    && !at_target(s[k]) && (if s[k].current < s[k].target {
                    t[k].current == s[k].current + 1
                } else {
                    t[k].current + 1 == s[k].current
                }) && (forall|j: int| 0 <= j < s.len() && j != k ==> (#[trigger] t[j]).current
                    == s[j].current)
        }),
{
    let s = if override_active(m) {
        m.pax
    } else {
        synchronized(m).pax
    };
    lemma_step_first_shape(s, 0);
    let fires = m.time_ms + delta_ms > 1000;
    let moved = if fires {
        step_first(s, 0)
    } else {
        s
    };
    let t = tick(m, delta_ms).pax;
    assert(t.len() == moved.len());
    assert forall|i: int| 0 <= i < t.len() implies (#[trigger] t[i]).current == moved[i].current by {}
    if m.time_ms + delta_ms > 1000 && !all_at_target(s) {
        let k = choose|k: int|
            0 <= k < s.len() && (forall|j: int| 0 <= j < k ==> #[trigger] at_target(s[j]))
                && !at_target(s[k]) && step_first(s, 0) == s.update(k, moved_one(s[k]));
        assert(s[k].step == 1);
        assert(t[k].current == moved_one(s[k]).current);
        assert(if s[k].current < s[k].target {
            t[k].current == s[k].current + 1
        } else {
            t[k].current + 1 == s[k].current
        });
        assert forall|j: int| 0 <= j < s.len() && j != k implies (#[trigger] t[j]).current
            == s[j].current by {
            assert(moved[j] == s[j]);
        }
    } else {
        assert forall|i: int| 0 <= i < s.len() implies (#[trigger] t[i]).current
            == s[i].current by {
            assert(moved[i] == s[i]);
        }
    }
}

/// When every station's target and stored value equal its current load, a
/// tick sets neither the boarding nor the deboarding cue, and sets the
/// completion cue only when boarding was requested without ground service.
pub proof fn lemma_nothing_pending_sets_no_cue(m: PayloadView, delta_ms: nat)
    requires
        payload_wf(m),
        forall|i: int|
            0 <= i < STATION_COUNT ==> (#[trigger] m.pax[i]).target == m.pax[i].current
                && m.pax[i].stored == m.pax[i].current,
        forall|i: int|
            0 <= i < STATION_COUNT ==> (#[trigger] m.cargo[i]).target == m.cargo[i].current
                && m.cargo[i].stored == m.cargo[i].current,
    ensures
        !tick(m, delta_ms).sounds.boarding,
        !tick(m, delta_ms).sounds.deboarding,
        !(m.boarding && !m.gsx_enabled) ==> !tick(m, delta_ms).sounds.complete,
{
    lemma_settled_sync(m.pax);
    lemma_settled_sync(m.cargo);
    lemma_settled_round(m.pax, m.rate);
    lemma_settled_round(m.cargo, m.rate);
}

} // verus!
