use a320_payload::layout::{A320Cargo, A320Pax};
use a320_payload::payload::{A320Payload, BoardingRate, DEFAULT_PER_PAX_WEIGHT_G};

/// Length of one simulation frame, in milliseconds.
const FRAME_MS: u64 = 1600;
const MINUTE_MS: u64 = 60_000;
const HOUR_MS: u64 = 60 * MINUTE_MS;

struct Bed {
    payload: A320Payload,
}

impl Bed {
    fn new() -> Bed {
        Bed { payload: A320Payload::new() }
    }

    fn init_vars(mut self) -> Bed {
        self.payload.set_board_rate(BoardingRate::Instant);
        self.payload.set_per_pax_weight(DEFAULT_PER_PAX_WEIGHT_G);
        self
    }

    fn init_vars_gsx(mut self) -> Bed {
        self.payload.set_gsx_enabled(true);
        self
    }

    fn instant_board_rate(mut self) -> Bed {
        self.payload.set_board_rate(BoardingRate::Instant);
        self
    }

    fn fast_board_rate(mut self) -> Bed {
        self.payload.set_board_rate(BoardingRate::Fast);
        self
    }

    fn real_board_rate(mut self) -> Bed {
        self.payload.set_board_rate(BoardingRate::Real);
        self
    }

    fn start_boarding(mut self) -> Bed {
        self.payload.set_boarding(true);
        self
    }

    fn stop_boarding(mut self) -> Bed {
        self.payload.set_boarding(false);
        self
    }

    fn and_run(mut self) -> Bed {
        self.payload.update(FRAME_MS);
        self
    }

    fn run_multiple_frames(&mut self, total_ms: u64) {
        let mut done = 0;
        while done < total_ms {
            let step = FRAME_MS.min(total_ms - done);
            self.payload.update(step);
            done += step;
        }
    }

    fn and_stabilize(mut self) -> Bed {
        self.run_multiple_frames(5 * MINUTE_MS);
        self
    }

    fn with_pax(mut self, ps: A320Pax, n: u64) -> Bed {
        assert!(n <= ps.max_pax());
        self.payload.write_pax(ps, n);
        self
    }

    fn with_pax_target(mut self, ps: A320Pax, n: u64) -> Bed {
        assert!(n <= ps.max_pax());
        self.payload.write_pax_target(ps, n);
        self
    }

    fn with_no_pax(mut self) -> Bed {
        for ps in A320Pax::iterator() {
            self = self.with_pax(ps, 0);
        }
        self
    }

    fn with_half_pax(mut self) -> Bed {
        for ps in A320Pax::iterator() {
            self = self.with_pax(ps, ps.max_pax() / 2);
        }
        self
    }

    fn with_full_pax(mut self) -> Bed {
        for ps in A320Pax::iterator() {
            self = self.with_pax(ps, ps.max_pax());
        }
        self
    }

    fn target_no_pax(mut self) -> Bed {
        for ps in A320Pax::iterator() {
            self = self.with_pax_target(ps, 0);
        }
        self
    }

    fn target_half_pax(mut self) -> Bed {
        for ps in A320Pax::iterator() {
            self = self.with_pax_target(ps, ps.max_pax() / 2);
        }
        self
    }

    fn target_full_pax(mut self) -> Bed {
        for ps in A320Pax::iterator() {
            self = self.with_pax_target(ps, ps.max_pax());
        }
        self
    }

    fn load_half_cargo(mut self) -> Bed {
        for cs in A320Cargo::iterator() {
            self.payload.write_cargo(cs, cs.max_cargo() / 2);
        }
        self
    }

    fn load_full_cargo(mut self) -> Bed {
        for cs in A320Cargo::iterator() {
            self.payload.write_cargo(cs, cs.max_cargo());
        }
        self
    }

    fn target_no_cargo(mut self) -> Bed {
        for cs in A320Cargo::iterator() {
            self.payload.write_cargo_target(cs, 0);
        }
        self
    }

    fn target_half_cargo(mut self) -> Bed {
        for cs in A320Cargo::iterator() {
            self.payload.write_cargo_target(cs, cs.max_cargo() / 2);
        }
        self
    }

    fn target_full_cargo(mut self) -> Bed {
        for cs in A320Cargo::iterator() {
            self.payload.write_cargo_target(cs, cs.max_cargo());
        }
        self
    }

    fn pax_num(&self, ps: A320Pax) -> u64 {
        self.payload.pax_num(ps)
    }

    fn boarding_started(&self) {
        assert!(self.payload.is_boarding());
        let sounds = self.payload.boarding_sounds();
        assert!(sounds.pax_boarding() || sounds.pax_deboarding());
    }

    fn boarding_stopped(&self) {
        assert!(!self.payload.is_boarding());
        let sounds = self.payload.boarding_sounds();
        assert!(!sounds.pax_boarding());
        assert!(!sounds.pax_deboarding());
    }

    fn sound_boarding_complete_reset(&self) {
        assert!(!self.payload.boarding_sounds().pax_complete());
    }

    fn has_sound_pax_ambience(&self) {
        assert!(self.payload.boarding_sounds().pax_ambience());
    }

    fn has_no_sound_pax_ambience(&self) {
        assert!(!self.payload.boarding_sounds().pax_ambience());
    }

    fn has_pax_fraction(&self, full: bool) {
        for ps in A320Pax::iterator() {
            let n = if full { ps.max_pax() } else { ps.max_pax() / 2 };
            assert_eq!(self.pax_num(ps), n);
            assert_eq!(
                self.payload.pax_payload(ps),
                n * self.payload.per_pax_weight() as u64
            );
        }
    }

    fn has_no_pax(&self) {
        for ps in A320Pax::iterator() {
            assert_eq!(self.pax_num(ps), 0);
            assert_eq!(self.payload.pax_payload(ps), 0);
        }
    }

    fn has_half_pax(&self) {
        self.has_pax_fraction(false);
    }

    fn has_full_pax(&self) {
        self.has_pax_fraction(true);
    }

    fn has_no_cargo(&self) {
        for cs in A320Cargo::iterator() {
            assert_eq!(self.payload.cargo(cs), 0);
        }
    }

    fn has_half_cargo(&self) {
        for cs in A320Cargo::iterator() {
            assert_eq!(self.payload.cargo(cs), cs.max_cargo() / 2);
        }
    }

    fn has_full_cargo(&self) {
        for cs in A320Cargo::iterator() {
            assert_eq!(self.payload.cargo(cs), cs.max_cargo());
        }
    }
}

fn test_bed_with() -> Bed {
    Bed::new()
}

#[test]
fn boarding_init() {
    let test_bed = test_bed_with().init_vars();
    assert_eq!(test_bed.payload.board_rate(), BoardingRate::Instant);
    assert!(!test_bed.payload.is_boarding());
    test_bed.has_no_pax();
    test_bed.has_no_cargo();
}

#[test]
fn loaded_no_pax() {
    let mut test_bed = test_bed_with().init_vars().with_no_pax().and_run();

    test_bed.has_no_pax();
    test_bed.has_no_cargo();
    test_bed.boarding_stopped();

    test_bed = test_bed.and_run();
    test_bed.has_no_sound_pax_ambience();
    test_bed.sound_boarding_complete_reset();
}

#[test]
fn loaded_full_pax() {
    let mut test_bed = test_bed_with().init_vars().with_full_pax().and_run();

    test_bed.has_full_pax();
    test_bed.has_no_cargo();
    test_bed.boarding_stopped();

    test_bed = test_bed.and_run();
    test_bed.has_sound_pax_ambience();
    test_bed.sound_boarding_complete_reset();
}

#[test]
fn loaded_half_pax() {
    let mut test_bed = test_bed_with().init_vars().with_half_pax().and_run();

    test_bed.has_half_pax();
    test_bed.has_no_cargo();
    test_bed.boarding_stopped();

    test_bed = test_bed.and_run();
    test_bed.has_sound_pax_ambience();
    test_bed.sound_boarding_complete_reset();
}

#[test]
fn loaded_no_pax_full_cargo() {
    let mut test_bed = test_bed_with()
        .init_vars()
        .with_no_pax()
        .load_full_cargo()
        .and_run();

    test_bed.has_no_pax();
    test_bed.has_full_cargo();
    test_bed.boarding_stopped();

    test_bed = test_bed.and_run();
    test_bed.has_no_sound_pax_ambience();
    test_bed.sound_boarding_complete_reset();
}

#[test]
fn loaded_no_pax_half_cargo() {
    let mut test_bed = test_bed_with()
        .init_vars()
        .with_no_pax()
        .load_half_cargo()
        .and_run();

    test_bed.has_no_pax();
    test_bed.has_half_cargo();
    test_bed.boarding_stopped();

    test_bed = test_bed.and_run();
    test_bed.has_no_sound_pax_ambience();
    test_bed.sound_boarding_complete_reset();
}

#[test]
fn loaded_half_use() {
    let mut test_bed = test_bed_with()
        .init_vars()
        .with_half_pax()
        .load_half_cargo()
        .and_run();

    test_bed.has_half_pax();
    test_bed.has_half_cargo();
    test_bed.boarding_stopped();

    test_bed = test_bed.and_run();
    test_bed.has_sound_pax_ambience();
    test_bed.sound_boarding_complete_reset();
}

#[test]
fn target_half_pre_board() {
    let mut test_bed = test_bed_with()
        .init_vars()
        .target_half_pax()
        .target_half_cargo()
        .and_run()
        .and_stabilize();

    test_bed.has_no_pax();
    test_bed.has_no_cargo();
    test_bed.boarding_stopped();

    test_bed = test_bed.and_run();
    test_bed.has_no_sound_pax_ambience();
    test_bed.sound_boarding_complete_reset();
}

#[test]
fn test_boarding_trigger_reset() {
    let test_bed = test_bed_with().init_vars().start_boarding().and_run();
    test_bed.boarding_stopped();
}

#[test]
fn target_half_pax_trigger_and_finish_board() {
    let mut test_bed = test_bed_with()
        .init_vars()
        .target_half_pax()
        .fast_board_rate()
        .start_boarding()
        .and_run()
        .and_stabilize();

    test_bed.has_half_pax();
    test_bed.has_no_cargo();
    test_bed.boarding_stopped();

    test_bed = test_bed.and_run();
    test_bed.has_sound_pax_ambience();
    test_bed.sound_boarding_complete_reset();
}

#[test]
fn target_half_pax_trigger_and_finish_board_realtime_use() {
    let mut test_bed = test_bed_with()
        .init_vars()
        .target_half_pax()
        .real_board_rate()
        .start_boarding()
        .and_run()
        .and_stabilize();

    test_bed.boarding_started();

    test_bed.run_multiple_frames(HOUR_MS);

    test_bed.has_half_pax();
    test_bed.has_no_cargo();
    test_bed.boarding_stopped();

    test_bed = test_bed.and_run();
    test_bed.has_sound_pax_ambience();
    test_bed.sound_boarding_complete_reset();
}

#[test]
fn loaded_half_idle_pending() {
    let mut test_bed = test_bed_with()
        .init_vars()
        .with_half_pax()
        .load_half_cargo()
        .instant_board_rate()
        .and_run()
        .and_stabilize();

    test_bed.run_multiple_frames(15 * MINUTE_MS);

    test_bed.has_half_pax();
    test_bed.has_half_cargo();
    test_bed.boarding_stopped();

    test_bed = test_bed.and_run();
    test_bed.has_sound_pax_ambience();
    test_bed.sound_boarding_complete_reset();
}

#[test]
fn target_half_and_board() {
    let mut test_bed = test_bed_with()
        .init_vars()
        .target_half_pax()
        .target_half_cargo()
        .fast_board_rate()
        .start_boarding()
        .and_run()
        .and_stabilize();

    test_bed.has_half_pax();
    test_bed.has_half_cargo();
    test_bed.boarding_stopped();

    test_bed = test_bed.and_run();
    test_bed.has_sound_pax_ambience();
    test_bed.sound_boarding_complete_reset();
}

#[test]
fn target_half_and_board_fifteen_minutes_idle() {
    let mut test_bed = test_bed_with()
        .init_vars()
        .target_half_pax()
        .target_half_cargo()
        .fast_board_rate()
        .start_boarding()
        .and_run();

    test_bed.boarding_started();

    test_bed.run_multiple_frames(15 * MINUTE_MS);

    test_bed.has_half_pax();
    test_bed.has_half_cargo();
    test_bed.boarding_stopped();

    test_bed = test_bed.and_run();
    test_bed.has_sound_pax_ambience();
    test_bed.sound_boarding_complete_reset();
}

#[test]
fn target_half_and_board_instant() {
    let mut test_bed = test_bed_with()
        .init_vars()
        .target_half_pax()
        .target_half_cargo()
        .instant_board_rate()
        .start_boarding()
        .and_run();

    test_bed.has_half_pax();
    test_bed.has_half_cargo();
    test_bed.boarding_stopped();

    test_bed = test_bed.and_run();
    test_bed.has_sound_pax_ambience();
    test_bed.sound_boarding_complete_reset();
}

#[test]
fn start_half_pax_target_full_pax_fast_board() {
    let mut test_bed = test_bed_with()
        .init_vars()
        .with_half_pax()
        .load_half_cargo()
        .target_full_pax()
        .target_half_cargo()
        .fast_board_rate()
        .start_boarding()
        .and_run()
        .and_stabilize();

    test_bed.has_full_pax();
    test_bed.has_half_cargo();
    test_bed.boarding_stopped();

    test_bed = test_bed.and_run();
    test_bed.has_sound_pax_ambience();
    test_bed.sound_boarding_complete_reset();
}

#[test]
fn start_half_target_full_instantly() {
    let mut test_bed = test_bed_with()
        .init_vars()
        .with_half_pax()
        .load_half_cargo()
        .target_full_pax()
        .target_full_cargo()
        .instant_board_rate()
        .start_boarding()
        .and_run();

    test_bed.has_full_pax();
    test_bed.has_full_cargo();
    test_bed.boarding_stopped();

    test_bed = test_bed.and_run();
    test_bed.has_sound_pax_ambience();
    test_bed.sound_boarding_complete_reset();
}

#[test]
fn deboard_full_pax_full_cargo_idle_pending() {
    let mut test_bed = test_bed_with()
        .init_vars()
        .with_full_pax()
        .load_full_cargo()
        .target_no_pax()
        .target_no_cargo()
        .fast_board_rate()
        .and_run()
        .and_stabilize();

    test_bed.has_full_pax();
    test_bed.has_full_cargo();
    test_bed.boarding_stopped();

    test_bed = test_bed.and_run();
    test_bed.has_sound_pax_ambience();
    test_bed.sound_boarding_complete_reset();
}

#[test]
fn deboard_full_pax_full_cargo_fast() {
    let mut test_bed = test_bed_with()
        .init_vars()
        .with_full_pax()
        .load_full_cargo()
        .target_no_pax()
        .target_no_cargo()
        .fast_board_rate()
        .start_boarding()
        .and_run()
        .and_stabilize();

    test_bed.has_no_pax();
    test_bed.has_no_cargo();
    test_bed.boarding_stopped();

    test_bed = test_bed.and_run();
    test_bed.has_no_sound_pax_ambience();
    test_bed.sound_boarding_complete_reset();
}

#[test]
fn deboard_half_pax_full_cargo_instantly() {
    let mut test_bed = test_bed_with()
        .init_vars()
        .with_half_pax()
        .load_full_cargo()
        .target_no_pax()
        .target_no_cargo()
        .instant_board_rate()
        .start_boarding()
        .and_run();

    test_bed.has_no_pax();
    test_bed.has_no_cargo();
    test_bed.boarding_stopped();

    test_bed = test_bed.and_run();
    test_bed.has_no_sound_pax_ambience();
    test_bed.sound_boarding_complete_reset();
}

#[test]
fn deboard_half_real() {
    let mut test_bed = test_bed_with()
        .init_vars()
        .with_half_pax()
        .load_half_cargo()
        .target_no_pax()
        .target_no_cargo()
        .real_board_rate()
        .start_boarding()
        .and_run()
        .and_stabilize();

    test_bed.boarding_started();

    test_bed.run_multiple_frames(HOUR_MS);

    test_bed.has_no_pax();
    test_bed.has_no_cargo();
    test_bed.boarding_stopped();

    test_bed = test_bed.and_run();
    test_bed.has_no_sound_pax_ambience();
    test_bed.sound_boarding_complete_reset();
}

#[test]
fn deboard_half_five_min_change_to_board_full_real() {
    let mut test_bed = test_bed_with()
        .init_vars()
        .with_half_pax()
        .load_half_cargo()
        .target_no_pax()
        .target_no_cargo()
        .real_board_rate()
        .start_boarding()
        .and_run()
        .and_stabilize();

    test_bed.boarding_started();

    test_bed = test_bed.target_full_pax().target_full_cargo();

    test_bed.run_multiple_frames(HOUR_MS);

    test_bed.has_full_pax();
    test_bed.has_full_cargo();
    test_bed.boarding_stopped();

    test_bed = test_bed.and_run();
    test_bed.has_sound_pax_ambience();
    test_bed.sound_boarding_complete_reset();
}

#[test]
fn deboard_half_two_min_change_instant() {
    let mut test_bed = test_bed_with()
        .init_vars()
        .with_half_pax()
        .load_half_cargo()
        .target_no_pax()
        .target_no_cargo()
        .real_board_rate()
        .start_boarding()
        .and_run()
        .and_stabilize();

    test_bed.boarding_started();

    test_bed = test_bed.instant_board_rate().and_run();

    test_bed.has_no_pax();
    test_bed.has_no_cargo();
    test_bed.boarding_stopped();

    test_bed = test_bed.and_run();
    test_bed.has_no_sound_pax_ambience();
    test_bed.sound_boarding_complete_reset();
}

#[test]
fn deboard_half_two_min_change_instant_change_units_load_full_kg() {
    let mut test_bed = test_bed_with()
        .init_vars()
        .with_half_pax()
        .load_half_cargo()
        .target_no_pax()
        .target_no_cargo()
        .real_board_rate()
        .start_boarding()
        .and_run()
        .and_stabilize();

    test_bed.boarding_started();

    test_bed = test_bed
        .init_vars()
        .target_full_cargo()
        .instant_board_rate()
        .and_run();

    test_bed.has_no_pax();
    test_bed.has_full_cargo();
    test_bed.boarding_stopped();

    test_bed = test_bed.and_run();
    test_bed.has_no_sound_pax_ambience();
    test_bed.sound_boarding_complete_reset();
}

#[test]
fn detailed_test_with_multiple_stops() {
    let mut test_bed = test_bed_with()
        .init_vars()
        .with_pax(A320Pax::A, 5)
        .with_pax(A320Pax::B, 1)
        .with_pax(A320Pax::C, 16)
        .with_pax(A320Pax::D, 42)
        .with_pax_target(A320Pax::A, 15)
        .with_pax_target(A320Pax::B, 14)
        .with_pax_target(A320Pax::C, 32)
        .with_pax_target(A320Pax::D, 12)
        .load_half_cargo()
        .real_board_rate()
        .start_boarding()
        .and_run()
        .and_stabilize();

    test_bed.boarding_started();
    test_bed = test_bed.stop_boarding().and_run();

    test_bed.boarding_stopped();

    test_bed = test_bed.start_boarding();

    assert_eq!(test_bed.pax_num(A320Pax::A), 15);
    assert_eq!(test_bed.pax_num(A320Pax::B), 14);
    assert_eq!(test_bed.pax_num(A320Pax::C), 32);
    assert_eq!(test_bed.pax_num(A320Pax::D), 34);

    test_bed.run_multiple_frames(5 * MINUTE_MS);

    assert_eq!(test_bed.pax_num(A320Pax::A), 15);
    assert_eq!(test_bed.pax_num(A320Pax::B), 14);
    assert_eq!(test_bed.pax_num(A320Pax::C), 32);
    assert_eq!(test_bed.pax_num(A320Pax::D), 12);
    test_bed.has_no_cargo();

    test_bed = test_bed
        .init_vars()
        .with_pax_target(A320Pax::A, 0)
        .with_pax_target(A320Pax::B, 0)
        .with_pax_target(A320Pax::C, 0)
        .with_pax_target(A320Pax::D, 0)
        .target_half_cargo()
        .instant_board_rate()
        .start_boarding()
        .and_run()
        .and_stabilize();

    test_bed.has_no_pax();
    test_bed.has_half_cargo();
    test_bed.boarding_stopped();

    test_bed = test_bed.and_run();
    test_bed.has_no_sound_pax_ambience();
    test_bed.sound_boarding_complete_reset();
}

#[test]
fn disable_if_gsx_enabled() {
    let mut test_bed = test_bed_with()
        .init_vars()
        .init_vars_gsx()
        .target_half_pax()
        .target_full_cargo()
        .real_board_rate()
        .start_boarding()
        .and_run()
        .and_stabilize();

    test_bed.run_multiple_frames(HOUR_MS);

    test_bed.has_no_pax();
    test_bed.has_no_cargo();
    test_bed.boarding_stopped();

    test_bed = test_bed.and_run();
    test_bed.has_no_sound_pax_ambience();
    test_bed.sound_boarding_complete_reset();
}
