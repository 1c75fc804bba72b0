//! The fixed passenger-zone and cargo-hold layout of the aircraft.
use vstd::prelude::*;

verus! {

// Capacities of the four passenger zones, in seats.
pub const PAX_A_SEATS: u64 = 36;
pub const PAX_B_SEATS: u64 = 42;
pub const PAX_C_SEATS: u64 = 48;
pub const PAX_D_SEATS: u64 = 48;

// Maximum loads of the four cargo holds, in grams.
pub const FWD_BAGGAGE_MAX_G: u64 = 3_402_000;
pub const AFT_CONTAINER_MAX_G: u64 = 2_426_000;
pub const AFT_BAGGAGE_MAX_G: u64 = 2_110_000;
pub const AFT_BULK_LOOSE_MAX_G: u64 = 1_497_000;

/// The number of passenger zones, and of cargo holds.
pub const STATION_COUNT: usize = 4;

/// One passenger zone of the cabin.
#[derive(Debug, Clone, Copy, PartialEq, Eq, Structural)]
pub enum A320Pax {
    A,
    B,
    C,
    D,
}

/// One cargo hold.
#[derive(Debug, Clone, Copy, PartialEq, Eq, Structural)]
pub enum A320Cargo {
    FwdBaggage,
    AftContainer,
    AftBaggage,
    AftBulkLoose,
}

pub open spec fn pax_index(ps: A320Pax) -> int {
    match ps {
        A320Pax::A => 0,
        A320Pax::B => 1,
        A320Pax::C => 2,
        A320Pax::D => 3,
    }
}

pub open spec fn pax_seats(i: int) -> nat {
    if i == 0 {
        PAX_A_SEATS as nat
    } else if i == 1 {
        PAX_B_SEATS as nat
    } else if i == 2 {
        PAX_C_SEATS as nat
    } else {
        PAX_D_SEATS as nat
    }
}

pub open spec fn cargo_index(cs: A320Cargo) -> int {
    match cs {
        A320Cargo::FwdBaggage => 0,
        A320Cargo::AftContainer => 1,
        A320Cargo::AftBaggage => 2,
        A320Cargo::AftBulkLoose => 3,
    }
}

pub open spec fn cargo_max(i: int) -> nat {
    if i == 0 {
        FWD_BAGGAGE_MAX_G as nat
    } else if i == 1 {
        AFT_CONTAINER_MAX_G as nat
    } else if i == 2 {
        AFT_BAGGAGE_MAX_G as nat
    } else {
        AFT_BULK_LOOSE_MAX_G as nat
    }
}

impl A320Pax {
    /// The passenger zones in boarding order.
    pub fn iterator() -> (r: Vec<A320Pax>)
        ensures
            r@ == seq![A320Pax::A, A320Pax::B, A320Pax::C, A320Pax::D],
    {
        vec![A320Pax::A, A320Pax::B, A320Pax::C, A320Pax::D]
    }

    /// Position of the zone in boarding order.
    pub fn index(self) -> (r: usize)
        ensures
            r as int == pax_index(self),
    {
        match self {
            A320Pax::A => 0,
            A320Pax::B => 1,
            A320Pax::C => 2,
            A320Pax::D => 3,
        }
    }

    /// Number of seats in the zone.
    pub fn max_pax(self) -> (r: u64)
        ensures
            r as nat == pax_seats(pax_index(self)),
    {
        match self {
            A320Pax::A => PAX_A_SEATS,
            A320Pax::B => PAX_B_SEATS,
            A320Pax::C => PAX_C_SEATS,
            A320Pax::D => PAX_D_SEATS,
        }
    }
}

impl A320Cargo {
    /// The cargo holds in loading order.
    pub fn iterator() -> (r: Vec<A320Cargo>)
        ensures
            r@ == seq![
                A320Cargo::FwdBaggage,
                A320Cargo::AftContainer,
                A320Cargo::AftBaggage,
                A320Cargo::AftBulkLoose,
            ],
    {
        vec![
            A320Cargo::FwdBaggage,
            A320Cargo::AftContainer,
            A320Cargo::AftBaggage,
            A320Cargo::AftBulkLoose,
        ]
    }

    /// Position of the hold in loading order.
    pub fn index(self) -> (r: usize)
        ensures
            r as int == cargo_index(self),
    {
        match self {
            A320Cargo::FwdBaggage => 0,
            A320Cargo::AftContainer => 1,
            A320Cargo::AftBaggage => 2,
            A320Cargo::AftBulkLoose => 3,
        }
    }

    /// Maximum load of the hold, in grams.
    pub fn max_cargo(self) -> (r: u64)
        ensures
            r as nat == cargo_max(cargo_index(self)),
    {
        match self {
            A320Cargo::FwdBaggage => FWD_BAGGAGE_MAX_G,
            A320Cargo::AftContainer => AFT_CONTAINER_MAX_G,
            A320Cargo::AftBaggage => AFT_BAGGAGE_MAX_G,
            A320Cargo::AftBulkLoose => AFT_BULK_LOOSE_MAX_G,
        }
    }
}

} // verus!
