//! Crew economy: planets gather waiting crew over time, and a ship that
//! arrives takes all of it on board.
use vstd::prelude::*;
use crate::entity::{Planet, Ship};

verus! {

/// The mean time between crew arrivals on a planet, in microseconds: the
/// inverse of an accrual rate of one crew member per 100 seconds.
pub const CREW_ACCRUAL_PERIOD_US: u64 = 100000000;

/// A crew member arrives when a uniform sample in `[0, 1)` (here the word
/// `sample` over `2^32`), scaled by the accrual period, is below the time
/// elapsed since the last arrival.
pub open spec fn crew_arrives(sample: u32, elapsed_us: u64, period_us: u64) -> bool {
    sample * period_us < elapsed_us * 0x1_0000_0000
}

/// The planet after one accrual step of `dt_us` microseconds with the given
/// random word: either one more crew member waiting and the clock reset, or
/// the clock advanced (saturating at the largest representable time).
pub open spec fn accrued(p: Planet, sample: u32, dt_us: u64, period_us: u64) -> Planet {
    if crew_arrives(sample, p.time_since_last_crew_update, period_us) {
        Planet {
            crew_waiting: if p.crew_waiting < u32::MAX {
                (p.crew_waiting + 1) as u32
            } else {
                u32::MAX
            },
            time_since_last_crew_update: 0,
            ..p
        }
    } else {
        Planet {
            time_since_last_crew_update: if p.time_since_last_crew_update + dt_us <= u64::MAX {
                (p.time_since_last_crew_update + dt_us) as u64
            } else {
                u64::MAX
            },
            ..p
        }
    }
}

/// One accrual step of a planet, with `sample` as the uniform random word.
pub fn accrue(planet: &mut Planet, sample: u32, dt_us: u64, period_us: u64)
    ensures
        *final(planet) == accrued(*old(planet), sample, dt_us, period_us),
        final(planet).crew_waiting >= old(planet).crew_waiting,
{
    assert(sample * period_us <= u32::MAX * u64::MAX) by (nonlinear_arith);
    let scaled: u128 = sample as u128 * period_us as u128;
    let elapsed: u128 = (planet.time_since_last_crew_update as u128) * 0x1_0000_0000;
    if scaled < elapsed {
        planet.crew_waiting = planet.crew_waiting.saturating_add(1);
        planet.time_since_last_crew_update = 0;
    } else {
        planet.time_since_last_crew_update = planet.time_since_last_crew_update.saturating_add(dt_us);
    }
}

/// The ship after a hand-off at `planet`: whatever it carried is unloaded,
/// and it carries the planet's whole queue instead.
pub open spec fn ship_after_hand_off(ship: Ship, planet: Planet) -> Ship {
    Ship { crewmembers: planet.crew_waiting, ..ship }
}

/// The planet after a hand-off: nobody is left waiting.
pub open spec fn planet_after_hand_off(planet: Planet) -> Planet {
    Planet { crew_waiting: 0, ..planet }
}

/// Transfers the planet's waiting crew onto the ship, discarding what the
/// ship carried before.
pub fn hand_off(ship: &mut Ship, planet: &mut Planet)
    ensures
        *final(ship) == ship_after_hand_off(*old(ship), *old(planet)),
        *final(planet) == planet_after_hand_off(*old(planet)),
        final(ship).crewmembers == old(planet).crew_waiting,
        final(planet).crew_waiting == 0,
{
    ship.crewmembers = planet.crew_waiting;
    planet.crew_waiting = 0;
}

} // verus!
