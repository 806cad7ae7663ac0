//! Laws that relate the library's operations, proved over their contracts.
use vstd::prelude::*;
use crate::geometry::{Point, dist_sq};
use crate::entity::{Planet, Ship, PLANET_DIAMETER};
use crate::orbit::{collides_with_any, too_close};
use crate::crew::{accrued, crew_arrives};
use crate::navigation::{arrives_now, ship_after_step, target_after_step};
use crate::orbit::{advanced_phase, ORBITAL_SPEED};
use crate::world::{placement_accepted, orbits_apart, new_planet};

verus! {

/// An accepted placement is at least a planet's diameter away from every
/// placed planet, and so is its orbit; added to planets whose orbits are
/// pairwise apart, all orbits stay pairwise apart.
pub proof fn lemma_placement_keeps_planets_apart(
    placed: Seq<Planet>,
    id: u64,
    radius: u64,
    phase: u64,
    pos: Point,
)
    requires
        placement_accepted(placed, radius, pos),
        forall|i: int, j: int|
            0 <= i < placed.len() && 0 <= j < placed.len() && i != j ==> orbits_apart(
                #[trigger] placed[i],
                #[trigger] placed[j],
            ),
    ensures
        forall|i: int|
            0 <= i < placed.len() ==> dist_sq(#[trigger] placed[i].position, pos) >= PLANET_DIAMETER
                * PLANET_DIAMETER,
        forall|i: int, j: int|
            0 <= i < placed.len() + 1 && 0 <= j < placed.len() + 1 && i != j ==> orbits_apart(
                #[trigger] placed.push(new_planet(id, radius, phase, pos))[i],
                #[trigger] placed.push(new_planet(id, radius, phase, pos))[j],
            ),
{
    let all = placed.push(new_planet(id, radius, phase, pos));
    assert forall|i: int| 0 <= i < placed.len() implies dist_sq(
        #[trigger] placed[i].position,
        pos,
    ) >= PLANET_DIAMETER * PLANET_DIAMETER && orbits_apart(placed[i], all[placed.len() as int])
        && orbits_apart(all[placed.len() as int], placed[i]) by {
        if dist_sq(placed[i].position, pos) < PLANET_DIAMETER * PLANET_DIAMETER || !orbits_apart(
            placed[i],
            all[placed.len() as int],
        ) {
            assert(collides_with_any(placed, radius, pos));
        }
    }
    assert forall|i: int, j: int|
        0 <= i < placed.len() + 1 && 0 <= j < placed.len() + 1 && i != j implies orbits_apart(
            #[trigger] all[i],
            #[trigger] all[j],
        ) by {
        if i < placed.len() && j < placed.len() {
            assert(all[i] == placed[i] && all[j] == placed[j]);
        } else if i < placed.len() {
            assert(all[i] == placed[i]);
        } else {
            assert(all[j] == placed[j]);
        }
    }
}

/// Planets cover the same arc length per tick, so the planet on the smaller
/// orbit turns by the larger angle (while neither phase saturates).
pub proof fn lemma_smaller_orbit_turns_faster(pa: u64, ra: u64, pb: u64, rb: u64, dt_us: u64)
    requires
        0 < ra <= rb,
        pa + dt_us * ORBITAL_SPEED / (ra as int) <= u64::MAX,
        pb + dt_us * ORBITAL_SPEED / (rb as int) <= u64::MAX,
    ensures
        advanced_phase(pa, ra, dt_us) - pa == dt_us * ORBITAL_SPEED / (ra as int),
        advanced_phase(pb, rb, dt_us) - pb == dt_us * ORBITAL_SPEED / (rb as int),
        advanced_phase(pa, ra, dt_us) - pa >= advanced_phase(pb, rb, dt_us) - pb,
{
    assert(dt_us * ORBITAL_SPEED >= 0) by (nonlinear_arith);
    vstd::arithmetic::div_mod::lemma_div_is_ordered_by_denominator(
        dt_us * ORBITAL_SPEED,
        ra as int,
        rb as int,
    );
}

/// Every planet of `s` was accepted by placement given the planets before it.
pub open spec fn accepted_in_order(s: Seq<Planet>) -> bool {
    forall|j: int|
        0 <= j < s.len() ==> placement_accepted(s.take(j), (#[trigger] s[j]).orbital_radius, s[j].position)
}

/// Appending a planet that placement accepts keeps a sequence accepted in
/// order; so each successful placement extends such a sequence.
pub proof fn lemma_accepted_in_order_push(s: Seq<Planet>, p: Planet)
    requires
        accepted_in_order(s),
        placement_accepted(s, p.orbital_radius, p.position),
    ensures
        accepted_in_order(s.push(p)),
{
    let t = s.push(p);
    assert forall|j: int| 0 <= j < t.len() implies placement_accepted(
        t.take(j),
        (#[trigger] t[j]).orbital_radius,
        t[j].position,
    ) by {
        if j < s.len() {
            assert(t.take(j) =~= s.take(j));
            assert(t[j] == s[j]);
        } else {
            assert(t.take(j) =~= s);
        }
    }
}

/// In any sequence of accepted placements, no two planets were closer than
/// a planet's diameter, and no two orbits are.
pub proof fn lemma_accepted_planets_apart(s: Seq<Planet>)
    requires
        accepted_in_order(s),
    ensures
        forall|i: int, j: int|
            0 <= i < s.len() && 0 <= j < s.len() && i != j ==> dist_sq(
                (#[trigger] s[i]).position,
                (#[trigger] s[j]).position,
            ) >= PLANET_DIAMETER * PLANET_DIAMETER && orbits_apart(s[i], s[j]),
{
    assert forall|i: int, j: int| 0 <= i < s.len() && 0 <= j < s.len() && i != j implies dist_sq(
        (#[trigger] s[i]).position,
        (#[trigger] s[j]).position,
    ) >= PLANET_DIAMETER * PLANET_DIAMETER && orbits_apart(s[i], s[j]) by {
        let lo = if i < j { i } else { j };
        let hi = if i < j { j } else { i };
        assert(placement_accepted(s.take(hi), s[hi].orbital_radius, s[hi].position));
        assert(s.take(hi)[lo] == s[lo]);
        if too_close(s[lo], s[hi].orbital_radius, s[hi].position) {
            assert(too_close(s.take(hi)[lo], s[hi].orbital_radius, s[hi].position));
        }
        lemma_dist_sq_symmetric(s[i].position, s[j].position);
    }
}

proof fn lemma_dist_sq_symmetric(a: Point, b: Point)
    ensures
        dist_sq(a, b) == dist_sq(b, a),
{
    assert((a.x - b.x) * (a.x - b.x) == (b.x - a.x) * (b.x - a.x)) by (nonlinear_arith);
    assert((a.y - b.y) * (a.y - b.y) == (b.y - a.y) * (b.y - a.y)) by (nonlinear_arith);
}

/// The planet after one accrual step per word of `samples`, in order.
pub open spec fn accrued_over(p: Planet, samples: Seq<u32>, dt_us: u64, period_us: u64) -> Planet
    decreases samples.len(),
{
    if samples.len() == 0 {
        p
    } else {
        accrued_over(accrued(p, samples[0], dt_us, period_us), samples.drop_first(), dt_us, period_us)
    }
}

/// Successive accrual steps never lower the waiting crew.
pub proof fn lemma_accrued_over_never_lowers(p: Planet, samples: Seq<u32>, dt_us: u64, period_us: u64)
    ensures
        accrued_over(p, samples, dt_us, period_us).crew_waiting >= p.crew_waiting,
    decreases samples.len(),
{
    if samples.len() > 0 {
        lemma_accrued_over_never_lowers(
            accrued(p, samples[0], dt_us, period_us),
            samples.drop_first(),
            dt_us,
            period_us,
        );
    }
}

/// Crew is certain to arrive once the elapsed time reaches the period:
/// whatever the random words, `n` steps of `dt_us` add at least one crew
/// member when the clock would reach the period by the last of them.
pub proof fn lemma_crew_arrives_within_period(p: Planet, samples: Seq<u32>, dt_us: u64, period_us: u64)
    requires
        period_us > 0,
        p.crew_waiting < u32::MAX,
        samples.len() >= 1,
        p.time_since_last_crew_update + (samples.len() - 1) * dt_us >= period_us,
    ensures
        accrued_over(p, samples, dt_us, period_us).crew_waiting >= p.crew_waiting + 1,
    decreases samples.len(),
{
    let q = accrued(p, samples[0], dt_us, period_us);
    let rest = samples.drop_first();
    if crew_arrives(samples[0], p.time_since_last_crew_update, period_us) {
        lemma_accrued_over_never_lowers(q, rest, dt_us, period_us);
    } else {
        let t = p.time_since_last_crew_update;
        let n = samples.len() as int;
        let w = samples[0];
        assert(t < period_us) by (nonlinear_arith)
            requires w * period_us >= t * 0x1_0000_0000, w < 0x1_0000_0000, period_us > 0;
        assert((n - 1) * dt_us == dt_us + (n - 2) * dt_us) by (nonlinear_arith);
        if n == 1 {
            assert((n - 1) * dt_us == 0) by (nonlinear_arith)
                requires n == 1;
        }
        assert(q.time_since_last_crew_update + (rest.len() - 1) * dt_us >= period_us);
        lemma_crew_arrives_within_period(q, rest, dt_us, period_us);
    }
}

/// The arrival flag turns on at most once per target: an arrival finds the
/// flag off and leaves it on, and a ship that has arrived never arrives
/// again and keeps the flag on, however many ticks follow.
pub proof fn lemma_arrival_flag_turns_on_once(ship: Ship, target: Planet, dt_us: u64)
    ensures
        arrives_now(ship, target, dt_us) ==> !ship.has_arrived && ship_after_step(
            ship,
            target,
            dt_us,
        ).has_arrived,
        ship.has_arrived ==> !arrives_now(ship, target, dt_us) && ship_after_step(
            ship,
            target,
            dt_us,
        ).has_arrived,
        ship_after_step(ship, target, dt_us).target == ship.target,
{
}

/// Without a new target, a ship that has arrived hands off no more crew:
/// neither its own crew nor the target's changes.
pub proof fn lemma_no_second_hand_off(ship: Ship, target: Planet, dt_us: u64)
    requires
        ship.has_arrived,
    ensures
        target_after_step(ship, target, dt_us) == target,
        ship_after_step(ship, target, dt_us).crewmembers == ship.crewmembers,
{
}

/// After the hand-off of an arrival, nobody waits at the target and the
/// ship carries exactly the crew that waited there before.
pub proof fn lemma_hand_off_moves_whole_queue(ship: Ship, target: Planet, dt_us: u64)
    requires
        arrives_now(ship, target, dt_us),
    ensures
        target_after_step(ship, target, dt_us).crew_waiting == 0,
        ship_after_step(ship, target, dt_us).crewmembers == target.crew_waiting,
{
}

/// Waiting crew never decreases but by a hand-off: accrual never lowers it,
/// and a ship's tick lowers it only at the target it arrives at.
pub proof fn lemma_waiting_crew_drops_only_at_hand_off(
    planet: Planet,
    sample: u32,
    dt_us: u64,
    period_us: u64,
    ship: Ship,
)
    ensures
        accrued(planet, sample, dt_us, period_us).crew_waiting >= planet.crew_waiting,
        target_after_step(ship, planet, dt_us).crew_waiting < planet.crew_waiting ==> arrives_now(
            ship,
            planet,
            dt_us,
        ),
{
}

} // verus!
