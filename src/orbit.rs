//! Orbital motion and the placement of new planets.
use vstd::prelude::*;
use crate::geometry::{Point, dist_sq, distance_sq};
use crate::entity::{Planet, PLANET_DIAMETER, MIN_ORBITAL_RADIUS, MAX_ORBITAL_RADIUS, on_orbit};

verus! {

/// The speed of every planet along its orbit, in length units per second
/// (10 pixels per second).
pub const ORBITAL_SPEED: u64 = 10000;

/// A full turn, in microradians (rounded down).
pub const FULL_TURN: u64 = 6283185;

/// The phase reached after `dt_us` microseconds on an orbit of radius `r`:
/// the arc length `dt * ORBITAL_SPEED` divided by the radius, saturating at
/// the largest representable angle.
pub open spec fn advanced_phase(phase: u64, r: u64, dt_us: u64) -> u64 {
    let next = phase + (dt_us * ORBITAL_SPEED) / (r as int);
    if next > u64::MAX {
        u64::MAX
    } else {
        next as u64
    }
}

/// The new phase of a planet after `dt_us` microseconds.
pub fn advance_phase(phase: u64, r: u64, dt_us: u64) -> (p: u64)
    requires
        r > 0,
    ensures
        p == advanced_phase(phase, r, dt_us),
{
    assert(dt_us * ORBITAL_SPEED <= u64::MAX * ORBITAL_SPEED) by (nonlinear_arith);
    let arc: u128 = dt_us as u128 * ORBITAL_SPEED as u128;
    let d: u128 = arc / r as u128;
    assert(d <= arc) by (nonlinear_arith)
        requires d == arc / (r as u128), r > 0;
    if d > (u64::MAX - phase) as u128 {
        u64::MAX
    } else {
        phase + d as u64
    }
}

/// The planet moved along its orbit by `dt_us` microseconds to `pos`, the
/// point that its new phase projects to (`radius * (cos, sin)`, rounded to
/// length units, which only the caller can compute); a point that is not on
/// the orbit is refused and leaves the planet as it was.
pub open spec fn orbit_progressed(p: Planet, pos: Point, dt_us: u64) -> Planet {
    if on_orbit(p.orbital_radius as int, pos) && pos.in_bounds() {
        Planet {
            phase_angle: advanced_phase(p.phase_angle, p.orbital_radius, dt_us),
            position: pos,
            ..p
        }
    } else {
        p
    }
}

/// Moves `planet` along its orbit by `dt_us` microseconds to `pos`, the
/// projection of its new phase `advance_phase(..)`. Returns whether the
/// point was accepted.
pub fn progress_orbit(planet: &mut Planet, pos: Point, dt_us: u64) -> (moved: bool)
    requires
        old(planet).wf(),
    ensures
        moved == (on_orbit(old(planet).orbital_radius as int, pos) && pos.in_bounds()),
        *final(planet) == orbit_progressed(*old(planet), pos, dt_us),
        final(planet).wf(),
{
    if lies_on_orbit(planet.orbital_radius, pos) {
        planet.phase_angle = advance_phase(planet.phase_angle, planet.orbital_radius, dt_us);
        planet.position = pos;
        true
    } else {
        false
    }
}

/// Tells whether `p` lies on the orbit of radius `r` (and so in bounds).
pub fn lies_on_orbit(r: u64, p: Point) -> (b: bool)
    requires
        r <= MAX_ORBITAL_RADIUS,
    ensures
        b == (on_orbit(r as int, p) && p.in_bounds()),
{
    let lim: i64 = MAX_ORBITAL_RADIUS as i64 + 1;
    if p.x < -lim || p.x > lim || p.y < -lim || p.y > lim {
        proof {
            lemma_far_point_off_orbit(r as int, p.x as int, p.y as int);
        }
        return false;
    }
    assert(0 <= p.x * p.x <= 160000800001) by (nonlinear_arith)
        requires -400001 <= p.x <= 400001;
    assert(0 <= p.y * p.y <= 160000800001) by (nonlinear_arith)
        requires -400001 <= p.y <= 400001;
    let n: i64 = p.x * p.x + p.y * p.y;
    let ri: i64 = r as i64;
    assert(0 <= (ri + 1) * (ri + 1) <= 160000800001 && 0 <= (ri - 1) * (ri - 1) <= 160000800001)
        by (nonlinear_arith)
        requires 0 <= ri <= 400000;
    (ri - 1) * (ri - 1) <= n && n <= (ri + 1) * (ri + 1)
}

proof fn lemma_far_point_off_orbit(r: int, x: int, y: int)
    requires
        0 <= r <= MAX_ORBITAL_RADIUS,
        x < -(MAX_ORBITAL_RADIUS + 1) || x > MAX_ORBITAL_RADIUS + 1 || y < -(MAX_ORBITAL_RADIUS + 1) || y
            > MAX_ORBITAL_RADIUS + 1,
    ensures
        x * x + y * y > (r + 1) * (r + 1),
{
    let lim = MAX_ORBITAL_RADIUS + 1;
    assert(x * x > lim * lim || y * y > lim * lim) by (nonlinear_arith)
        requires x < -lim || x > lim || y < -lim || y > lim, lim > 0;
    assert(x * x >= 0 && y * y >= 0) by (nonlinear_arith);
    assert((r + 1) * (r + 1) <= lim * lim) by (nonlinear_arith)
        requires 0 <= r + 1 <= lim;
}

/// A candidate on orbit radius `r` at position `p` collides with `other`:
/// they are closer than a planet's diameter, or their orbits are.
pub open spec fn too_close(other: Planet, r: u64, p: Point) -> bool {
    dist_sq(other.position, p) < PLANET_DIAMETER * PLANET_DIAMETER
        || (other.orbital_radius - r < PLANET_DIAMETER && r - other.orbital_radius < PLANET_DIAMETER)
}

pub open spec fn collides_with_any(existing: Seq<Planet>, r: u64, p: Point) -> bool {
    exists|i: int| 0 <= i < existing.len() && too_close(#[trigger] existing[i], r, p)
}

/// Tells whether a candidate orbit and position collide with any placed planet.
pub fn collides(existing: &Vec<Planet>, r: u64, p: Point) -> (c: bool)
    requires
        p.in_bounds(),
        forall|i: int| 0 <= i < existing.len() ==> (#[trigger] existing[i]).wf(),
    ensures
        c == collides_with_any(existing@, r, p),
{
    let mut i: usize = 0;
    while i < existing.len()
        invariant
            i <= existing.len(),
            p.in_bounds(),
            forall|i: int| 0 <= i < existing.len() ==> (#[trigger] existing[i]).wf(),
            forall|j: int| 0 <= j < i ==> !too_close(#[trigger] existing@[j], r, p),
        decreases existing.len() - i,
    {
        let other = existing[i];
        let d = distance_sq(other.position, p);
        let dr_small = if other.orbital_radius >= r {
            other.orbital_radius - r < PLANET_DIAMETER as u64
        } else {
            r - other.orbital_radius < PLANET_DIAMETER as u64
        };
        if d < (PLANET_DIAMETER * PLANET_DIAMETER) as u128 || dr_small {
            assert(too_close(existing@[i as int], r, p));
            return true;
        }
        i += 1;
    }
    false
}

/// The orbit that two uniform random words select: a radius in
/// `[MIN_ORBITAL_RADIUS, MAX_ORBITAL_RADIUS]` and a phase in `[0, FULL_TURN)`.
pub fn orbit_from_samples(radius_sample: u32, phase_sample: u32) -> (o: (u64, u64))
    ensures
        o.0 == MIN_ORBITAL_RADIUS + (radius_sample as u64) % ((MAX_ORBITAL_RADIUS - MIN_ORBITAL_RADIUS + 1) as u64),
        o.1 == (phase_sample as u64) % FULL_TURN,
        MIN_ORBITAL_RADIUS <= o.0 <= MAX_ORBITAL_RADIUS,
        o.1 < FULL_TURN,
{
    let span: u64 = MAX_ORBITAL_RADIUS - MIN_ORBITAL_RADIUS + 1;
    (MIN_ORBITAL_RADIUS + radius_sample as u64 % span, phase_sample as u64 % FULL_TURN)
}

} // verus!
