//! The ship's navigation: moving towards the target planet, detecting the
//! arrival, and choosing a target from a click.
use vstd::prelude::*;
use crate::geometry::{Point, FrameSize, COORD_LIMIT, dist_sq, distance_sq, isqrt, viewport_of, to_viewport};
use crate::entity::{Planet, Ship, PLANET_DIAMETER};
use crate::crew::{hand_off, ship_after_hand_off, planet_after_hand_off};

verus! {

/// Microseconds per second.
pub const MICROS_PER_SECOND: u64 = 1000000;

/// The longest move of a single tick, in length units: more than the width
/// of the simulation plane.
pub const MAX_STEP: u64 = 0x1_0000_0000;

/// Half a planet's diameter: the distance under which a ship has arrived.
pub const ARRIVAL_RADIUS: i64 = 32000;

/// The distance the ship covers in `dt_us` microseconds, capped at `MAX_STEP`.
pub open spec fn step_length(speed: u64, dt_us: u64) -> int {
    let s = speed * dt_us / (MICROS_PER_SECOND as int);
    if s > MAX_STEP {
        MAX_STEP as int
    } else {
        s
    }
}

pub fn step_len(speed: u64, dt_us: u64) -> (s: u64)
    ensures
        s == step_length(speed, dt_us),
{
    assert(speed * dt_us <= u64::MAX * u64::MAX) by (nonlinear_arith);
    let s: u128 = speed as u128 * dt_us as u128 / MICROS_PER_SECOND as u128;
    if s > MAX_STEP as u128 {
        MAX_STEP
    } else {
        s as u64
    }
}

/// The ship moves in a straight line towards the target, so during a move
/// of length `step` it comes within the arrival radius of the target exactly
/// when the distance at the start is below `step + ARRIVAL_RADIUS`.
pub open spec fn comes_within_arrival(ship: Point, target: Point, step: int) -> bool {
    dist_sq(ship, target) < (step + ARRIVAL_RADIUS) * (step + ARRIVAL_RADIUS)
}

/// `r` is the integer square root of `n`.
pub open spec fn is_floor_sqrt(r: int, n: int) -> bool {
    0 <= r && r * r <= n < (r + 1) * (r + 1)
}

/// The integer square root of a non-negative `n`.
pub open spec fn floor_sqrt(n: int) -> int {
    choose|r: int| is_floor_sqrt(r, n)
}

proof fn lemma_floor_sqrt_unique(r: int, n: int)
    requires
        is_floor_sqrt(r, n),
    ensures
        floor_sqrt(n) == r,
{
    let s = floor_sqrt(n);
    assert(is_floor_sqrt(s, n));
    if s < r {
        assert((s + 1) * (s + 1) <= r * r) by (nonlinear_arith)
            requires 0 <= s, s + 1 <= r;
    } else if s > r {
        assert((r + 1) * (r + 1) <= s * s) by (nonlinear_arith)
            requires 0 <= r, r + 1 <= s;
    }
}

/// The signed share `c / len` of a move of length `step`, rounded towards zero.
pub open spec fn share(c: int, step: int, len: int) -> int {
    if c >= 0 {
        c * step / len
    } else {
        -((-c) * step / len)
    }
}

/// A coordinate held to the simulation plane.
pub open spec fn clamp_coord(v: int) -> int {
    if v > COORD_LIMIT {
        COORD_LIMIT as int
    } else if v < -COORD_LIMIT {
        -COORD_LIMIT
    } else {
        v
    }
}

/// The ship's position after moving `step` towards `target` (not stopping
/// there); a ship exactly on its target stays put.
pub open spec fn moved_towards(pos: Point, target: Point, step: int) -> Point {
    if pos == target {
        pos
    } else {
        let len = floor_sqrt(dist_sq(target, pos));
        Point {
            x: clamp_coord(pos.x + share(target.x - pos.x, step, len)) as i64,
            y: clamp_coord(pos.y + share(target.y - pos.y, step, len)) as i64,
        }
    }
}

/// A move of at least `MAX_STEP` passes any point of the plane.
proof fn lemma_far_step_reaches(a: Point, b: Point, step: int)
    requires
        a.in_bounds(),
        b.in_bounds(),
        step >= MAX_STEP,
    ensures
        comes_within_arrival(a, b, step),
{
    let dx = a.x - b.x;
    let dy = a.y - b.y;
    assert(dx * dx <= 0x4000_0000_0000_0000 && dy * dy <= 0x4000_0000_0000_0000) by (nonlinear_arith)
        requires -0x8000_0000 <= dx <= 0x8000_0000, -0x8000_0000 <= dy <= 0x8000_0000;
    assert((step + ARRIVAL_RADIUS) * (step + ARRIVAL_RADIUS) >= 0x1_0000_0000 * 0x1_0000_0000) by (nonlinear_arith)
        requires step >= 0x1_0000_0000, ARRIVAL_RADIUS > 0;
}

impl Ship {
    /// Turns the arrival flag on where the ship, about to move `step`
    /// towards `target`, comes within the arrival radius and has not arrived
    /// since it was last given a target. Returns whether the flag turned on.
    pub fn update_has_arrived(&mut self, target: &Planet, step: u64) -> (turned_on: bool)
        requires
            old(self).wf(),
            target.wf(),
        ensures
            old(self).has_arrived ==> !turned_on && final(self).has_arrived,
            turned_on == (!old(self).has_arrived && comes_within_arrival(
                old(self).position,
                target.position,
                step as int,
            )),
            *final(self) == (Ship { has_arrived: old(self).has_arrived || turned_on, ..*old(self) }),
    {
        let d = distance_sq(self.position, target.position);
        let within = if step >= MAX_STEP {
            proof {
                lemma_far_step_reaches(self.position, target.position, step as int);
            }
            true
        } else {
            let reach: u128 = step as u128 + ARRIVAL_RADIUS as u128;
            assert(reach * reach <= 0x2_0000_0000 * 0x2_0000_0000) by (nonlinear_arith)
                requires 0 <= reach <= 0x2_0000_0000;
            d < reach * reach
        };
        if !self.has_arrived && within {
            self.has_arrived = true;
            true
        } else {
            false
        }
    }
}

/// A ship's arrival flag turns on in this tick.
pub open spec fn arrives_now(ship: Ship, target: Planet, dt_us: u64) -> bool {
    !ship.has_arrived && comes_within_arrival(
        ship.position,
        target.position,
        step_length(ship.speed, dt_us),
    )
}

/// The ship after one tick of travel towards `target`.
pub open spec fn ship_after_step(ship: Ship, target: Planet, dt_us: u64) -> Ship {
    let s = if arrives_now(ship, target, dt_us) {
        ship_after_hand_off(ship, target)
    } else {
        ship
    };
    Ship {
        position: moved_towards(ship.position, target.position, step_length(ship.speed, dt_us)),
        heading: Point {
            x: (target.position.x - ship.position.x) as i64,
            y: (target.position.y - ship.position.y) as i64,
        },
        has_arrived: ship.has_arrived || arrives_now(ship, target, dt_us),
        ..s
    }
}

/// The target planet after one tick of the ship's travel.
pub open spec fn target_after_step(ship: Ship, target: Planet, dt_us: u64) -> Planet {
    if arrives_now(ship, target, dt_us) {
        planet_after_hand_off(target)
    } else {
        target
    }
}

fn share_exec(c: i64, step: u64, len: u64) -> (r: i64)
    requires
        -len <= c <= len,
        step <= MAX_STEP,
        len > 0,
    ensures
        r == share(c as int, step as int, len as int),
        -MAX_STEP <= r <= MAX_STEP,
{
    let m: u64 = if c >= 0 { c as u64 } else { (-(c as i128)) as u64 };
    assert(m * step <= len * step) by (nonlinear_arith)
        requires m <= len, step >= 0;
    assert(len * step <= u64::MAX * 0x1_0000_0000) by (nonlinear_arith)
        requires len <= u64::MAX, step <= 0x1_0000_0000;
    let q: u128 = m as u128 * step as u128 / len as u128;
    assert(q <= step) by (nonlinear_arith)
        requires q == m * step / (len as int), len > 0, m <= len, step >= 0;
    if c >= 0 {
        q as i64
    } else {
        -(q as i64)
    }
}

proof fn lemma_component_within_length(a: int, b: int, len: int)
    requires
        len >= 0,
        a * a + b * b < (len + 1) * (len + 1),
    ensures
        -len <= a <= len,
{
    assert(b * b >= 0) by (nonlinear_arith);
    if a > len {
        assert(a * a >= (len + 1) * (len + 1)) by (nonlinear_arith)
            requires a >= len + 1, len >= 0;
    } else if a < -len {
        assert(a * a >= (len + 1) * (len + 1)) by (nonlinear_arith)
            requires -a >= len + 1, len >= 0;
    }
}

fn clamp_exec(v: i128) -> (r: i64)
    ensures
        r == clamp_coord(v as int),
{
    if v > COORD_LIMIT as i128 {
        COORD_LIMIT
    } else if v < -(COORD_LIMIT as i128) {
        -COORD_LIMIT
    } else {
        v as i64
    }
}

/// Moves a point `step` towards `target`.
pub fn move_towards(pos: Point, target: Point, step: u64) -> (r: Point)
    requires
        pos.in_bounds(),
        target.in_bounds(),
        step <= MAX_STEP,
    ensures
        r == moved_towards(pos, target, step as int),
        r.in_bounds(),
{
    if pos.x == target.x && pos.y == target.y {
        return pos;
    }
    let n = distance_sq(target, pos);
    let len = isqrt(n);
    proof {
        lemma_floor_sqrt_unique(len as int, n as int);
        assert(n > 0) by (nonlinear_arith)
            requires n == (target.x - pos.x) * (target.x - pos.x) + (target.y - pos.y) * (target.y - pos.y),
                target.x != pos.x || target.y != pos.y;
        assert(len > 0) by (nonlinear_arith)
            requires n < (len + 1) * (len + 1), n > 0, len >= 0;
        lemma_component_within_length((target.x - pos.x) as int, (target.y - pos.y) as int, len as int);
        lemma_component_within_length((target.y - pos.y) as int, (target.x - pos.x) as int, len as int);
    }
    let dx = share_exec(target.x - pos.x, step, len);
    let dy = share_exec(target.y - pos.y, step, len);
    Point { x: clamp_exec(pos.x as i128 + dx as i128), y: clamp_exec(pos.y as i128 + dy as i128) }
}

/// Advances the ship one tick of `dt_us` microseconds towards `target`, the
/// planet its weak reference resolves to. Where the ship comes within the
/// arrival radius and has not arrived since it was last given a target, it
/// arrives: the crew is handed off and `true` is returned, the signal for
/// the arrival feedback. The ship keeps moving past the target.
pub fn step_ship(ship: &mut Ship, target: &mut Planet, dt_us: u64) -> (arrived: bool)
    requires
        old(ship).wf(),
        old(target).wf(),
    ensures
        arrived == arrives_now(*old(ship), *old(target), dt_us),
        *final(ship) == ship_after_step(*old(ship), *old(target), dt_us),
        *final(target) == target_after_step(*old(ship), *old(target), dt_us),
        final(ship).wf(),
        final(target).wf(),
{
    let step = step_len(ship.speed, dt_us);
    let start = ship.position;
    let goal = target.position;
    let arrived = ship.update_has_arrived(target, step);
    if arrived {
        hand_off(ship, target);
    }
    ship.heading = Point { x: goal.x - start.x, y: goal.y - start.y };
    ship.position = move_towards(start, goal, step);
    arrived
}

/// Whether a click at `click` (viewport coordinates, origin at the bottom
/// left) hits `planet`: it is within a planet's diameter of the planet's
/// viewport position.
pub open spec fn hits(planet: Planet, click: Point, frame: FrameSize) -> bool {
    dist_sq(viewport_of(planet.position, frame), click) <= PLANET_DIAMETER * PLANET_DIAMETER
}

/// The last planet of `planets` that a click hits.
pub open spec fn last_hit(planets: Seq<Planet>, click: Point, frame: FrameSize) -> Option<int>
    decreases planets.len(),
{
    if planets.len() == 0 {
        None
    } else if hits(planets.last(), click, frame) {
        Some(planets.len() - 1)
    } else {
        last_hit(planets.drop_last(), click, frame)
    }
}

proof fn lemma_last_hit_in_range(planets: Seq<Planet>, click: Point, frame: FrameSize)
    ensures
        last_hit(planets, click, frame) matches Some(i) ==> 0 <= i < planets.len(),
    decreases planets.len(),
{
    if planets.len() > 0 {
        lemma_last_hit_in_range(planets.drop_last(), click, frame);
    }
}

/// The click position in the bottom-left-origin space of the simulation:
/// pointer events come with their origin at the top left.
pub open spec fn flip_click(click: Point, frame: FrameSize) -> Point {
    Point { x: click.x, y: (frame.height - click.y) as i64 }
}

/// Tells whether a click (bottom-left origin) hits a planet.
pub fn hit_test(planet: &Planet, click: Point, frame: FrameSize) -> (h: bool)
    requires
        planet.wf(),
        click.in_bounds(),
        frame.valid(),
    ensures
        h == hits(*planet, click, frame),
{
    let v = to_viewport(planet.position, frame);
    let dx: i128 = v.x as i128 - click.x as i128;
    let dy: i128 = v.y as i128 - click.y as i128;
    assert(0 <= dx * dx <= 0x1_0000_0000_0000_0000) by (nonlinear_arith)
        requires -0x1_0000_0000 <= dx <= 0x1_0000_0000;
    assert(0 <= dy * dy <= 0x1_0000_0000_0000_0000) by (nonlinear_arith)
        requires -0x1_0000_0000 <= dy <= 0x1_0000_0000;
    let reach: i128 = PLANET_DIAMETER as i128;
    assert(reach * reach == 4096000000) by (nonlinear_arith)
        requires reach == 64000;
    dx * dx + dy * dy <= reach * reach
}

/// The index of the planet a click selects: the last one it hits.
pub fn clicked_planet(planets: &Vec<Planet>, click: Point, frame: FrameSize) -> (r: Option<usize>)
    requires
        forall|i: int| 0 <= i < planets.len() ==> (#[trigger] planets[i]).wf(),
        click.in_bounds(),
        frame.valid(),
    ensures
        r == (match last_hit(planets@, click, frame) {
            Some(i) => Some(i as usize),
            None => None,
        }),
        r matches Some(i) ==> i < planets.len(),
        last_hit(planets@, click, frame) matches Some(i) ==> 0 <= i < planets.len(),
{
    proof {
        lemma_last_hit_in_range(planets@, click, frame);
    }
    let mut found: Option<usize> = None;
    let mut i: usize = 0;
    while i < planets.len()
        invariant
            i <= planets.len(),
            forall|i: int| 0 <= i < planets.len() ==> (#[trigger] planets[i]).wf(),
            click.in_bounds(),
            frame.valid(),
            found == (match last_hit(planets@.take(i as int), click, frame) {
                Some(k) => Some(k as usize),
                None => None,
            }),
            found matches Some(k) ==> k < i,
        decreases planets.len() - i,
    {
        let h = hit_test(&planets[i], click, frame);
        proof {
            let t = planets@.take(i as int + 1);
            assert(t.drop_last() =~= planets@.take(i as int));
            assert(t.last() == planets@[i as int]);
        }
        if h {
            found = Some(i);
        }
        i += 1;
    }
    assert(planets@.take(planets.len() as int) =~= planets@);
    found
}

} // verus!
