//! The owned entity store and the per-tick passes over it.
use vstd::prelude::*;
use crate::geometry::{Point, FrameSize};
use crate::entity::{Handle, Planet, Ship, Trackable, PLANET_DIAMETER, MIN_ORBITAL_RADIUS, MAX_ORBITAL_RADIUS, on_orbit, index_of, find_by_handle};
use crate::orbit::{collides, collides_with_any, lies_on_orbit, orbit_from_samples, progress_orbit, orbit_progressed, advance_phase, advanced_phase, FULL_TURN};
use crate::crew::{accrue, accrued, CREW_ACCRUAL_PERIOD_US};
use crate::navigation::{step_ship, arrives_now, ship_after_step, target_after_step, clicked_planet, last_hit, flip_click};
use crate::label::{Label, refreshed, same_label, shows, anchor_of, spawn_info_text, update_planet_info_text, update_ship_info_text};
use crate::text::waiting_text;

verus! {

/// Relies on rand::random: a value drawn from the thread-local generator.
/// Nothing is promised of the value.
pub assume_specification<T>[ rand::random::<T> ]() -> (r: T)
    where
        rand::distributions::Standard: rand::distributions::Distribution<T>,
;

/// Draws a candidate orbit for a new planet: a radius uniform over the band
/// and a phase uniform over the full turn.
pub fn draw_orbit() -> (o: (u64, u64))
    ensures
        MIN_ORBITAL_RADIUS <= o.0 <= MAX_ORBITAL_RADIUS,
        o.1 < FULL_TURN,
{
    let radius_sample: u32 = rand::random::<u32>();
    let phase_sample: u32 = rand::random::<u32>();
    orbit_from_samples(radius_sample, phase_sample)
}

/// Which feedback a click calls for.
#[derive(Clone, Copy, Debug, PartialEq, Eq, Structural)]
pub enum ClickOutcome {
    /// A planet was hit and became the ship's target.
    Selected,
    /// No planet was hit; nothing changed.
    Missed,
}

/// The planets, the one ship, and the next free handle.
pub struct World {
    pub planets: Vec<Planet>,
    pub ship: Ship,
    pub next_handle: Handle,
}

/// The orbits of two planets are at least a planet's diameter apart.
pub open spec fn orbits_apart(a: Planet, b: Planet) -> bool {
    a.orbital_radius - b.orbital_radius >= PLANET_DIAMETER || b.orbital_radius - a.orbital_radius
        >= PLANET_DIAMETER
}

/// A freshly placed planet.
pub open spec fn new_planet(id: Handle, radius: u64, phase: u64, pos: Point) -> Planet {
    Planet {
        id,
        orbital_radius: radius,
        phase_angle: phase,
        position: pos,
        crew_waiting: 0,
        time_since_last_crew_update: 0,
    }
}

/// A candidate orbit is accepted: its radius lies in the band, its position
/// on the orbit, and it collides with no placed planet.
pub open spec fn placement_accepted(planets: Seq<Planet>, radius: u64, pos: Point) -> bool {
    &&& MIN_ORBITAL_RADIUS <= radius <= MAX_ORBITAL_RADIUS
    &&& on_orbit(radius as int, pos)
    &&& pos.in_bounds()
    &&& !collides_with_any(planets, radius, pos)
}

/// `after` is what one accrual pass over `dt_us` microseconds can make of
/// `before`, for some random word.
pub open spec fn accrual_step(before: Planet, after: Planet, dt_us: u64) -> bool {
    exists|s: u32| accrued(before, s, dt_us, CREW_ACCRUAL_PERIOD_US) == after
}

impl World {
    /// The store's invariant: every entity is well formed, handles are
    /// unique and below `next_handle`, and the orbits are pairwise apart.
    pub open spec fn wf(&self) -> bool {
        &&& self.ship.wf()
        &&& self.ship.id < self.next_handle
        &&& forall|i: int| 0 <= i < self.planets.len() ==> (#[trigger] self.planets[i]).wf()
        &&& forall|i: int|
            0 <= i < self.planets.len() ==> (#[trigger] self.planets[i]).id != self.ship.id
                && self.planets[i].id < self.next_handle
        &&& forall|i: int, j: int|
            0 <= i < self.planets.len() && 0 <= j < self.planets.len() && i != j ==> (
            #[trigger] self.planets[i]).id != (#[trigger] self.planets[j]).id
        &&& forall|i: int, j: int|
            0 <= i < self.planets.len() && 0 <= j < self.planets.len() && i != j ==> orbits_apart(
                #[trigger] self.planets[i],
                #[trigger] self.planets[j],
            )
    }

    /// An empty system with one idle ship at the star, moving at `speed`
    /// length units per second.
    pub fn new(speed: u64) -> (w: World)
        ensures
            w.wf(),
            w.planets@.len() == 0,
            w.ship == (Ship {
                id: 0,
                target: None,
                speed,
                position: Point { x: 0, y: 0 },
                heading: Point { x: 0, y: 0 },
                has_arrived: false,
                crewmembers: 0,
            }),
            w.next_handle == 1,
    {
        World {
            planets: Vec::new(),
            ship: Ship {
                id: 0,
                target: None,
                speed,
                position: Point { x: 0, y: 0 },
                heading: Point { x: 0, y: 0 },
                has_arrived: false,
                crewmembers: 0,
            },
            next_handle: 1,
        }
    }

    /// Places a planet on orbit `radius` with phase `phase` at `pos`, the
    /// position that phase projects to, unless the candidate is refused or
    /// no handle is left. Returns the new planet's handle.
    pub fn try_place(&mut self, radius: u64, phase: u64, pos: Point) -> (r: Option<Handle>)
        requires
            old(self).wf(),
        ensures
            final(self).wf(),
            r is Some <==> (placement_accepted(old(self).planets@, radius, pos) && old(self).next_handle
                < u64::MAX),
            r matches Some(h) ==> {
                &&& h == old(self).next_handle
                &&& final(self).planets@ == old(self).planets@.push(new_planet(h, radius, phase, pos))
                &&& final(self).ship == old(self).ship
                &&& final(self).next_handle == h + 1
            },
            r is None ==> final(self).planets@ == old(self).planets@ && final(self).ship == old(
                self,
            ).ship && final(self).next_handle == old(self).next_handle,
    {
        if radius < MIN_ORBITAL_RADIUS || radius > MAX_ORBITAL_RADIUS || self.next_handle == u64::MAX {
            return None;
        }
        if !lies_on_orbit(radius, pos) {
            return None;
        }
        if collides(&self.planets, radius, pos) {
            return None;
        }
        let h = self.next_handle;
        let p = Planet {
            id: h,
            orbital_radius: radius,
            phase_angle: phase,
            position: pos,
            crew_waiting: 0,
            time_since_last_crew_update: 0,
        };
        proof {
            assert forall|i: int| 0 <= i < old(self).planets.len() implies orbits_apart(
                #[trigger] old(self).planets[i],
                p,
            ) && orbits_apart(p, old(self).planets[i]) by {
                if !orbits_apart(old(self).planets[i], p) {
                    assert(collides_with_any(old(self).planets@, radius, pos));
                }
            }
        }
        self.planets.push(p);
        self.next_handle = h + 1;
        Some(h)
    }

    /// Places a planet on orbit `radius` with phase `phase` at `pos`, as
    /// `try_place` does, and gives it a label. `pos` is the projection of the
    /// phase, `radius * (cos, sin)` rounded to length units. Placement draws
    /// candidates with `draw_orbit` until one is accepted.
    pub fn spawn_planet(
        &mut self,
        labels: &mut Vec<Label>,
        radius: u64,
        phase: u64,
        pos: Point,
        frame: FrameSize,
    ) -> (r: Option<Handle>)
        requires
            old(self).wf(),
            frame.valid(),
        ensures
            final(self).wf(),
            r is Some <==> (placement_accepted(old(self).planets@, radius, pos) && old(self).next_handle
                < u64::MAX),
            r matches Some(h) ==> {
                &&& h == old(self).next_handle
                &&& final(self).planets@ == old(self).planets@.push(new_planet(h, radius, phase, pos))
                &&& final(self).ship == old(self).ship
                &&& final(self).next_handle == h + 1
                &&& final(labels)@.len() == old(labels)@.len() + 1
                &&& final(labels)@.drop_last() == old(labels)@
                &&& final(labels)@.last().target == Some(h)
                &&& final(labels)@.last().text@ == waiting_text(0)
                &&& final(labels)@.last().anchor == anchor_of(pos, frame)
            },
            r is None ==> final(self).planets@ == old(self).planets@ && final(self).ship == old(
                self,
            ).ship && final(self).next_handle == old(self).next_handle && final(labels)@ == old(
                labels,
            )@,
    {
        let placed = self.try_place(radius, phase, pos);
        if placed.is_some() {
            let last = self.planets.len() - 1;
            let label = spawn_info_text(&self.planets[last], frame);
            labels.push(label);
            assert(labels@.drop_last() =~= old(labels)@);
        }
        placed
    }

    /// The phase each planet reaches after `dt_us` microseconds, in order:
    /// the angles whose projections `progress_orbits` takes.
    pub fn advanced_phases(&self, dt_us: u64) -> (v: Vec<u64>)
        requires
            self.wf(),
        ensures
            v@.len() == self.planets@.len(),
            forall|i: int|
                0 <= i < v@.len() ==> #[trigger] v@[i] == advanced_phase(
                    self.planets@[i].phase_angle,
                    self.planets@[i].orbital_radius,
                    dt_us,
                ),
    {
        let mut v: Vec<u64> = Vec::new();
        let mut i: usize = 0;
        while i < self.planets.len()
            invariant
                self.wf(),
                i <= self.planets@.len(),
                v@.len() == i,
                forall|j: int|
                    0 <= j < i ==> #[trigger] v@[j] == advanced_phase(
                        self.planets@[j].phase_angle,
                        self.planets@[j].orbital_radius,
                        dt_us,
                    ),
            decreases self.planets@.len() - i,
        {
            let p = self.planets[i];
            v.push(advance_phase(p.phase_angle, p.orbital_radius, dt_us));
            i += 1;
        }
        v
    }

    /// Advances every planet along its orbit by `dt_us` microseconds:
    /// `positions[i]` is the projection of the phase that `advanced_phases`
    /// gives for planet `i`. A planet whose point is missing or not on its
    /// orbit keeps its state.
    pub fn progress_orbits(&mut self, positions: &Vec<Point>, dt_us: u64)
        requires
            old(self).wf(),
        ensures
            final(self).wf(),
            final(self).ship == old(self).ship,
            final(self).next_handle == old(self).next_handle,
            final(self).planets@.len() == old(self).planets@.len(),
            forall|i: int|
                0 <= i < old(self).planets@.len() ==> #[trigger] final(self).planets@[i] == if i
                    < positions@.len() {
                    orbit_progressed(old(self).planets@[i], positions@[i], dt_us)
                } else {
                    old(self).planets@[i]
                },
    {
        let mut i: usize = 0;
        while i < self.planets.len() && i < positions.len()
            invariant
                self.wf(),
                i <= self.planets@.len(),
                self.ship == old(self).ship,
                self.next_handle == old(self).next_handle,
                self.planets@.len() == old(self).planets@.len(),
                forall|j: int| i <= j < self.planets@.len() ==> #[trigger] self.planets@[j] == old(self).planets@[j],
                forall|j: int|
                    0 <= j < i ==> #[trigger] self.planets@[j] == orbit_progressed(
                        old(self).planets@[j],
                        positions@[j],
                        dt_us,
                    ),
                i <= positions@.len(),
            decreases self.planets@.len() - i,
        {
            progress_orbit(&mut self.planets[i], positions[i], dt_us);
            i += 1;
        }
    }

    /// One crew-accrual pass: every planet draws a uniform random word and
    /// accrues with it over `dt_us` microseconds. Waiting crew never
    /// decreases here.
    pub fn update_crew_waiting(&mut self, dt_us: u64)
        requires
            old(self).wf(),
        ensures
            final(self).wf(),
            final(self).ship == old(self).ship,
            final(self).next_handle == old(self).next_handle,
            final(self).planets@.len() == old(self).planets@.len(),
            forall|i: int|
                0 <= i < old(self).planets@.len() ==> accrual_step(
                    old(self).planets@[i],
                    #[trigger] final(self).planets@[i],
                    dt_us,
                ),
            forall|i: int|
                0 <= i < old(self).planets@.len() ==> #[trigger] final(self).planets@[i].crew_waiting
                    >= old(self).planets@[i].crew_waiting,
    {
        let mut i: usize = 0;
        let ghost mut samples: Seq<u32> = Seq::empty();
        while i < self.planets.len()
            invariant
                self.wf(),
                self.ship == old(self).ship,
                self.next_handle == old(self).next_handle,
                self.planets@.len() == old(self).planets@.len(),
                samples.len() == i,
                forall|j: int| i <= j < self.planets@.len() ==> #[trigger] self.planets@[j] == old(self).planets@[j],
                forall|j: int|
                    0 <= j < i ==> #[trigger] self.planets@[j] == accrued(
                        old(self).planets@[j],
                        samples[j],
                        dt_us,
                        CREW_ACCRUAL_PERIOD_US,
                    ),
                forall|j: int|
                    0 <= j < i ==> #[trigger] self.planets@[j].crew_waiting >= old(self).planets@[j].crew_waiting,
            decreases self.planets@.len() - i,
        {
            let sample: u32 = rand::random::<u32>();
            accrue(&mut self.planets[i], sample, dt_us, CREW_ACCRUAL_PERIOD_US);
            proof {
                samples = samples.push(sample);
            }
            i += 1;
        }
        proof {
            assert forall|j: int| 0 <= j < self.planets@.len() implies accrual_step(
                old(self).planets@[j],
                #[trigger] self.planets@[j],
                dt_us,
            ) by {
                assert(accrued(old(self).planets@[j], samples[j], dt_us, CREW_ACCRUAL_PERIOD_US) == self.planets@[j]);
            }
        }
    }

    /// Handles a primary-button click at `click`, given in viewport
    /// coordinates with the origin at the top left. A click within a planet's
    /// diameter of a planet retargets the ship to it (the last such planet)
    /// and resets its arrival flag; any other click changes nothing.
    pub fn handle_ship_targeting(&mut self, click: Point, frame: FrameSize) -> (o: ClickOutcome)
        requires
            old(self).wf(),
            frame.valid(),
            0 <= click.x <= frame.width,
            0 <= click.y <= frame.height,
        ensures
            final(self).wf(),
            final(self).planets@ == old(self).planets@,
            final(self).next_handle == old(self).next_handle,
            match last_hit(old(self).planets@, flip_click(click, frame), frame) {
                Some(i) => o == ClickOutcome::Selected && final(self).ship == (Ship {
                    target: Some(old(self).planets@[i].id),
                    has_arrived: false,
                    ..old(self).ship
                }),
                None => o == ClickOutcome::Missed && final(self).ship == old(self).ship,
            },
    {
        let flipped = Point { x: click.x, y: frame.height - click.y };
        match clicked_planet(&self.planets, flipped, frame) {
            Some(i) => {
                self.ship.target = Some(self.planets[i].id);
                self.ship.has_arrived = false;
                ClickOutcome::Selected
            },
            None => ClickOutcome::Missed,
        }
    }

    /// Advances the ship one tick of `dt_us` microseconds towards its target
    /// (see `step_ship`). Without a target, or when the target is not a live
    /// planet, nothing happens. Returns whether the ship arrived in this tick,
    /// the signal for the arrival feedback.
    pub fn progress_ships(&mut self, dt_us: u64) -> (arrived: bool)
        requires
            old(self).wf(),
        ensures
            final(self).wf(),
            final(self).next_handle == old(self).next_handle,
            match old(self).ship.target {
                Some(h) => match index_of(old(self).planets@, h) {
                    Some(i) => {
                        &&& arrived == arrives_now(old(self).ship, old(self).planets@[i], dt_us)
                        &&& final(self).ship == ship_after_step(old(self).ship, old(self).planets@[i], dt_us)
                        &&& final(self).planets@ == old(self).planets@.update(
                            i,
                            target_after_step(old(self).ship, old(self).planets@[i], dt_us),
                        )
                    },
                    None => !arrived && final(self).ship == old(self).ship && final(self).planets@ == old(
                        self,
                    ).planets@,
                },
                None => !arrived && final(self).ship == old(self).ship && final(self).planets@ == old(
                    self,
                ).planets@,
            },
    {
        match self.ship.target {
            None => false,
            Some(h) => match find_by_handle(&self.planets, h) {
                None => false,
                Some(i) => {
                    let arrived = step_ship(&mut self.ship, &mut self.planets[i], dt_us);
                    assert forall|a: int, b: int|
                        0 <= a < self.planets.len() && 0 <= b < self.planets.len() && a != b implies orbits_apart(
                            #[trigger] self.planets[a],
                            #[trigger] self.planets[b],
                        ) by {
                        assert(old(self).planets[a].orbital_radius == self.planets[a].orbital_radius);
                        assert(old(self).planets[b].orbital_radius == self.planets[b].orbital_radius);
                    }
                    arrived
                },
            },
        }
    }

    /// Resynchronises every label with the planet or ship it follows; labels
    /// whose entity is not live keep what they showed.
    pub fn update_text(&self, labels: &mut Vec<Label>, frame: FrameSize)
        requires
            self.wf(),
            frame.valid(),
        ensures
            final(labels)@.len() == old(labels)@.len(),
            forall|k: int|
                0 <= k < old(labels)@.len() ==> self.label_updated(old(labels)@[k], #[trigger] final(labels)@[k], frame),
    {
        let ghost before = labels@;
        update_planet_info_text(labels, &self.planets, frame);
        let ghost mid = labels@;
        let ships: Vec<Ship> = vec![self.ship];
        update_ship_info_text(labels, &ships, frame);
        proof {
            assert forall|k: int| 0 <= k < before.len() implies self.label_updated(
                before[k],
                #[trigger] labels@[k],
                frame,
            ) by {
                assert(refreshed(before[k], mid[k], self.planets@, frame));
                assert(refreshed(mid[k], labels@[k], ships@, frame));
                if let Some(h) = before[k].target {
                    if let Some(i) = index_of(self.planets@, h) {
                        assert(self.planets@[i].id == h);
                        if index_of(ships@, h) is Some {
                            assert(ships@[index_of(ships@, h)->Some_0].id == h);
                        }
                    } else if h == self.ship.id {
                        assert(ships@[0].handle_spec() == h);
                    } else {
                        if index_of(ships@, h) is Some {
                            assert(ships@[index_of(ships@, h)->Some_0].id == h);
                        }
                    }
                }
            }
        }
    }

    /// `after` is the label `before` once resynchronised with this world: it
    /// shows the planet or the ship it follows, or, where that entity is not
    /// live, what it showed before.
    pub open spec fn label_updated(&self, before: Label, after: Label, frame: FrameSize) -> bool {
        &&& after.target == before.target
        &&& match before.target {
            Some(h) => if index_of(self.planets@, h) is Some {
                shows(
                    after,
                    self.planets@[index_of(self.planets@, h)->Some_0].text_spec(),
                    self.planets@[index_of(self.planets@, h)->Some_0].position,
                    frame,
                )
            } else if h == self.ship.id {
                shows(after, self.ship.text_spec(), self.ship.position, frame)
            } else {
                same_label(after, before)
            },
            None => same_label(after, before),
        }
    }
}

} // verus!
