use rand::rngs::StdRng;
use rand::{RngCore, SeedableRng};
use starcrew::crew::{accrue, hand_off, CREW_ACCRUAL_PERIOD_US};
use starcrew::entity::{find_by_handle, Planet, Ship, Trackable, WindowTransform, PLANET_DIAMETER};
use starcrew::geometry::{distance_sq, isqrt, to_viewport, FrameSize, Point};
use starcrew::label::{refresh, spawn_info_text, update_labels, Label};
use starcrew::navigation::{clicked_planet, move_towards, step_len, step_ship};
use starcrew::orbit::{advance_phase, collides, lies_on_orbit, orbit_from_samples, progress_orbit, FULL_TURN};
use starcrew::text::{onboard_label, waiting_label};
use starcrew::world::{draw_orbit, ClickOutcome, World};

/// Projects a phase onto its orbit with double-precision trigonometry,
/// rounding to length units.
fn project(radius: u64, phase_angle: u64) -> Point {
    let r = radius as f64;
    let a = phase_angle as f64 / 1_000_000.0;
    Point::new((r * a.cos()).round() as i64, (r * a.sin()).round() as i64)
}

const FRAME: FrameSize = FrameSize { width: 800_000, height: 600_000 };

fn planet(id: u64, radius: u64, x: i64, y: i64) -> Planet {
    Planet {
        id,
        orbital_radius: radius,
        phase_angle: 0,
        position: Point::new(x, y),
        crew_waiting: 0,
        time_since_last_crew_update: 0,
    }
}

fn ship_at(x: i64, y: i64, target: Option<u64>) -> Ship {
    Ship {
        id: 0,
        target,
        speed: 100_000,
        position: Point::new(x, y),
        heading: Point::new(0, 0),
        has_arrived: false,
        crewmembers: 0,
    }
}

#[test]
fn viewport_is_offset_by_half_the_frame() {
    assert_eq!(to_viewport(Point::new(10, -20), FRAME), Point::new(400_010, 299_980));
    let p = planet(1, 150_000, 150_000, 0);
    assert_eq!(p.to_window_coordinates(FRAME), Point::new(550_000, 300_000));
}

#[test]
fn squared_distance_and_square_root() {
    assert_eq!(distance_sq(Point::new(0, 0), Point::new(3, 4)), 25);
    assert_eq!(isqrt(0), 0);
    assert_eq!(isqrt(15), 3);
    assert_eq!(isqrt(16), 4);
    assert_eq!(isqrt(u128::MAX), u64::MAX);
}

#[test]
fn label_texts() {
    assert_eq!(waiting_label(0), "0 crew waiting");
    assert_eq!(waiting_label(1234), "1234 crew waiting");
    assert_eq!(onboard_label(7), "7 crew onboard");
    assert_eq!(onboard_label(u32::MAX), "4294967295 crew onboard");
}

#[test]
fn handles_resolve_to_the_first_match() {
    let planets = vec![planet(3, 100_000, 100_000, 0), planet(5, 200_000, 200_000, 0)];
    assert_eq!(find_by_handle(&planets, 5), Some(1));
    assert_eq!(find_by_handle(&planets, 3), Some(0));
    assert_eq!(find_by_handle(&planets, 4), None);
}

#[test]
fn orbit_samples_fall_in_the_band() {
    assert_eq!(orbit_from_samples(0, 0), (100_000, 0));
    assert_eq!(orbit_from_samples(300_000, 6_283_185), (400_000, 0));
    assert_eq!(orbit_from_samples(300_001, 6_283_186), (100_000, 1));
}

#[test]
fn on_orbit_tolerates_one_unit() {
    assert!(lies_on_orbit(100_000, Point::new(100_000, 0)));
    assert!(lies_on_orbit(100_000, Point::new(0, -100_001)));
    assert!(!lies_on_orbit(100_000, Point::new(100_002, 0)));
    assert!(!lies_on_orbit(100_000, Point::new(5_000_000, 0)));
}

#[test]
fn phase_advances_by_arc_length_over_radius() {
    // one second at 10 px/s on a 100 px orbit: 0.1 rad
    assert_eq!(advance_phase(0, 100_000, 1_000_000), 100_000);
    // the same time on a 400 px orbit: a quarter of that
    assert_eq!(advance_phase(7, 400_000, 1_000_000), 25_007);
    assert_eq!(advance_phase(u64::MAX - 1, 100_000, 1_000_000), u64::MAX);
}

#[test]
fn progressing_an_orbit_keeps_the_planet_on_it() {
    let mut p = planet(1, 100_000, 100_000, 0);
    let next = advance_phase(p.phase_angle, p.orbital_radius, 1_000_000);
    assert!(progress_orbit(&mut p, project(100_000, next), 1_000_000));
    assert_eq!(p.phase_angle, 100_000);
    assert_eq!(p.position, Point::new(99_500, 9_983));
    let before = p;
    assert!(!progress_orbit(&mut p, Point::new(0, 0), 1_000_000));
    assert_eq!(p, before);
}

#[test]
fn collisions_by_distance_and_by_orbit() {
    let placed = vec![planet(1, 200_000, 200_000, 0)];
    // same distance from the star band, far away angularly
    assert!(collides(&placed, 230_000, Point::new(-230_000, 0)));
    // close in space though orbits are apart
    assert!(collides(&placed, 300_000, Point::new(200_000, 63_000)));
    assert!(!collides(&placed, 300_000, Point::new(200_000, 64_000)));
    assert!(collides(&placed, 264_000, Point::new(-264_000, 0)) == false);
    assert!(collides(&placed, 265_000, Point::new(200_000 + 40_000, 20_000)));
}

#[test]
fn placement_accepts_and_refuses() {
    let mut w = World::new(100_000);
    assert_eq!(w.try_place(200_000, 0, Point::new(200_000, 0)), Some(1));
    assert_eq!(w.next_handle, 2);
    assert_eq!(w.planets.len(), 1);
    assert_eq!(w.planets[0].crew_waiting, 0);
    // orbit too close to the first
    assert_eq!(w.try_place(250_000, 0, Point::new(-250_000, 0)), None);
    // radius out of the band
    assert_eq!(w.try_place(50_000, 0, Point::new(50_000, 0)), None);
    assert_eq!(w.try_place(500_000, 0, Point::new(500_000, 0)), None);
    // not on its orbit
    assert_eq!(w.try_place(300_000, 0, Point::new(0, 0)), None);
    assert_eq!(w.planets.len(), 1);
    assert_eq!(w.try_place(300_000, 0, Point::new(0, 300_000)), Some(2));
}

#[test]
fn spawned_planets_are_apart() {
    let mut w = World::new(100_000);
    let mut labels = Vec::new();
    for k in 0..4u64 {
        let handle = loop {
            let (radius, phase) = draw_orbit();
            assert!((100_000..=400_000).contains(&radius));
            assert!(phase < FULL_TURN);
            if let Some(h) = w.spawn_planet(&mut labels, radius, phase, project(radius, phase), FRAME) {
                break h;
            }
        };
        assert_eq!(handle, k + 1);
    }
    assert_eq!(w.planets.len(), 4);
    assert_eq!(labels.len(), 4);
    for (label, p) in labels.iter().zip(w.planets.iter()) {
        assert_eq!(label.target, Some(p.id));
        assert_eq!(label.text, "0 crew waiting");
    }
    for i in 0..4 {
        for j in 0..4 {
            if i != j {
                let a = w.planets[i];
                let b = w.planets[j];
                assert!(a.orbital_radius.abs_diff(b.orbital_radius) >= PLANET_DIAMETER as u64);
                assert!(
                    distance_sq(a.position, b.position)
                        >= (PLANET_DIAMETER * PLANET_DIAMETER) as u128
                );
            }
        }
    }
    let mut refused = World::new(100_000);
    let mut none = Vec::new();
    assert_eq!(refused.spawn_planet(&mut none, 200_000, 0, Point::new(0, 0), FRAME), None);
    assert!(refused.planets.is_empty());
    assert!(none.is_empty());
}

#[test]
fn spawned_planet_gets_a_label_below_it() {
    let mut w = World::new(100_000);
    let mut labels = Vec::new();
    assert_eq!(w.spawn_planet(&mut labels, 200_000, 0, Point::new(200_000, 0), FRAME), Some(1));
    assert_eq!(labels.len(), 1);
    assert_eq!(labels[0].target, Some(1));
    assert_eq!(labels[0].text, "0 crew waiting");
    assert_eq!(labels[0].anchor, Point::new(600_000, 220_000));
}

#[test]
fn accrual_scenario_sixty_seconds_at_one_per_fifty() {
    let mut p = planet(1, 100_000, 100_000, 0);
    let mut rng = StdRng::seed_from_u64(7);
    for _ in 0..60 {
        accrue(&mut p, rng.next_u32(), 1_000_000, 50_000_000);
    }
    assert!(p.crew_waiting >= 1);
}

#[test]
fn accrual_is_certain_once_the_period_has_passed() {
    let mut p = planet(1, 100_000, 100_000, 0);
    let mut ticks = 0;
    while p.crew_waiting == 0 {
        accrue(&mut p, u32::MAX, 1_000_000, 50_000_000);
        ticks += 1;
    }
    assert_eq!(ticks, 51);
    assert_eq!(p.time_since_last_crew_update, 0);
}

#[test]
fn accrual_exact_steps() {
    let mut p = planet(1, 100_000, 100_000, 0);
    // nothing has elapsed: no crew, whatever the sample
    accrue(&mut p, 0, 16_000, CREW_ACCRUAL_PERIOD_US);
    assert_eq!((p.crew_waiting, p.time_since_last_crew_update), (0, 16_000));
    accrue(&mut p, 0, 16_000, CREW_ACCRUAL_PERIOD_US);
    assert_eq!((p.crew_waiting, p.time_since_last_crew_update), (1, 0));
    p.time_since_last_crew_update = 50_000_000;
    // half the period elapsed, sample at half the range: no arrival
    accrue(&mut p, 1 << 31, 10, CREW_ACCRUAL_PERIOD_US);
    assert_eq!((p.crew_waiting, p.time_since_last_crew_update), (1, 50_000_010));
    accrue(&mut p, 1 << 31, 10, CREW_ACCRUAL_PERIOD_US);
    assert_eq!((p.crew_waiting, p.time_since_last_crew_update), (2, 0));
}

#[test]
fn accrual_never_lowers_waiting_crew() {
    let mut w = World::new(100_000);
    w.try_place(200_000, 0, Point::new(200_000, 0));
    w.try_place(300_000, 0, Point::new(0, 300_000));
    w.planets[0].crew_waiting = 9;
    for _ in 0..200 {
        let before: Vec<u32> = w.planets.iter().map(|p| p.crew_waiting).collect();
        w.update_crew_waiting(1_000_000);
        for (p, b) in w.planets.iter().zip(before) {
            assert!(p.crew_waiting >= b);
        }
    }
    assert!(w.planets[1].crew_waiting >= 1);
}

#[test]
fn hand_off_loads_the_whole_queue() {
    let mut s = ship_at(0, 0, Some(1));
    s.crewmembers = 4;
    let mut p = planet(1, 100_000, 100_000, 0);
    p.crew_waiting = 11;
    hand_off(&mut s, &mut p);
    assert_eq!(s.crewmembers, 11);
    assert_eq!(p.crew_waiting, 0);
}

#[test]
fn ship_overshoots_and_arrives_in_one_tick() {
    let mut s = ship_at(0, 0, Some(1));
    let mut p = planet(1, 50_000, 50_000, 0);
    p.crew_waiting = 3;
    assert!(step_ship(&mut s, &mut p, 1_000_000));
    assert_eq!(s.position, Point::new(100_000, 0));
    assert!(s.position.x >= 50_000);
    assert!(s.has_arrived);
    assert_eq!(s.heading, Point::new(50_000, 0));
    assert_eq!(s.crewmembers, 3);
    assert_eq!(p.crew_waiting, 0);
}

#[test]
fn arrival_fires_once_per_target() {
    let mut w = World::new(100_000);
    w.try_place(100_000, 0, Point::new(100_000, 0));
    w.planets[0].crew_waiting = 5;
    w.ship.target = Some(1);
    w.ship.position = Point::new(90_000, 0);
    assert!(w.progress_ships(16_000));
    assert!(w.ship.has_arrived);
    assert_eq!(w.ship.crewmembers, 5);
    for _ in 0..20 {
        w.planets[0].crew_waiting = 2;
        assert!(!w.progress_ships(16_000));
        assert!(w.ship.has_arrived);
        assert_eq!(w.ship.crewmembers, 5);
        assert_eq!(w.planets[0].crew_waiting, 2);
    }
    // retargeting through a click resets the flag and allows one more hand-off
    let click = Point::new(500_000, 300_000);
    assert_eq!(w.handle_ship_targeting(click, FRAME), ClickOutcome::Selected);
    assert!(!w.ship.has_arrived);
    assert!(w.progress_ships(16_000));
    assert_eq!(w.ship.crewmembers, 2);
    assert_eq!(w.planets[0].crew_waiting, 0);
}

#[test]
fn travelling_ship_closes_in() {
    let mut s = ship_at(0, 0, Some(1));
    let mut p = planet(1, 300_000, 0, 300_000);
    assert_eq!(step_len(s.speed, 16_000), 1_600);
    assert!(!step_ship(&mut s, &mut p, 16_000));
    assert_eq!(s.position, Point::new(0, 1_600));
    assert!(!s.has_arrived);
    assert_eq!(move_towards(Point::new(0, 0), Point::new(3, 4), 10), Point::new(6, 8));
    assert_eq!(move_towards(Point::new(7, 7), Point::new(7, 7), 10), Point::new(7, 7));
    assert_eq!(step_len(u64::MAX, u64::MAX), 1 << 32);
}

#[test]
fn stale_or_missing_target_is_a_no_op() {
    let mut w = World::new(100_000);
    w.try_place(100_000, 0, Point::new(100_000, 0));
    let before = w.ship;
    assert!(!w.progress_ships(1_000_000));
    assert_eq!(w.ship, before);
    w.ship.target = Some(42);
    let before = w.ship;
    assert!(!w.progress_ships(1_000_000));
    assert_eq!(w.ship, before);
}

#[test]
fn click_off_every_planet_misses() {
    let mut w = World::new(100_000);
    w.try_place(150_000, 0, Point::new(150_000, 0));
    w.ship.target = Some(1);
    w.ship.has_arrived = true;
    let before = w.ship;
    // 64 px and one unit away from the planet's viewport position (550, 300)
    let miss = Point::new(550_000 + PLANET_DIAMETER + 1, 300_000);
    assert_eq!(w.handle_ship_targeting(miss, FRAME), ClickOutcome::Missed);
    assert_eq!(w.ship, before);
    assert_eq!(w.handle_ship_targeting(Point::new(0, 0), FRAME), ClickOutcome::Missed);
    assert_eq!(w.ship, before);
}

#[test]
fn click_on_a_planet_selects_it() {
    let mut w = World::new(100_000);
    w.try_place(150_000, 0, Point::new(150_000, 0));
    w.try_place(300_000, 0, Point::new(0, 300_000));
    // the second planet is at viewport (400, 600); pointer y is measured from the top
    let click = Point::new(400_000 + 10_000, 0);
    assert_eq!(w.handle_ship_targeting(click, FRAME), ClickOutcome::Selected);
    assert_eq!(w.ship.target, Some(2));
    assert!(!w.ship.has_arrived);
    let edge = Point::new(550_000 + PLANET_DIAMETER, 300_000);
    assert_eq!(w.handle_ship_targeting(edge, FRAME), ClickOutcome::Selected);
    assert_eq!(w.ship.target, Some(1));
}

#[test]
fn last_planet_hit_wins() {
    let planets = vec![planet(1, 100_000, 100_000, 0), planet(2, 164_000, 140_000, 0)];
    let click = Point::new(520_000, 300_000);
    assert_eq!(clicked_planet(&planets, click, FRAME), Some(1));
    assert_eq!(clicked_planet(&planets, Point::new(0, 0), FRAME), None);
}

#[test]
fn label_of_removed_entity_keeps_its_last_state() {
    let mut planets = vec![planet(1, 100_000, 100_000, 0)];
    planets[0].crew_waiting = 2;
    let mut label = spawn_info_text(&planets[0], FRAME);
    assert_eq!(label.text, "2 crew waiting");
    assert_eq!(label.anchor, Point::new(500_000, 220_000));
    planets[0].crew_waiting = 3;
    assert!(refresh(&mut label, &planets, FRAME));
    assert_eq!(label.text, "3 crew waiting");
    planets.clear();
    assert!(!refresh(&mut label, &planets, FRAME));
    assert_eq!(label.text, "3 crew waiting");
    assert_eq!(label.anchor, Point::new(500_000, 220_000));
    assert_eq!(label.target, Some(1));
}

#[test]
fn label_without_target_is_skipped() {
    let planets = vec![planet(1, 100_000, 100_000, 0)];
    let mut label = Label { target: None, text: String::from("idle"), anchor: Point::new(1, 2) };
    assert!(!refresh(&mut label, &planets, FRAME));
    assert_eq!(label.text, "idle");
    assert_eq!(label.anchor, Point::new(1, 2));
}

#[test]
fn world_labels_follow_planets_and_ship() {
    let mut w = World::new(100_000);
    w.try_place(100_000, 0, Point::new(100_000, 0));
    let mut labels = vec![spawn_info_text(&w.planets[0], FRAME), spawn_info_text(&w.ship, FRAME)];
    assert_eq!(labels[1].text, "0 crew onboard");
    w.planets[0].crew_waiting = 6;
    w.ship.target = Some(1);
    w.ship.position = Point::new(95_000, 0);
    assert!(w.progress_ships(1_000));
    w.update_text(&mut labels, FRAME);
    assert_eq!(labels[0].text, "0 crew waiting");
    assert_eq!(labels[1].text, "6 crew onboard");
    assert_eq!(labels[1].anchor.y, w.ship.position.y + 300_000 - 80_000);
    let mut only_planets = vec![spawn_info_text(&w.ship, FRAME)];
    update_labels(&mut only_planets, &w.planets, FRAME);
    assert_eq!(only_planets[0].text, "6 crew onboard");
    assert_eq!(w.ship.display_text(), "6 crew onboard");
}

#[test]
fn orbits_progress_for_every_planet() {
    let mut w = World::new(100_000);
    w.try_place(100_000, 0, Point::new(100_000, 0));
    w.try_place(400_000, 0, Point::new(400_000, 0));
    let phases = w.advanced_phases(2_000_000);
    assert_eq!(phases, vec![200_000, 50_000]);
    let positions: Vec<Point> = w
        .planets
        .iter()
        .zip(phases.iter())
        .map(|(p, ph)| project(p.orbital_radius, *ph))
        .collect();
    w.progress_orbits(&positions, 2_000_000);
    assert_eq!(w.planets[0].phase_angle, 200_000);
    assert_eq!(w.planets[1].phase_angle, 50_000);
    assert_eq!(w.planets[1].position, project(400_000, 50_000));
    // a missing point leaves its planet as it was
    let before = w.planets[1];
    let phases = w.advanced_phases(1_000_000);
    w.progress_orbits(&vec![project(100_000, phases[0])], 1_000_000);
    assert_eq!(w.planets[0].phase_angle, 300_000);
    assert_eq!(w.planets[1], before);
}

#[test]
fn arrival_flag_is_sticky_for_any_step() {
    let p = planet(1, 100_000, 100_000, 0);
    let mut s = ship_at(-1_000_000, 0, Some(1));
    assert!(!s.update_has_arrived(&p, 0));
    assert!(!s.has_arrived);
    assert!(s.update_has_arrived(&p, u64::MAX));
    assert!(s.has_arrived);
    assert!(!s.update_has_arrived(&p, u64::MAX));
    assert!(s.has_arrived);
}
