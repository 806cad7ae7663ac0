//! The simulated entities, their stable handles, and the one lookup of a
//! handle among the live entities of a kind.
use vstd::prelude::*;
use crate::geometry::{Point, FrameSize, viewport_of, to_viewport};
use crate::text::{waiting_text, onboard_text, waiting_label, onboard_label};

verus! {

/// The rendered diameter of a planet, in length units (64 pixels).
pub const PLANET_DIAMETER: i64 = 64000;

/// The smallest orbital radius a planet is placed on (100 pixels).
pub const MIN_ORBITAL_RADIUS: u64 = 100000;

/// The largest orbital radius a planet is placed on (400 pixels).
pub const MAX_ORBITAL_RADIUS: u64 = 400000;

/// A stable identity of an entity, used as a weak reference.
pub type Handle = u64;

/// A planet on a circular orbit around the star at the origin.
#[derive(Clone, Copy, Debug, PartialEq, Eq, Structural)]
pub struct Planet {
    pub id: Handle,
    /// Orbital radius, in length units.
    pub orbital_radius: u64,
    /// Phase angle, in microradians; it grows and is never wrapped.
    pub phase_angle: u64,
    /// Absolute position, derived from the radius and the phase angle.
    pub position: Point,
    pub crew_waiting: u32,
    /// Microseconds since crew was last added.
    pub time_since_last_crew_update: u64,
}

/// The one ship.
#[derive(Clone, Copy, Debug, PartialEq, Eq, Structural)]
pub struct Ship {
    pub id: Handle,
    /// Weak reference to the target planet.
    pub target: Option<Handle>,
    /// Speed, in length units per second.
    pub speed: u64,
    pub position: Point,
    /// The direction the ship faces: the displacement towards its target at
    /// its last move.
    pub heading: Point,
    pub has_arrived: bool,
    pub crewmembers: u32,
}

impl Default for Planet {
    /// A planet at the origin with no orbit, no crew and a fresh clock.
    fn default() -> (p: Planet)
        ensures
            p == (Planet {
                id: 0,
                orbital_radius: 0,
                phase_angle: 0,
                position: Point { x: 0, y: 0 },
                crew_waiting: 0,
                time_since_last_crew_update: 0,
            }),
    {
        Planet {
            id: 0,
            orbital_radius: 0,
            phase_angle: 0,
            position: Point { x: 0, y: 0 },
            crew_waiting: 0,
            time_since_last_crew_update: 0,
        }
    }
}

/// The speed of a new ship, in length units per second (100 pixels per second).
pub const DEFAULT_SHIP_SPEED: u64 = 100000;

impl Default for Ship {
    /// An idle ship at the origin, without target or crew.
    fn default() -> (s: Ship)
        ensures
            s == (Ship {
                id: 0,
                target: None,
                speed: DEFAULT_SHIP_SPEED,
                position: Point { x: 0, y: 0 },
                heading: Point { x: 0, y: 0 },
                has_arrived: false,
                crewmembers: 0,
            }),
    {
        Ship {
            id: 0,
            target: None,
            speed: DEFAULT_SHIP_SPEED,
            position: Point { x: 0, y: 0 },
            heading: Point { x: 0, y: 0 },
            has_arrived: false,
            crewmembers: 0,
        }
    }
}

/// `p` lies on the circle of radius `r` around the origin, up to one length
/// unit of rounding.
pub open spec fn on_orbit(r: int, p: Point) -> bool {
    (r - 1) * (r - 1) <= p.x * p.x + p.y * p.y <= (r + 1) * (r + 1)
}

impl Planet {
    pub open spec fn wf(self) -> bool {
        &&& 0 < self.orbital_radius <= MAX_ORBITAL_RADIUS
        &&& self.position.in_bounds()
        &&& on_orbit(self.orbital_radius as int, self.position)
    }
}

impl Ship {
    pub open spec fn wf(self) -> bool {
        self.position.in_bounds()
    }
}

/// An entity that an overlay label can follow: it has a handle, a position
/// and a rule for its label text.
pub trait Trackable {
    spec fn handle_spec(&self) -> Handle;

    spec fn position_spec(&self) -> Point;

    spec fn text_spec(&self) -> Seq<char>;

    fn handle(&self) -> (r: Handle)
        ensures
            r == self.handle_spec(),
    ;

    fn position(&self) -> (r: Point)
        ensures
            r == self.position_spec(),
    ;

    fn display_text(&self) -> (r: String)
        ensures
            r@ == self.text_spec(),
    ;
}

impl Trackable for Planet {
    open spec fn handle_spec(&self) -> Handle {
        self.id
    }

    open spec fn position_spec(&self) -> Point {
        self.position
    }

    open spec fn text_spec(&self) -> Seq<char> {
        waiting_text(self.crew_waiting as nat)
    }

    fn handle(&self) -> (r: Handle) {
        self.id
    }

    fn position(&self) -> (r: Point) {
        self.position
    }

    fn display_text(&self) -> (r: String) {
        waiting_label(self.crew_waiting)
    }
}

impl Trackable for Ship {
    open spec fn handle_spec(&self) -> Handle {
        self.id
    }

    open spec fn position_spec(&self) -> Point {
        self.position
    }

    open spec fn text_spec(&self) -> Seq<char> {
        onboard_text(self.crewmembers as nat)
    }

    fn handle(&self) -> (r: Handle) {
        self.id
    }

    fn position(&self) -> (r: Point) {
        self.position
    }

    fn display_text(&self) -> (r: String) {
        onboard_label(self.crewmembers)
    }
}

/// Converts an entity's absolute position into viewport coordinates.
pub trait WindowTransform: Trackable {
    fn to_window_coordinates(&self, frame: FrameSize) -> (v: Point)
        requires
            self.position_spec().in_bounds(),
            frame.valid(),
        ensures
            v == viewport_of(self.position_spec(), frame),
    ;
}

impl WindowTransform for Planet {
    fn to_window_coordinates(&self, frame: FrameSize) -> (v: Point) {
        to_viewport(self.position, frame)
    }
}

impl WindowTransform for Ship {
    fn to_window_coordinates(&self, frame: FrameSize) -> (v: Point) {
        to_viewport(self.position, frame)
    }
}

/// The first index of `live` whose entity has handle `h`, if any.
pub open spec fn index_of<T: Trackable>(live: Seq<T>, h: Handle) -> Option<int> {
    if exists|i: int| 0 <= i < live.len() && (#[trigger] live[i]).handle_spec() == h {
        Some(choose|i: int|
            0 <= i < live.len() && (#[trigger] live[i]).handle_spec() == h && forall|j: int|
                0 <= j < i ==> (#[trigger] live[j]).handle_spec() != h)
    } else {
        None
    }
}

/// Resolves a weak reference: the index of the first live entity with
/// handle `h`, or `None` when no live entity has it.
pub fn find_by_handle<T: Trackable>(live: &Vec<T>, h: Handle) -> (r: Option<usize>)
    ensures
        match r {
            Some(i) => {
                &&& i < live.len()
                &&& live[i as int].handle_spec() == h
                &&& forall|j: int| 0 <= j < i ==> (#[trigger] live[j]).handle_spec() != h
            },
            None => forall|j: int| 0 <= j < live.len() ==> (#[trigger] live[j]).handle_spec() != h,
        },
        r matches Some(i) ==> index_of(live@, h) == Some(i as int),
        r is None <==> index_of(live@, h) is None,
{
    let mut i: usize = 0;
    while i < live.len()
        invariant
            i <= live.len(),
            forall|j: int| 0 <= j < i ==> (#[trigger] live[j]).handle_spec() != h,
        decreases live.len() - i,
    {
        if live[i].handle() == h {
            proof {
                let k = i as int;
                assert(live@[k].handle_spec() == h);
                let c = choose|c: int|
                    0 <= c < live@.len() && (#[trigger] live@[c]).handle_spec() == h && forall|j: int|
                        0 <= j < c ==> (#[trigger] live@[j]).handle_spec() != h;
                assert(0 <= c < live@.len() && live@[c].handle_spec() == h && forall|j: int|
                        0 <= j < c ==> (#[trigger] live@[j]).handle_spec() != h);
                if c < k {
                } else if c > k {
                    assert(live@[k].handle_spec() != h);
                }
            }
            return Some(i);
        }
        i += 1;
    }
    None
}

} // verus!
