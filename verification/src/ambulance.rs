use vstd::prelude::*;

use crate::moveable::random_zone;
use crate::moveable::spec_dir_x;
use crate::moveable::spec_dir_y;
use crate::moveable::spec_dist_sq;
use crate::moveable::unit_toward;
use crate::moveable::zone_of;
use crate::moveable::dist_sq;
use crate::moveable::EntityParams;
use crate::moveable::Moveable;
use crate::moveable::Point;
use crate::moveable::Zone;
use crate::moveable::MAX_COORD;
use crate::moveable::MAX_DIM;
use crate::rng::SimRng;

verus! {

/// The rescue vehicle: motion plus a dispatch/pickup/return protocol keyed
/// to a single patient id.
#[derive(Clone, Copy, Debug, PartialEq, Eq, Structural)]
pub struct Ambulance {
    pub ent_params: EntityParams,
    pub destination: Point,
    pub is_free: bool,
    pub patient: Option<usize>,
}

/// A dispatch spawn point: on one of the four border edges, tangent to the
/// arena, with the free coordinate inside the arena's span.
pub open spec fn on_border_spawn(e: EntityParams, width: int, height: int) -> bool {
    ||| (e.cx == -e.radius && 0 <= e.cy < height)
    ||| (e.cx == width + e.radius && 0 <= e.cy < height)
    ||| (e.cy == -e.radius && 0 <= e.cx < width)
    ||| (e.cy == height + e.radius && 0 <= e.cx < width)
}

impl Ambulance {
    /// A free ambulance never keeps a patient assigned.
    pub open spec fn wf(self) -> bool {
        &&& self.ent_params.wf()
        &&& -MAX_COORD <= self.destination.x <= MAX_COORD
        &&& -MAX_COORD <= self.destination.y <= MAX_COORD
        &&& (self.is_free ==> self.patient is None)
    }

    /// The rescue tick: inside the arena, advance and reverse the heading
    /// on reaching the destination; once outside while still assigned,
    /// finalize to free and idle.
    pub open spec fn spec_move_being(self, width: int, height: int) -> Ambulance {
        let e = self.ent_params;
        match zone_of(e.cx as int, e.cy as int, e.radius as int, width, height) {
            Zone::Inside => {
                let stepped = e.spec_move_step();
                if spec_dist_sq(
                    self.destination.x as int,
                    self.destination.y as int,
                    stepped.cx as int,
                    stepped.cy as int,
                ) <= stepped.radius * stepped.radius {
                    Ambulance {
                        ent_params: EntityParams {
                            vx: (-stepped.vx) as i64,
                            vy: (-stepped.vy) as i64,
                            ..stepped
                        },
                        ..self
                    }
                } else {
                    Ambulance { ent_params: stepped, ..self }
                }
            },
            _ => {
                if !self.is_free {
                    Ambulance { is_free: true, patient: None, ..self }
                } else {
                    self
                }
            },
        }
    }

    /// Clears the assignment and frees the vehicle.
    pub fn finish_act(&mut self)
        ensures
            *final(self) == (Ambulance { is_free: true, patient: None, ..*old(self) }),
    {
        self.is_free = true;
        self.patient = None;
    }

    pub fn is_free(self) -> (b: bool)
        ensures
            b == self.is_free,
    {
        self.is_free
    }

    pub fn get_patient_id(self) -> (p: Option<usize>)
        ensures
            p == self.patient,
    {
        self.patient
    }

    /// Assigns the patient, spawns at a random border point and heads for
    /// the destination; a vehicle already on a rescue refuses the dispatch.
    pub fn set_destination(&mut self, cid: usize, dest: Point, width: i64, height: i64, rng: &mut SimRng)
        requires
            old(self).wf(),
            0 < width <= MAX_DIM,
            0 < height <= MAX_DIM,
            -MAX_COORD <= dest.x <= MAX_COORD,
            -MAX_COORD <= dest.y <= MAX_COORD,
        ensures
            final(self).wf(),
            !old(self).is_free ==> *final(self) == *old(self),
            old(self).is_free ==> ({
                &&& final(self).destination == dest
                &&& final(self).patient == Some(cid)
                &&& !final(self).is_free
                &&& final(self).ent_params.radius == old(self).ent_params.radius
                &&& final(self).ent_params.speed == old(self).ent_params.speed
                &&& on_border_spawn(final(self).ent_params, width as int, height as int)
                &&& final(self).ent_params.vx == spec_dir_x(
                    dest.x - final(self).ent_params.cx,
                    dest.y - final(self).ent_params.cy,
                )
                &&& final(self).ent_params.vy == spec_dir_y(
                    dest.x - final(self).ent_params.cx,
                    dest.y - final(self).ent_params.cy,
                )
            }),
    {
        if !self.is_free {
            return;
        }
        self.destination = dest;
        self.patient = Some(cid);
        self.is_free = false;
        let zone = random_zone(rng);
        let r = self.ent_params.get_radius();
        let start = match zone {
            Zone::LeftBorder => Point { x: -r, y: rng.gen_range_i64(0, height) },
            Zone::RightBorder => Point { x: width + r, y: rng.gen_range_i64(0, height) },
            Zone::UpBorder => Point { x: rng.gen_range_i64(0, width), y: -r },
            Zone::BottomBorder => Point { x: rng.gen_range_i64(0, width), y: height + r },
            Zone::Inside => Point { x: r, y: r },
        };
        self.ent_params.set_cx(start.x);
        self.ent_params.set_cy(start.y);
        let v = unit_toward(start, dest);
        self.ent_params.set_velocity(v.0, v.1);
    }
}

impl Moveable for Ambulance {
    open spec fn mv_wf(&self) -> bool {
        self.wf()
    }

    fn get_position(&self) -> (p: Point)
        ensures
            p.x == self.ent_params.cx,
            p.y == self.ent_params.cy,
    {
        self.ent_params.get_center()
    }

    fn get_radius(self) -> (r: i64)
        ensures
            r == self.ent_params.radius,
    {
        self.ent_params.get_radius()
    }

    fn get_speed(self) -> (s: i64)
        ensures
            s == self.ent_params.speed,
    {
        self.ent_params.get_speed()
    }

    fn move_being(&mut self, width: i64, height: i64)
        ensures
            *final(self) == old(self).spec_move_being(width as int, height as int),
    {
        match self.ent_params.where_is(width, height) {
            Zone::Inside => {
                self.ent_params.move_step();
                let pos = self.ent_params.get_center();
                let r = self.ent_params.get_radius();
                assert(r * r <= 1_000_000_000_000) by (nonlinear_arith)
                    requires 0 <= r <= 1_000_000;
                let d = dist_sq(self.destination, pos);
                if d <= r * r {
                    self.ent_params.come_back();
                }
            },
            _ => {
                if !self.is_free() {
                    self.finish_act();
                }
            },
        }
    }
}

/// The two flags never reach the disallowed combination — a free ambulance
/// with a patient still assigned — and the rescue tick keeps it that way.
pub proof fn lemma_never_free_with_patient(a: Ambulance, width: int, height: int)
    requires
        a.wf(),
    ensures
        !(a.is_free && a.patient is Some),
        !(a.spec_move_being(width, height).is_free
            && a.spec_move_being(width, height).patient is Some),
{
}

/// A fresh ambulance, spawned at a random border point and headed for the
/// given destination, assigned to nobody.
pub fn new(width: i64, height: i64, dest: Point, rng: &mut SimRng) -> (a: Ambulance)
    requires
        0 < width <= MAX_DIM,
        0 < height <= MAX_DIM,
        -MAX_COORD <= dest.x <= MAX_COORD,
        -MAX_COORD <= dest.y <= MAX_COORD,
    ensures
        a.destination == dest,
        a.patient is None,
        !a.is_free,
        a.ent_params.radius == 10,
        a.ent_params.speed == 10,
        on_border_spawn(a.ent_params, width as int, height as int),
        a.ent_params.vx == spec_dir_x(dest.x - a.ent_params.cx, dest.y - a.ent_params.cy),
        a.ent_params.vy == spec_dir_y(dest.x - a.ent_params.cx, dest.y - a.ent_params.cy),
        a.wf(),
{
    let zone = random_zone(rng);
    let r: i64 = 10;
    let start = match zone {
        Zone::LeftBorder => Point { x: -r, y: rng.gen_range_i64(0, height) },
        Zone::RightBorder => Point { x: width + r, y: rng.gen_range_i64(0, height) },
        Zone::UpBorder => Point { x: rng.gen_range_i64(0, width), y: -r },
        Zone::BottomBorder => Point { x: rng.gen_range_i64(0, width), y: height + r },
        Zone::Inside => Point { x: r, y: r },
    };
    let v = unit_toward(start, dest);
    let ent_params = EntityParams::new(start, r, v.0, v.1, 10);
    Ambulance { ent_params, destination: dest, is_free: false, patient: None }
}

} // verus!
