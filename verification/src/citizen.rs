use vstd::prelude::*;

use crate::gamesettings::Rgba;
use crate::gamesettings::CHANNEL_MAX;
use crate::infectable::Infectable;
use crate::infectable::InfectionParams;
use crate::infectable::MAX_IMMUNITY;
use crate::moveable::zone_of;
use crate::moveable::EntityParams;
use crate::moveable::Moveable;
use crate::moveable::Point;
use crate::moveable::Zone;
use crate::moveable::MAX_COORD;
use crate::moveable::MAX_DIM;
use crate::moveable::VEL_SCALE;
use crate::rng::SimRng;

verus! {

/// A wandering inhabitant of the arena: motion, infection state and a
/// stable identity.
#[derive(Clone, Copy, Debug, PartialEq, Eq, Structural)]
pub struct Citizen {
    pub ent_params: EntityParams,
    pub inf_params: InfectionParams,
    pub id: usize,
}

/// One channel interpolated from h toward d by the fraction health/immunity:
/// full health lands on d, zero health stays at h.
pub open spec fn spec_blend(h: int, d: int, health: int, imm: int) -> int {
    if h >= d {
        h - health * (h - d) / imm
    } else {
        h + health * (d - h) / imm
    }
}

/// One channel of the citizen's tint, by exact integer interpolation.
fn blend_channel(h: u16, d: u16, health: i32, imm: i32) -> (c: u16)
    requires
        h <= CHANNEL_MAX,
        d <= CHANNEL_MAX,
        0 <= health <= imm,
        1 <= imm <= MAX_IMMUNITY,
    ensures
        c == spec_blend(h as int, d as int, health as int, imm as int),
        c <= CHANNEL_MAX,
{
    if h >= d {
        let diff = (h - d) as u64;
        assert(health * diff <= 1_000_000_000) by (nonlinear_arith)
            requires 0 <= health <= 1_000_000 && 0 <= diff <= 1000;
        let t = (health as u64) * diff / (imm as u64);
        assert(t <= diff) by {
            assert(health * diff <= imm * diff) by (nonlinear_arith)
                requires 0 <= health <= imm && 0 <= diff;
            vstd::arithmetic::div_mod::lemma_div_is_ordered(
                health as int * diff as int,
                imm as int * diff as int,
                imm as int,
            );
            assert((imm as int * diff as int) / (imm as int) == diff) by (nonlinear_arith)
                requires 1 <= imm;
        }
        h - (t as u16)
    } else {
        let diff = (d - h) as u64;
        assert(health * diff <= 1_000_000_000) by (nonlinear_arith)
            requires 0 <= health <= 1_000_000 && 0 <= diff <= 1000;
        let t = (health as u64) * diff / (imm as u64);
        assert(t <= diff) by {
            assert(health * diff <= imm * diff) by (nonlinear_arith)
                requires 0 <= health <= imm && 0 <= diff;
            vstd::arithmetic::div_mod::lemma_div_is_ordered(
                health as int * diff as int,
                imm as int * diff as int,
                imm as int,
            );
            assert((imm as int * diff as int) / (imm as int) == diff) by (nonlinear_arith)
                requires 1 <= imm;
        }
        h + (t as u16)
    }
}

impl Citizen {
    pub open spec fn wf(self) -> bool {
        &&& self.ent_params.wf()
        &&& self.inf_params.wf()
    }

    /// The citizen's tick policy: wrap to the opposite edge and recover on
    /// any border, otherwise take one motion step.
    pub open spec fn spec_move_being(self, width: int, height: int) -> Citizen {
        let r = self.ent_params.radius;
        match zone_of(
            self.ent_params.cx as int,
            self.ent_params.cy as int,
            r as int,
            width,
            height,
        ) {
            Zone::LeftBorder => Citizen {
                ent_params: EntityParams { cx: (width + r) as i64, ..self.ent_params },
                inf_params: self.inf_params.spec_recover(),
                ..self
            },
            Zone::RightBorder => Citizen {
                ent_params: EntityParams { cx: (-r) as i64, ..self.ent_params },
                inf_params: self.inf_params.spec_recover(),
                ..self
            },
            Zone::BottomBorder => Citizen {
                ent_params: EntityParams { cy: (-r) as i64, ..self.ent_params },
                inf_params: self.inf_params.spec_recover(),
                ..self
            },
            Zone::UpBorder => Citizen {
                ent_params: EntityParams { cy: (height + r) as i64, ..self.ent_params },
                inf_params: self.inf_params.spec_recover(),
                ..self
            },
            Zone::Inside => Citizen { ent_params: self.ent_params.spec_move_step(), ..self },
        }
    }

    /// Curing a citizen also unfreezes it once it is fully healthy again.
    pub open spec fn spec_cure(self) -> Citizen {
        let inf = self.inf_params.spec_cure();
        if inf.spec_is_healthy() {
            Citizen {
                inf_params: inf,
                ent_params: EntityParams { speed: 5, ..self.ent_params },
                ..self
            }
        } else {
            Citizen { inf_params: inf, ..self }
        }
    }

    /// Gives the wanderer a fresh random unit-ish heading.
    pub fn change_angle(&mut self, rng: &mut SimRng)
        ensures
            *final(self) == (Citizen {
                ent_params: EntityParams {
                    vx: final(self).ent_params.vx,
                    vy: final(self).ent_params.vy,
                    ..old(self).ent_params
                },
                ..*old(self)
            }),
            -VEL_SCALE <= final(self).ent_params.vx <= VEL_SCALE,
            -VEL_SCALE <= final(self).ent_params.vy <= VEL_SCALE,
            crate::moveable::unit_norm(
                final(self).ent_params.vx as int,
                final(self).ent_params.vy as int,
            ),
    {
        let v = crate::moveable::random_heading(rng);
        self.ent_params.set_velocity(v.0, v.1);
    }

    /// The citizen's tint between the two palette colors, by its health.
    pub fn get_color(self, hcolor: Rgba, dcolor: Rgba) -> (c: Rgba)
        requires
            self.inf_params.wf(),
            hcolor.wf(),
            dcolor.wf(),
        ensures
            c.r == spec_blend(hcolor.r as int, dcolor.r as int, self.inf_params.health as int, self.inf_params.immunity as int),
            c.g == spec_blend(hcolor.g as int, dcolor.g as int, self.inf_params.health as int, self.inf_params.immunity as int),
            c.b == spec_blend(hcolor.b as int, dcolor.b as int, self.inf_params.health as int, self.inf_params.immunity as int),
            c.a == spec_blend(hcolor.a as int, dcolor.a as int, self.inf_params.health as int, self.inf_params.immunity as int),
            c.wf(),
    {
        let health = self.inf_params.health;
        let imm = self.inf_params.immunity;
        Rgba {
            r: blend_channel(hcolor.r, dcolor.r, health, imm),
            g: blend_channel(hcolor.g, dcolor.g, health, imm),
            b: blend_channel(hcolor.b, dcolor.b, health, imm),
            a: blend_channel(hcolor.a, dcolor.a, health, imm),
        }
    }

    /// Snaps the citizen to the rescuer's position (the tow handshake).
    pub fn go_hospital(&mut self, p: Point)
        ensures
            *final(self) == (Citizen {
                ent_params: EntityParams { cx: p.x, cy: p.y, ..old(self).ent_params },
                ..*old(self)
            }),
    {
        self.ent_params.set_cx(p.x);
        self.ent_params.set_cy(p.y);
    }

    pub fn recover(&mut self)
        ensures
            *final(self) == (Citizen {
                inf_params: old(self).inf_params.spec_recover(),
                ..*old(self)
            }),
    {
        self.inf_params.recover();
    }

    pub fn get_id(self) -> (id: usize)
        ensures
            id == self.id,
    {
        self.id
    }

    /// Freezes the citizen in place while it waits for rescue.
    pub fn stop(&mut self)
        ensures
            *final(self) == (Citizen {
                ent_params: EntityParams { speed: 0, ..old(self).ent_params },
                ..*old(self)
            }),
    {
        self.ent_params.stop();
    }
}

impl Moveable for Citizen {
    open spec fn mv_wf(&self) -> bool {
        self.wf()
    }

    fn get_position(&self) -> (p: Point)
        ensures
            p.x == self.ent_params.cx,
            p.y == self.ent_params.cy,
    {
        self.ent_params.get_center()
    }

    fn get_radius(self) -> (r: i64)
        ensures
            r == self.ent_params.radius,
    {
        self.ent_params.get_radius()
    }

    fn get_speed(self) -> (s: i64)
        ensures
            s == self.ent_params.speed,
    {
        self.ent_params.get_speed()
    }

    fn move_being(&mut self, width: i64, height: i64)
        ensures
            *final(self) == old(self).spec_move_being(width as int, height as int),
    {
        let r = self.ent_params.get_radius();
        match self.ent_params.where_is(width, height) {
            Zone::LeftBorder => {
                self.ent_params.set_cx(width + r);
                self.recover();
            },
            Zone::RightBorder => {
                self.ent_params.set_cx(-r);
                self.recover();
            },
            Zone::BottomBorder => {
                self.ent_params.set_cy(-r);
                self.recover();
            },
            Zone::UpBorder => {
                self.ent_params.set_cy(height + r);
                self.recover();
            },
            Zone::Inside => {
                self.ent_params.move_step();
            },
        }
    }
}

impl Infectable for Citizen {
    open spec fn inf_wf(&self) -> bool {
        self.wf()
    }

    fn needs_doctor(&mut self) -> (r: bool)
        ensures
            r == old(self).inf_params.spec_needs_doctor(),
            *final(self) == *old(self),
    {
        self.inf_params.needs_doctor()
    }

    fn get_immunity(self) -> (r: i32)
        ensures
            r == self.inf_params.immunity,
    {
        self.inf_params.get_immunity()
    }

    fn become_infected(&mut self)
        ensures
            *final(self) == (Citizen {
                inf_params: old(self).inf_params.spec_infect(),
                ..*old(self)
            }),
    {
        self.inf_params.infect();
    }

    fn cure(&mut self)
        ensures
            *final(self) == old(self).spec_cure(),
    {
        self.inf_params.cure();
        if self.inf_params.is_healthy() {
            self.ent_params.set_speed(5);
        }
    }
}

/// A citizen that crosses the left edge is carried to the right edge with
/// its height kept, and leaves the tick fully healthy.
pub proof fn lemma_left_exit_wraps_and_recovers(c: Citizen, width: int, height: int)
    requires
        c.ent_params.cx + c.ent_params.radius < 0,
        -MAX_COORD <= width + c.ent_params.radius <= MAX_COORD,
    ensures
        ({
            let c2 = c.spec_move_being(width, height);
            &&& c2.ent_params.cx == width + c.ent_params.radius
            &&& c2.ent_params.cy == c.ent_params.cy
            &&& c2.inf_params == c.inf_params.spec_recover()
            &&& c2.inf_params.spec_is_healthy()
            &&& c2.id == c.id
        }),
{
}

/// A fresh citizen at a random position and heading, fully healthy.
pub fn random_citizen(width: i64, height: i64, id: usize, rng: &mut SimRng) -> (c: Citizen)
    requires
        0 < width <= MAX_DIM,
        0 < height <= MAX_DIM,
    ensures
        c.wf(),
        c.id == id,
        c.inf_params == (InfectionParams { immunity: 10, health: 10 }),
        0 <= c.ent_params.cx < width,
        0 <= c.ent_params.cy < height,
        c.ent_params.radius == 20,
        c.ent_params.speed == 5,
        crate::moveable::unit_norm(c.ent_params.vx as int, c.ent_params.vy as int),
{
    Citizen {
        id,
        ent_params: EntityParams::random((width, height), rng),
        inf_params: InfectionParams::default(),
    }
}

} // verus!
