use vstd::prelude::*;

use crate::moveable::zone_of;
use crate::moveable::EntityParams;
use crate::moveable::Moveable;
use crate::moveable::Point;
use crate::moveable::Zone;
use crate::moveable::MAX_DIM;

verus! {

/// How much the sneeze radius grows each tick while the latch is held.
pub const SNEEZE_STEP: i64 = 10;

/// Largest sneeze ceiling a player may be configured with.
pub const MAX_SNEEZE: i64 = 1_000_000;

/// A snapshot of the currently held directional keys, consumed once per
/// tick.
#[derive(Clone, Copy, Debug, PartialEq, Eq, Structural, Default)]
pub struct DirKeys {
    pub left: bool,
    pub right: bool,
    pub up: bool,
    pub down: bool,
}

/// The player-controlled circle: motion plus the sneeze pulse and the
/// infection tally.
#[derive(Clone, Copy, Debug, PartialEq, Eq, Structural)]
pub struct Player {
    pub ent_params: EntityParams,
    pub sneeze_range: i64,
    pub sneeze_max: i64,
    pub is_sneezing: bool,
    pub citizens_infected: i32,
}

impl Player {
    pub open spec fn wf(self) -> bool {
        &&& self.ent_params.wf()
        &&& 0 <= self.sneeze_range <= self.sneeze_max + SNEEZE_STEP
        &&& 0 <= self.sneeze_max <= MAX_SNEEZE
        &&& 0 <= self.citizens_infected
    }

    /// One tick of the sneeze pulse: while the latch is held the range
    /// grows by SNEEZE_STEP until it passes the ceiling, then restarts at 0.
    pub open spec fn spec_sneeze(self) -> Player {
        if self.is_sneezing {
            if self.sneeze_range <= self.sneeze_max {
                Player { sneeze_range: (self.sneeze_range + SNEEZE_STEP) as i64, ..self }
            } else {
                Player { sneeze_range: 0, ..self }
            }
        } else {
            self
        }
    }

    /// The bare tick policy: bounce back inside from any border, else take
    /// one motion step with the heading as it stands.
    pub open spec fn spec_move_being(self, width: int, height: int) -> Player {
        let e = self.ent_params;
        let r = e.radius;
        match zone_of(e.cx as int, e.cy as int, r as int, width, height) {
            Zone::LeftBorder => Player {
                ent_params: EntityParams { cx: (width + r) as i64, ..e },
                ..self
            },
            Zone::RightBorder => Player { ent_params: EntityParams { cx: (-r) as i64, ..e }, ..self },
            Zone::BottomBorder => Player { ent_params: EntityParams { cy: (-r) as i64, ..e }, ..self },
            Zone::UpBorder => Player {
                ent_params: EntityParams { cy: (height + r) as i64, ..e },
                ..self
            },
            Zone::Inside => Player { ent_params: e.spec_move_step(), ..self },
        }
    }

    /// The player's key-driven tick policy: bounce back inside from any
    /// border, else step by the held keys (a later key test overrides an
    /// earlier one on the same axis) and take one motion step with a
    /// cleared heading.
    pub open spec fn spec_move_player(self, width: int, height: int, keys: DirKeys) -> Player {
        let e = self.ent_params;
        let r = e.radius;
        match zone_of(e.cx as int, e.cy as int, r as int, width, height) {
            Zone::LeftBorder => Player {
                ent_params: EntityParams { cx: (width + r) as i64, ..e },
                ..self
            },
            Zone::RightBorder => Player { ent_params: EntityParams { cx: (-r) as i64, ..e }, ..self },
            Zone::BottomBorder => Player { ent_params: EntityParams { cy: (-r) as i64, ..e }, ..self },
            Zone::UpBorder => Player {
                ent_params: EntityParams { cy: (height + r) as i64, ..e },
                ..self
            },
            Zone::Inside => {
                let s = e.speed;
                let nx = if keys.right {
                    e.cx + s
                } else if keys.left {
                    e.cx - s
                } else {
                    e.cx as int
                };
                let ny = if keys.down {
                    e.cy + s
                } else if keys.up {
                    e.cy - s
                } else {
                    e.cy as int
                };
                let stepped = EntityParams {
                    cx: nx as i64,
                    cy: ny as i64,
                    vx: 0,
                    vy: 0,
                    ..e
                }.spec_move_step();
                Player { ent_params: stepped, ..self }
            },
        }
    }

    /// Bounce back inside from a border, else move by the held keys.
    pub fn move_player(&mut self, width: i64, height: i64, keys: DirKeys)
        requires
            old(self).wf(),
            0 <= width <= MAX_DIM,
            0 <= height <= MAX_DIM,
        ensures
            *final(self) == old(self).spec_move_player(width as int, height as int, keys),
            final(self).wf(),
    {
        let r = self.ent_params.get_radius();
        match self.ent_params.where_is(width, height) {
            Zone::LeftBorder => self.ent_params.set_cx(width + r),
            Zone::RightBorder => self.ent_params.set_cx(-r),
            Zone::BottomBorder => self.ent_params.set_cy(-r),
            Zone::UpBorder => self.ent_params.set_cy(height + r),
            Zone::Inside => {
                let c = self.ent_params.get_center();
                let s = self.ent_params.get_speed();
                self.ent_params.set_velocity(0, 0);
                if keys.left {
                    self.ent_params.set_cx(c.x - s);
                }
                if keys.right {
                    self.ent_params.set_cx(c.x + s);
                }
                if keys.up {
                    self.ent_params.set_cy(c.y - s);
                }
                if keys.down {
                    self.ent_params.set_cy(c.y + s);
                }
                self.ent_params.move_step();
            },
        }
    }

    /// Counts one more citizen infected; only the score display reads it.
    pub fn infect(&mut self)
        requires
            old(self).citizens_infected < i32::MAX,
        ensures
            *final(self) == (Player {
                citizens_infected: (old(self).citizens_infected + 1) as i32,
                ..*old(self)
            }),
    {
        self.citizens_infected = self.citizens_infected + 1;
    }

    pub fn get_sneeze_range(self) -> (r: i64)
        ensures
            r == self.sneeze_range,
    {
        self.sneeze_range
    }

    pub fn get_infected(self) -> (n: i32)
        ensures
            n == self.citizens_infected,
    {
        self.citizens_infected
    }

    pub fn check_if_sneezing(self) -> (b: bool)
        ensures
            b == self.is_sneezing,
    {
        self.is_sneezing
    }

    /// One tick of the sneeze pulse.
    pub fn sneeze(&mut self)
        requires
            old(self).wf(),
        ensures
            *final(self) == old(self).spec_sneeze(),
            final(self).wf(),
    {
        if self.is_sneezing {
            if self.sneeze_range <= self.sneeze_max {
                self.sneeze_range = self.sneeze_range + SNEEZE_STEP;
            } else {
                self.sneeze_range = 0;
            }
        }
    }

    pub fn set_sneeze(&mut self, s: bool)
        ensures
            *final(self) == (Player { is_sneezing: s, ..*old(self) }),
    {
        self.is_sneezing = s;
    }
}

impl Moveable for Player {
    open spec fn mv_wf(&self) -> bool {
        self.wf()
    }

    fn get_position(&self) -> (p: Point)
        ensures
            p.x == self.ent_params.cx,
            p.y == self.ent_params.cy,
    {
        self.ent_params.get_center()
    }

    fn get_radius(self) -> (r: i64)
        ensures
            r == self.ent_params.radius,
    {
        self.ent_params.get_radius()
    }

    fn get_speed(self) -> (s: i64)
        ensures
            s == self.ent_params.speed,
    {
        self.ent_params.get_speed()
    }

    fn move_being(&mut self, width: i64, height: i64)
        ensures
            *final(self) == old(self).spec_move_being(width as int, height as int),
    {
        let r = self.ent_params.get_radius();
        match self.ent_params.where_is(width, height) {
            Zone::LeftBorder => self.ent_params.set_cx(width + r),
            Zone::RightBorder => self.ent_params.set_cx(-r),
            Zone::BottomBorder => self.ent_params.set_cy(-r),
            Zone::UpBorder => self.ent_params.set_cy(height + r),
            Zone::Inside => {
                self.ent_params.move_step();
            },
        }
    }
}

/// The starting player: at the arena's center, at rest, with the default
/// radius, speed and sneeze cycle.
pub open spec fn spec_init(width: int, height: int) -> Player {
    Player {
        ent_params: EntityParams {
            cx: (width / 2) as i64,
            cy: (height / 2) as i64,
            radius: 20,
            vx: 0,
            vy: 0,
            speed: 5,
        },
        sneeze_range: 5,
        sneeze_max: 30,
        is_sneezing: false,
        citizens_infected: 0,
    }
}

/// The player at the arena's center, at rest, with the default radius,
/// speed and sneeze cycle.
pub fn init(width: i64, height: i64) -> (p: Player)
    requires
        0 <= width <= MAX_DIM,
        0 <= height <= MAX_DIM,
    ensures
        p == spec_init(width as int, height as int),
        p.wf(),
{
    let cx = ((width as u64) / 2) as i64;
    let cy = ((height as u64) / 2) as i64;
    let params = EntityParams::new(Point { x: cx, y: cy }, 20, 0, 0, 5);
    Player {
        ent_params: params,
        sneeze_range: 5,
        sneeze_max: 30,
        is_sneezing: false,
        citizens_infected: 0,
    }
}

} // verus!
