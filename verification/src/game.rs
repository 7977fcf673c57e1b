use vstd::prelude::*;

use crate::ambulance;
use crate::ambulance::on_border_spawn;
use crate::ambulance::Ambulance;
use crate::citizen::random_citizen;
use crate::citizen::Citizen;
use crate::gamesettings::GameSettings;
use crate::infectable::Infectable;
use crate::moveable::dist_sq;
use crate::moveable::spec_dist_sq;
use crate::moveable::unit_norm;
use crate::moveable::EntityParams;
use crate::moveable::Moveable;
use crate::moveable::Point;
use crate::moveable::VEL_SCALE;
use crate::player;
use crate::player::DirKeys;
use crate::player::Player;
use crate::rng::SimRng;

verus! {

/// The redirect cadence: about once per second one random citizen turns.
pub const REDIRECT_INTERVAL_MS: u64 = 1000;

/// A citizen is a victim when its center lies strictly within the player's
/// sneeze reach; squared distances stand in for distances.
pub open spec fn spec_is_victim(cit: Citizen, pl: Player) -> bool {
    let reach = pl.ent_params.radius + pl.sneeze_range;
    spec_dist_sq(
        pl.ent_params.cx as int,
        pl.ent_params.cy as int,
        cit.ent_params.cx as int,
        cit.ent_params.cy as int,
    ) < reach * reach
}

/// A victim whose next infection step reaches the needs-doctor floor.
pub open spec fn spec_crit(cit: Citizen, pl: Player) -> bool {
    spec_is_victim(cit, pl) && cit.inf_params.health <= 1
}

/// The least index of a critical victim, or the length when there is none.
pub open spec fn first_crit(cits: Seq<Citizen>, pl: Player) -> int
    decreases cits.len(),
{
    if cits.len() == 0 {
        0
    } else if spec_crit(cits[0], pl) {
        0
    } else {
        1 + first_crit(cits.drop_first(), pl)
    }
}

/// first_crit brackets the critical victims: none stands before it, and it
/// points at one unless there is none at all.
pub proof fn lemma_first_crit(cits: Seq<Citizen>, pl: Player)
    ensures
        0 <= first_crit(cits, pl) <= cits.len(),
        first_crit(cits, pl) < cits.len() ==> spec_crit(cits[first_crit(cits, pl)], pl),
        forall|j: int| 0 <= j < first_crit(cits, pl) ==> !spec_crit(cits[j], pl),
    decreases cits.len(),
{
    if cits.len() > 0 && !spec_crit(cits[0], pl) {
        lemma_first_crit(cits.drop_first(), pl);
        assert forall|j: int| 0 <= j < first_crit(cits, pl) implies !spec_crit(cits[j], pl) by {
            if j > 0 {
                assert(cits.drop_first()[j - 1] == cits[j]);
            }
        }
    }
}

/// What one infection pass does to one citizen: a victim loses one health
/// point (and freezes when it is the one being dispatched for), anyone
/// else is cured one step.
pub open spec fn spec_infection_step(c: Citizen, pl: Player, dispatched_here: bool) -> Citizen {
    if spec_is_victim(c, pl) {
        let c2 = Citizen { inf_params: c.inf_params.spec_infect(), ..c };
        if dispatched_here {
            Citizen { ent_params: EntityParams { speed: 0, ..c2.ent_params }, ..c2 }
        } else {
            c2
        }
    } else {
        c.spec_cure()
    }
}

/// What one whole infection pass does to the simulation: every citizen
/// stepped, the tally and the ambulance dispatched for the first critical
/// victim — if the ambulance was free — and nothing else touched.
pub open spec fn spec_infection_rel(g1: MyGame, g2: MyGame) -> bool {
    let cits = g1.citizens@;
    let pl = g1.p;
    let k = first_crit(cits, pl);
    let dispatched = g1.ambulance.is_free && k < cits.len();
    &&& g2.settings == g1.settings
    &&& g2.elapsed_acc == g1.elapsed_acc
    &&& g2.citizens@.len() == cits.len()
    &&& forall|j: int|
        0 <= j < cits.len() ==> g2.citizens@[j] == spec_infection_step(
            cits[j],
            pl,
            dispatched && j == k,
        )
    &&& g2.p == if dispatched {
        Player { citizens_infected: (pl.citizens_infected + 1) as i32, ..pl }
    } else {
        pl
    }
    &&& if dispatched {
        &&& g2.ambulance.patient == Some(cits[k].id)
        &&& !g2.ambulance.is_free
        &&& g2.ambulance.destination == (Point {
            x: cits[k].ent_params.cx,
            y: cits[k].ent_params.cy,
        })
        &&& g2.ambulance.ent_params.radius == g1.ambulance.ent_params.radius
        &&& g2.ambulance.ent_params.speed == g1.ambulance.ent_params.speed
        &&& on_border_spawn(
            g2.ambulance.ent_params,
            g1.settings.screen_size.0 as int,
            g1.settings.screen_size.1 as int,
        )
    } else {
        g2.ambulance == g1.ambulance
    }
}

/// The second citizen is the first with at most its heading replaced — and
/// a replaced heading is unit-ish.
pub open spec fn spec_same_but_heading(a: Citizen, b: Citizen) -> bool {
    &&& b == (Citizen {
        ent_params: EntityParams {
            vx: b.ent_params.vx,
            vy: b.ent_params.vy,
            ..a.ent_params
        },
        ..a
    })
    &&& ((b.ent_params.vx == a.ent_params.vx && b.ent_params.vy == a.ent_params.vy) || {
        &&& -VEL_SCALE <= b.ent_params.vx <= VEL_SCALE
        &&& -VEL_SCALE <= b.ent_params.vy <= VEL_SCALE
        &&& unit_norm(b.ent_params.vx as int, b.ent_params.vy as int)
    })
}

/// What the timer-gated redirect does: the accumulator takes the elapsed
/// time modulo the interval, and some citizens get a fresh unit-ish
/// heading; nothing else changes.
pub open spec fn spec_redirected(g1: MyGame, g2: MyGame, elapsed: int) -> bool {
    &&& g2.settings == g1.settings
    &&& g2.p == g1.p
    &&& g2.ambulance == g1.ambulance
    &&& g2.citizens@.len() == g1.citizens@.len()
    &&& forall|j: int|
        0 <= j < g1.citizens@.len() ==> spec_same_but_heading(
            g1.citizens@[j],
            #[trigger] g2.citizens@[j],
        )
    &&& g2.elapsed_acc == (g1.elapsed_acc + elapsed) % (REDIRECT_INTERVAL_MS as int)
}

/// The two states are the same simulation.
pub open spec fn spec_same_state(g1: MyGame, g2: MyGame) -> bool {
    &&& g2.settings == g1.settings
    &&& g2.p == g1.p
    &&& g2.ambulance == g1.ambulance
    &&& g2.citizens@ == g1.citizens@
    &&& g2.elapsed_acc == g1.elapsed_acc
}

/// The tow handshake: a patient within twice the ambulance's radius is
/// snapped to the ambulance's position; otherwise nothing happens.
pub open spec fn spec_towed(g1: MyGame, g2: MyGame) -> bool {
    match g1.ambulance.patient {
        Some(id) => {
            let amb = g1.ambulance.ent_params;
            if id < g1.citizens@.len() && spec_dist_sq(
                amb.cx as int,
                amb.cy as int,
                g1.citizens@[id as int].ent_params.cx as int,
                g1.citizens@[id as int].ent_params.cy as int,
            ) < 4 * amb.radius * amb.radius {
                let c = g1.citizens@[id as int];
                &&& g2.settings == g1.settings
                &&& g2.p == g1.p
                &&& g2.ambulance == g1.ambulance
                &&& g2.elapsed_acc == g1.elapsed_acc
                &&& g2.citizens@ == g1.citizens@.update(
                    id as int,
                    Citizen {
                        ent_params: EntityParams { cx: amb.cx, cy: amb.cy, ..c.ent_params },
                        ..c
                    },
                )
            } else {
                spec_same_state(g1, g2)
            }
        },
        None => spec_same_state(g1, g2),
    }
}

/// The frame's motion phase: the player stepped by the held keys and the
/// sneeze pulse, every citizen and the ambulance stepped by their own tick
/// policies.
pub open spec fn spec_moved(g1: MyGame, g2: MyGame, width: int, height: int, keys: DirKeys) -> bool {
    &&& g2.settings == g1.settings
    &&& g2.elapsed_acc == g1.elapsed_acc
    &&& g2.p == g1.p.spec_move_player(width, height, keys).spec_sneeze()
    &&& g2.citizens@.len() == g1.citizens@.len()
    &&& forall|j: int|
        0 <= j < g1.citizens@.len() ==> #[trigger] g2.citizens@[j] == g1.citizens@[
            j
        ].spec_move_being(width, height)
    &&& g2.ambulance == g1.ambulance.spec_move_being(width, height)
}

/// The whole simulation: the player, the citizen population, the one
/// ambulance, and the settings they run under.
pub struct MyGame {
    pub settings: GameSettings,
    pub p: Player,
    pub citizens: Vec<Citizen>,
    pub ambulance: Ambulance,
    pub elapsed_acc: u64,
}

impl MyGame {
    /// Every entity within bounds, ids equal to indexes, a patient id that
    /// indexes the population, and the redirect accumulator mid-interval.
    pub open spec fn wf(self) -> bool {
        &&& self.settings.wf()
        &&& self.p.wf()
        &&& self.ambulance.wf()
        &&& forall|i: int|
            0 <= i < self.citizens@.len() ==> (#[trigger] self.citizens@[i]).wf()
        &&& forall|i: int|
            0 <= i < self.citizens@.len() ==> (#[trigger] self.citizens@[i]).id == i
        &&& match self.ambulance.patient {
            Some(id) => id < self.citizens@.len(),
            None => true,
        }
        &&& self.elapsed_acc < REDIRECT_INTERVAL_MS
    }

    /// A fresh simulation: the configured number of random citizens, the
    /// player at the center, and the ambulance on its way in.
    pub fn new(settings: GameSettings, rng: &mut SimRng) -> (g: MyGame)
        requires
            settings.wf(),
        ensures
            g.wf(),
            g.settings == settings,
            g.citizens@.len() == settings.citizen_quantity,
            forall|i: int|
                0 <= i < g.citizens@.len() ==> (#[trigger] g.citizens@[i]).inf_params
                    == (crate::infectable::InfectionParams { immunity: 10, health: 10 }),
            forall|i: int|
                0 <= i < g.citizens@.len() ==> {
                    let e = (#[trigger] g.citizens@[i]).ent_params;
                    &&& e.radius == 20
                    &&& e.speed == 5
                    &&& 0 <= e.cx < settings.screen_size.0
                    &&& 0 <= e.cy < settings.screen_size.1
                    &&& unit_norm(e.vx as int, e.vy as int)
                },
            g.p == player::spec_init(settings.screen_size.0 as int, settings.screen_size.1 as int),
            g.ambulance.patient is None,
            !g.ambulance.is_free,
            g.ambulance.destination == (Point { x: 400, y: 0 }),
            g.ambulance.ent_params.radius == 10,
            g.ambulance.ent_params.speed == 10,
            on_border_spawn(
                g.ambulance.ent_params,
                settings.screen_size.0 as int,
                settings.screen_size.1 as int,
            ),
            g.elapsed_acc == 0,
    {
        let width = settings.get_screen_width();
        let height = settings.get_screen_height();
        let q = settings.get_citizens_quan() as usize;
        let mut l: Vec<Citizen> = Vec::new();
        let mut i: usize = 0;
        while i < q
            invariant
                i <= q,
                l@.len() == i,
                0 < width <= crate::moveable::MAX_DIM,
                0 < height <= crate::moveable::MAX_DIM,
                forall|j: int| 0 <= j < i ==> (#[trigger] l@[j]).wf(),
                forall|j: int| 0 <= j < i ==> (#[trigger] l@[j]).id == j,
                forall|j: int|
                    0 <= j < i ==> (#[trigger] l@[j]).inf_params
                        == (crate::infectable::InfectionParams { immunity: 10, health: 10 }),
                forall|j: int|
                    0 <= j < i ==> {
                        let e = (#[trigger] l@[j]).ent_params;
                        &&& e.radius == 20
                        &&& e.speed == 5
                        &&& 0 <= e.cx < width
                        &&& 0 <= e.cy < height
                        &&& unit_norm(e.vx as int, e.vy as int)
                    },
            decreases q - i,
        {
            let c = random_citizen(width, height, i, rng);
            l.push(c);
            i = i + 1;
        }
        MyGame {
            settings,
            p: player::init(width, height),
            citizens: l,
            ambulance: ambulance::new(width, height, Point { x: 400, y: 0 }, rng),
            elapsed_acc: 0,
        }
    }

    /// Whether the citizen stands strictly within the player's sneeze reach.
    pub fn is_victim(cit: Citizen, pl: Player) -> (b: bool)
        requires
            cit.wf(),
            pl.wf(),
        ensures
            b == spec_is_victim(cit, pl),
    {
        let reach = pl.ent_params.get_radius() + pl.get_sneeze_range();
        assert(0 <= reach * reach <= 9_000_000_000_000) by (nonlinear_arith)
            requires 0 <= reach <= 3_000_000;
        let d = dist_sq(pl.ent_params.get_center(), cit.ent_params.get_center());
        d < reach * reach
    }

    /// One infection pass: every victim is infected one step, everyone else
    /// cured one step; the first victim to reach the needs-doctor floor
    /// while the ambulance is free freezes, is counted, and gets the
    /// ambulance dispatched to its position — exactly once per pass.
    pub fn infection(&mut self, rng: &mut SimRng)
        requires
            old(self).wf(),
            old(self).p.citizens_infected < i32::MAX,
        ensures
            final(self).wf(),
            spec_infection_rel(*old(self), *final(self)),
    {
        let width = self.settings.get_screen_width();
        let height = self.settings.get_screen_height();
        let n = self.citizens.len();
        let ghost cits = self.citizens@;
        let ghost pl = self.p;
        let ghost k = first_crit(cits, pl);
        proof {
            lemma_first_crit(cits, pl);
        }
        let mut idx: usize = 0;
        while idx < n
            invariant
                old(self).wf(),
                old(self).p.citizens_infected < i32::MAX,
                cits == old(self).citizens@,
                pl == old(self).p,
                k == first_crit(cits, pl),
                0 <= k <= n,
                k < n ==> spec_crit(cits[k], pl),
                forall|j: int| 0 <= j < k ==> !spec_crit(cits[j], pl),
                n == cits.len(),
                idx <= n,
                self.settings == old(self).settings,
                self.elapsed_acc == old(self).elapsed_acc,
                self.citizens@.len() == n,
                self.p.ent_params == pl.ent_params,
                self.p.sneeze_range == pl.sneeze_range,
                self.p.sneeze_max == pl.sneeze_max,
                self.p.is_sneezing == pl.is_sneezing,
                width == self.settings.screen_size.0,
                height == self.settings.screen_size.1,
                forall|j: int| idx <= j < n ==> self.citizens@[j] == cits[j],
                ({
                    let dispatched_so_far = old(self).ambulance.is_free && k < idx;
                    &&& forall|j: int|
                        0 <= j < idx ==> self.citizens@[j] == spec_infection_step(
                            cits[j],
                            pl,
                            old(self).ambulance.is_free && j == k,
                        )
                    &&& self.p == if dispatched_so_far {
                        Player { citizens_infected: (pl.citizens_infected + 1) as i32, ..pl }
                    } else {
                        pl
                    }
                    &&& if dispatched_so_far {
                        &&& self.ambulance.patient == Some(cits[k].id)
                        &&& !self.ambulance.is_free
                        &&& self.ambulance.destination == (Point {
                            x: cits[k].ent_params.cx,
                            y: cits[k].ent_params.cy,
                        })
                        &&& self.ambulance.ent_params.radius
                            == old(self).ambulance.ent_params.radius
                        &&& self.ambulance.ent_params.speed
                            == old(self).ambulance.ent_params.speed
                        &&& on_border_spawn(
                            self.ambulance.ent_params,
                            old(self).settings.screen_size.0 as int,
                            old(self).settings.screen_size.1 as int,
                        )
                        &&& self.ambulance.wf()
                    } else {
                        self.ambulance == old(self).ambulance
                    }
                }),
                forall|j: int|
                    0 <= j < n ==> (#[trigger] self.citizens@[j]).wf(),
                forall|j: int|
                    0 <= j < n ==> (#[trigger] self.citizens@[j]).id == j,
            decreases n - idx,
        {
            let c = self.citizens[idx];
            if MyGame::is_victim(c, self.p) {
                let mut c2 = c;
                c2.become_infected();
                let nd = c2.needs_doctor();
                if nd && self.ambulance.is_free() {
                    proof {
                        assert(spec_crit(cits[idx as int], pl));
                        assert(k == idx);
                    }
                    c2.stop();
                    self.p.infect();
                    let pos = c2.ent_params.get_center();
                    self.ambulance.set_destination(c2.get_id(), pos, width, height, rng);
                }
                self.citizens[idx] = c2;
            } else {
                let mut c2 = c;
                c2.cure();
                self.citizens[idx] = c2;
            }
            idx = idx + 1;
        }
    }

    /// One frame: the timer-gated redirect, the infection pass, the tow
    /// handshake, the player's move and sneeze pulse, then every entity's
    /// motion tick.  Total: it never fails on a well-formed state.
    pub fn update(&mut self, elapsed_ms: u32, keys: DirKeys, rng: &mut SimRng)
        requires
            old(self).wf(),
            old(self).p.citizens_infected < i32::MAX,
        ensures
            final(self).wf(),
            final(self).settings == old(self).settings,
            final(self).citizens@.len() == old(self).citizens@.len(),
            final(self).p.is_sneezing == old(self).p.is_sneezing,
            final(self).p.sneeze_max == old(self).p.sneeze_max,
            final(self).p.sneeze_range == ({
                let pl = old(self).p;
                if pl.is_sneezing {
                    if pl.sneeze_range <= pl.sneeze_max {
                        pl.sneeze_range + crate::player::SNEEZE_STEP
                    } else {
                        0int
                    }
                } else {
                    pl.sneeze_range as int
                }
            }),
            final(self).p.ent_params.radius == old(self).p.ent_params.radius,
            final(self).p.ent_params.speed == old(self).p.ent_params.speed,
            old(self).p.citizens_infected <= final(self).p.citizens_infected
                <= old(self).p.citizens_infected + 1,
            final(self).ambulance.ent_params.radius == old(self).ambulance.ent_params.radius,
            final(self).ambulance.ent_params.speed == old(self).ambulance.ent_params.speed,
            final(self).elapsed_acc == (old(self).elapsed_acc + elapsed_ms as int) % (
            REDIRECT_INTERVAL_MS as int),
            forall|j: int|
                0 <= j < old(self).citizens@.len()
                    ==> (#[trigger] final(self).citizens@[j]).ent_params.radius
                        == old(self).citizens@[j].ent_params.radius
                    && final(self).citizens@[j].inf_params.immunity
                        == old(self).citizens@[j].inf_params.immunity,
            (exists|after_redirect: MyGame, after_infection: MyGame, after_tow: MyGame|
                {
                    &&& spec_redirected(*old(self), after_redirect, elapsed_ms as int)
                    &&& #[trigger] spec_infection_rel(after_redirect, after_infection)
                    &&& #[trigger] spec_towed(after_infection, after_tow)
                    &&& spec_moved(
                        after_tow,
                        *final(self),
                        old(self).settings.screen_size.0 as int,
                        old(self).settings.screen_size.1 as int,
                        keys,
                    )
                }),
    {
        let width = self.settings.get_screen_width();
        let height = self.settings.get_screen_height();
        let n = self.citizens.len();

        // About once per second, one random citizen changes heading.
        self.elapsed_acc = self.elapsed_acc + elapsed_ms as u64;
        while self.elapsed_acc >= REDIRECT_INTERVAL_MS
            invariant
                self.settings == old(self).settings,
                self.p == old(self).p,
                self.ambulance == old(self).ambulance,
                self.citizens@.len() == n,
                old(self).wf(),
                n == old(self).citizens@.len(),
                forall|j: int| 0 <= j < n ==> (#[trigger] self.citizens@[j]).wf(),
                forall|j: int| 0 <= j < n ==> (#[trigger] self.citizens@[j]).id == j,
                forall|j: int|
                    0 <= j < n ==> (#[trigger] self.citizens@[j]).ent_params.radius
                        == old(self).citizens@[j].ent_params.radius
                        && self.citizens@[j].inf_params.immunity
                            == old(self).citizens@[j].inf_params.immunity,
                forall|j: int|
                    0 <= j < n ==> spec_same_but_heading(
                        old(self).citizens@[j],
                        #[trigger] self.citizens@[j],
                    ),
                (self.elapsed_acc as int) % (REDIRECT_INTERVAL_MS as int) == (
                old(self).elapsed_acc + elapsed_ms as int) % (REDIRECT_INTERVAL_MS as int),
            decreases self.elapsed_acc,
        {
            proof {
                vstd::arithmetic::div_mod::lemma_mod_sub_multiples_vanish(
                    self.elapsed_acc as int,
                    REDIRECT_INTERVAL_MS as int,
                );
            }
            self.elapsed_acc = self.elapsed_acc - REDIRECT_INTERVAL_MS;
            if n > 0 {
                let r = rng.gen_range_usize(0, n);
                let mut c = self.citizens[r];
                c.change_angle(rng);
                self.citizens[r] = c;
            }
        }

        let ghost before_infection = *self;
        proof {
            vstd::arithmetic::div_mod::lemma_small_mod(
                self.elapsed_acc as nat,
                REDIRECT_INTERVAL_MS as nat,
            );
            assert(spec_redirected(*old(self), before_infection, elapsed_ms as int));
        }
        self.infection(rng);
        let ghost after_infection = *self;
        proof {
            assert forall|j: int|
                0 <= j < n implies (#[trigger] self.citizens@[j]).ent_params.radius
                == old(self).citizens@[j].ent_params.radius && self.citizens@[j].inf_params.immunity
                == old(self).citizens@[j].inf_params.immunity by {
                assert(self.citizens@[j] == spec_infection_step(
                    before_infection.citizens@[j],
                    before_infection.p,
                    before_infection.ambulance.is_free && j == first_crit(
                        before_infection.citizens@,
                        before_infection.p,
                    ),
                ));
            }
        }

        // The tow handshake: a close-enough patient is snapped to the
        // ambulance's position.
        match self.ambulance.get_patient_id() {
            Some(id) => {
                let apos = self.ambulance.get_position();
                let c = self.citizens[id];
                let cpos = c.ent_params.get_center();
                let r = self.ambulance.get_radius();
                assert(0 <= 4 * r * r <= 4_000_000_000_000) by (nonlinear_arith)
                    requires 0 <= r <= 1_000_000;
                let d = dist_sq(apos, cpos);
                if d < 4 * r * r {
                    let mut c2 = c;
                    c2.go_hospital(apos);
                    self.citizens[id] = c2;
                }
            },
            None => {},
        }
        let ghost after_tow = *self;
        proof {
            assert(spec_towed(after_infection, after_tow));
        }

        self.p.move_player(width, height, keys);
        self.p.sneeze();

        let ghost p_done = self.p;
        let ghost a_mid = self.ambulance;
        let mut i: usize = 0;
        while i < n
            invariant
                i <= n,
                self.settings == old(self).settings,
                self.p == p_done,
                self.ambulance == a_mid,
                a_mid.wf(),
                match a_mid.patient {
                    Some(id) => id < n,
                    None => true,
                },
                self.elapsed_acc < REDIRECT_INTERVAL_MS,
                self.citizens@.len() == n,
                0 < width <= crate::moveable::MAX_DIM,
                0 < height <= crate::moveable::MAX_DIM,
                forall|j: int| 0 <= j < n ==> (#[trigger] self.citizens@[j]).wf(),
                forall|j: int| 0 <= j < n ==> (#[trigger] self.citizens@[j]).id == j,
                forall|j: int|
                    0 <= j < n ==> (#[trigger] self.citizens@[j]).ent_params.radius
                        == old(self).citizens@[j].ent_params.radius
                        && self.citizens@[j].inf_params.immunity
                            == old(self).citizens@[j].inf_params.immunity,
                after_tow.citizens@.len() == n,
                self.elapsed_acc == after_tow.elapsed_acc,
                forall|j: int|
                    0 <= j < i ==> #[trigger] self.citizens@[j] == after_tow.citizens@[
                        j
                    ].spec_move_being(width as int, height as int),
                forall|j: int| i <= j < n ==> #[trigger] self.citizens@[j] == after_tow.citizens@[j],
            decreases n - i,
        {
            let mut c = self.citizens[i];
            c.move_being(width, height);
            self.citizens[i] = c;
            i = i + 1;
        }

        self.ambulance.move_being(width, height);
        proof {
            assert(spec_moved(
                after_tow,
                *self,
                width as int,
                height as int,
                keys,
            ));
        }
    }
}

} // verus!
