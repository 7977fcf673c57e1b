use infection_sim::ambulance::Ambulance;
use infection_sim::citizen::random_citizen;
use infection_sim::citizen::Citizen;
use infection_sim::game::MyGame;
use infection_sim::gamesettings::GameSettings;
use infection_sim::gamesettings::Rgba;
use infection_sim::infectable::InfectionParams;
use infection_sim::moveable::random_zone;
use infection_sim::moveable::EntityParams;
use infection_sim::moveable::Moveable;
use infection_sim::moveable::Point;
use infection_sim::moveable::Zone;
use infection_sim::player::DirKeys;
use infection_sim::player::Player;
use infection_sim::rng::SimRng;

fn no_keys() -> DirKeys {
    DirKeys { left: false, right: false, up: false, down: false }
}

fn player_at(cx: i64, cy: i64) -> Player {
    Player {
        ent_params: EntityParams { cx, cy, radius: 20, vx: 0, vy: 0, speed: 5 },
        sneeze_range: 5,
        sneeze_max: 30,
        is_sneezing: false,
        citizens_infected: 0,
    }
}

fn citizen_at(cx: i64, cy: i64, health: i32, id: usize) -> Citizen {
    Citizen {
        ent_params: EntityParams { cx, cy, radius: 20, vx: 0, vy: 0, speed: 5 },
        inf_params: InfectionParams { immunity: 10, health },
        id,
    }
}

fn free_ambulance() -> Ambulance {
    Ambulance {
        ent_params: EntityParams { cx: 100, cy: 100, radius: 10, vx: 0, vy: 0, speed: 10 },
        destination: Point { x: 0, y: 0 },
        is_free: true,
        patient: None,
    }
}

#[test]
fn new_game_builds_the_configured_population() {
    let mut rng = SimRng::new(11);
    let g = MyGame::new(GameSettings::default(), &mut rng);
    assert_eq!(g.citizens.len(), 50);
    for (i, c) in g.citizens.iter().enumerate() {
        assert_eq!(c.get_id(), i);
        assert!(0 <= c.ent_params.cx && c.ent_params.cx < 800);
        assert!(0 <= c.ent_params.cy && c.ent_params.cy < 600);
        assert!(c.inf_params.is_healthy());
    }
    assert_eq!((g.p.ent_params.cx, g.p.ent_params.cy), (400, 300));
    assert_eq!(g.ambulance.destination, Point { x: 400, y: 0 });
    assert_eq!(g.ambulance.get_patient_id(), None);
}

#[test]
fn random_positions_are_not_all_alike() {
    let mut rng = SimRng::new(5);
    let mut xs = Vec::new();
    for i in 0..20 {
        let c = random_citizen(800, 600, i, &mut rng);
        xs.push((c.ent_params.cx, c.ent_params.cy));
        // A heading is unit-ish: never the zero vector.
        let v2 = c.ent_params.vx * c.ent_params.vx + c.ent_params.vy * c.ent_params.vy;
        assert!(997_999 < v2 && v2 <= 1_000_000);
    }
    let first = xs[0];
    assert!(xs.iter().any(|p| *p != first));
}

#[test]
fn critical_victim_with_a_free_ambulance_triggers_one_dispatch() {
    let mut rng = SimRng::new(1);
    // A worn-down citizen standing on the player.
    let mut inf = InfectionParams { immunity: 10, health: 10 };
    for _ in 0..10 {
        inf.infect();
    }
    assert!(inf.needs_doctor());
    let mut g = MyGame {
        settings: GameSettings::default(),
        p: player_at(400, 300),
        citizens: vec![citizen_at(400, 300, 0, 0)],
        ambulance: free_ambulance(),
        elapsed_acc: 0,
    };
    g.infection(&mut rng);
    assert_eq!(g.ambulance.get_patient_id(), Some(0));
    assert!(!g.ambulance.is_free());
    assert_eq!(g.ambulance.destination, Point { x: 400, y: 300 });
    assert_eq!(g.citizens[0].ent_params.speed, 0);
    assert_eq!(g.p.get_infected(), 1);

    // A busy ambulance blocks any second dispatch.
    g.infection(&mut rng);
    assert_eq!(g.p.get_infected(), 1);
    assert_eq!(g.ambulance.get_patient_id(), Some(0));
    assert_eq!(g.ambulance.destination, Point { x: 400, y: 300 });
}

#[test]
fn only_the_first_critical_victim_gets_the_dispatch() {
    let mut rng = SimRng::new(2);
    let mut g = MyGame {
        settings: GameSettings::default(),
        p: player_at(400, 300),
        citizens: vec![citizen_at(410, 300, 5, 0), citizen_at(400, 300, 1, 1), citizen_at(
            405,
            300,
            1,
            2,
        )],
        ambulance: free_ambulance(),
        elapsed_acc: 0,
    };
    g.infection(&mut rng);
    assert_eq!(g.ambulance.get_patient_id(), Some(1));
    assert_eq!(g.ambulance.destination, Point { x: 400, y: 300 });
    assert_eq!(g.citizens[1].ent_params.speed, 0);
    // The later critical victim is infected but not frozen.
    assert_eq!(g.citizens[2].ent_params.speed, 5);
    assert_eq!(g.citizens[2].inf_params.health, 0);
    // The near-but-healthy victim just lost one point.
    assert_eq!(g.citizens[0].inf_params.health, 4);
    assert_eq!(g.p.get_infected(), 1);
}

#[test]
fn citizens_out_of_reach_are_cured_one_step() {
    let mut rng = SimRng::new(2);
    let mut g = MyGame {
        settings: GameSettings::default(),
        p: player_at(100, 100),
        citizens: vec![citizen_at(700, 500, 3, 0)],
        ambulance: free_ambulance(),
        elapsed_acc: 0,
    };
    g.infection(&mut rng);
    assert_eq!(g.citizens[0].inf_params.health, 4);
    assert_eq!(g.p.get_infected(), 0);
    assert!(g.ambulance.is_free());
}

#[test]
fn curing_back_to_full_health_unfreezes() {
    let mut rng = SimRng::new(2);
    let mut frozen = citizen_at(700, 500, 9, 0);
    frozen.ent_params.speed = 0;
    let mut g = MyGame {
        settings: GameSettings::default(),
        p: player_at(100, 100),
        citizens: vec![frozen],
        ambulance: free_ambulance(),
        elapsed_acc: 0,
    };
    g.infection(&mut rng);
    assert_eq!(g.citizens[0].inf_params.health, 10);
    assert_eq!(g.citizens[0].ent_params.speed, 5);
}

#[test]
fn left_exit_wraps_to_the_right_edge_and_recovers() {
    let mut c = citizen_at(-25, 300, 3, 0);
    c.move_being(800, 600);
    assert_eq!(c.ent_params.cx, 820);
    assert_eq!(c.ent_params.cy, 300);
    assert!(c.inf_params.is_healthy());
}

#[test]
fn every_border_wraps_to_its_opposite_edge() {
    let mut right = citizen_at(821, 300, 10, 0);
    right.move_being(800, 600);
    assert_eq!((right.ent_params.cx, right.ent_params.cy), (-20, 300));
    let mut bottom = citizen_at(400, 621, 10, 0);
    bottom.move_being(800, 600);
    assert_eq!((bottom.ent_params.cx, bottom.ent_params.cy), (400, -20));
    let mut top = citizen_at(400, -21, 10, 0);
    top.move_being(800, 600);
    assert_eq!((top.ent_params.cx, top.ent_params.cy), (400, 620));
}

#[test]
fn the_tow_handshake_snaps_the_patient_to_the_ambulance() {
    let mut rng = SimRng::new(9);
    let mut amb = free_ambulance();
    amb.is_free = false;
    amb.patient = Some(0);
    amb.ent_params.cx = 395;
    amb.ent_params.cy = 300;
    amb.ent_params.speed = 0;
    amb.destination = Point { x: 400, y: 300 };
    let mut g = MyGame {
        settings: GameSettings::default(),
        // The player is far away so the infection pass only cures.
        p: player_at(100, 100),
        citizens: vec![citizen_at(400, 300, 5, 0)],
        ambulance: amb,
        elapsed_acc: 0,
    };
    // Distance 5 < 2 * radius = 20: the citizen is towed.
    g.update(0, no_keys(), &mut rng);
    // The citizen was snapped to (395, 300); its own heading is zero, so it
    // stays there for the rest of the tick.
    assert_eq!((g.citizens[0].ent_params.cx, g.citizens[0].ent_params.cy), (395, 300));
}

#[test]
fn a_tow_off_the_arena_heals_the_patient_and_frees_the_ambulance() {
    let mut rng = SimRng::new(17);
    // The ambulance drags its patient toward the left edge, 15 units per
    // tick; the player is far away, so the infection pass only cures.
    let amb = Ambulance {
        ent_params: EntityParams { cx: 5, cy: 300, radius: 10, vx: -1000, vy: 0, speed: 15 },
        destination: Point { x: 400, y: 300 },
        is_free: false,
        patient: Some(0),
    };
    let mut g = MyGame {
        settings: GameSettings::default(),
        p: player_at(100, 100),
        citizens: vec![citizen_at(5, 300, 5, 0)],
        ambulance: amb,
        elapsed_acc: 0,
    };
    for _ in 0..3 {
        g.update(0, no_keys(), &mut rng);
    }
    // The citizen was towed past the left edge, wrapped to the right edge
    // and fully recovered; the ambulance finalized once outside.
    assert_eq!((g.citizens[0].ent_params.cx, g.citizens[0].ent_params.cy), (820, 300));
    assert!(g.citizens[0].inf_params.is_healthy());
    assert!(g.ambulance.is_free());
    assert_eq!(g.ambulance.get_patient_id(), None);
}

#[test]
fn update_runs_the_sneeze_pulse() {
    let mut rng = SimRng::new(13);
    let mut g = MyGame::new(GameSettings::default(), &mut rng);
    g.p.set_sneeze(true);
    g.update(16, no_keys(), &mut rng);
    assert_eq!(g.p.get_sneeze_range(), 15);
    assert_eq!(g.citizens.len(), 50);
}

#[test]
fn update_accumulates_the_redirect_timer() {
    let mut rng = SimRng::new(13);
    let mut g = MyGame::new(GameSettings::default(), &mut rng);
    g.update(700, no_keys(), &mut rng);
    assert_eq!(g.elapsed_acc, 700);
    g.update(700, no_keys(), &mut rng);
    // One full second was consumed by a redirect.
    assert_eq!(g.elapsed_acc, 400);
}

#[test]
fn blended_color_interpolates_by_health() {
    let c = citizen_at(0, 0, 5, 0);
    let h = Rgba { r: 800, g: 624, b: 353, a: 1000 };
    let d = Rgba { r: 0, g: 200, b: 0, a: 900 };
    let out = c.get_color(h, d);
    assert_eq!(out, Rgba { r: 400, g: 412, b: 177, a: 950 });
    // Zero health keeps the first color exactly.
    let sick = citizen_at(0, 0, 0, 0);
    assert_eq!(sick.get_color(h, d), h);
    // Full health lands on the second color exactly.
    let well = citizen_at(0, 0, 10, 0);
    assert_eq!(well.get_color(h, d), d);
}

#[test]
fn the_sneeze_reach_boundary_is_strict() {
    // Reach is radius 20 + range 5 = 25: a citizen exactly 25 away is safe.
    let p = player_at(0, 0);
    assert!(!MyGame::is_victim(citizen_at(25, 0, 10, 0), p));
    assert!(MyGame::is_victim(citizen_at(24, 0, 10, 0), p));
    assert!(MyGame::is_victim(citizen_at(0, 0, 10, 0), p));
}

#[test]
fn random_zones_are_always_borders() {
    let mut rng = SimRng::new(21);
    let mut seen = [false; 4];
    for _ in 0..200 {
        match random_zone(&mut rng) {
            Zone::LeftBorder => seen[0] = true,
            Zone::RightBorder => seen[1] = true,
            Zone::UpBorder => seen[2] = true,
            Zone::BottomBorder => seen[3] = true,
            Zone::Inside => panic!("a random zone must be a border"),
        }
    }
    assert!(seen.iter().all(|s| *s));
}

#[test]
fn default_settings_match_the_fixed_palette() {
    let s = GameSettings::default();
    assert_eq!(s.get_screen_size(), (800, 600));
    assert_eq!(s.get_screen_width(), 800);
    assert_eq!(s.get_screen_height(), 600);
    assert_eq!(s.get_citizens_quan(), 50);
    assert_eq!(s.get_bg_col(), Rgba { r: 404, g: 561, b: 220, a: 1000 });
    assert_eq!(s.get_player_col(), Rgba { r: 800, g: 624, b: 353, a: 1000 });
    assert_eq!(s.get_health_col(), Rgba { r: 0, g: 200, b: 0, a: 900 });
    assert_eq!(s.get_disease_color(), Rgba { r: 514, g: 4, b: 145, a: 1000 });
    assert_eq!(s.get_sneeze_color(), Rgba { r: 200, g: 200, b: 200, a: 300 });
}
