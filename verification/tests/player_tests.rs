use infection_sim::moveable::Moveable;
use infection_sim::player::init;
use infection_sim::player::DirKeys;
use infection_sim::player::Player;

fn no_keys() -> DirKeys {
    DirKeys { left: false, right: false, up: false, down: false }
}

#[test]
fn init_centers_the_player() {
    let p = init(800, 600);
    assert_eq!((p.ent_params.cx, p.ent_params.cy), (400, 300));
    assert_eq!(p.ent_params.radius, 20);
    assert_eq!(p.ent_params.speed, 5);
    assert_eq!(p.sneeze_range, 5);
    assert_eq!(p.sneeze_max, 30);
    assert!(!p.is_sneezing);
    assert_eq!(p.citizens_infected, 0);
}

#[test]
fn sneeze_pulse_grows_then_resets_past_the_ceiling() {
    // Start at 5 with ceiling 30: the reset fires only once the range has
    // passed the ceiling, so 35 appears before the reset to 0.
    let mut p = init(800, 600);
    p.set_sneeze(true);
    p.sneeze();
    assert_eq!(p.get_sneeze_range(), 15);
    p.sneeze();
    assert_eq!(p.get_sneeze_range(), 25);
    p.sneeze();
    assert_eq!(p.get_sneeze_range(), 35);
    p.sneeze();
    assert_eq!(p.get_sneeze_range(), 0);
    p.sneeze();
    assert_eq!(p.get_sneeze_range(), 10);
}

#[test]
fn sneeze_boundary_is_inclusive_at_the_ceiling() {
    let mut p = Player { sneeze_range: 30, ..init(800, 600) };
    p.set_sneeze(true);
    p.sneeze();
    assert_eq!(p.get_sneeze_range(), 40);
    p.sneeze();
    assert_eq!(p.get_sneeze_range(), 0);
}

#[test]
fn sneeze_does_nothing_while_the_latch_is_released() {
    let mut p = init(800, 600);
    p.sneeze();
    assert_eq!(p.get_sneeze_range(), 5);
}

#[test]
fn keys_move_the_player_by_its_speed() {
    let mut p = init(800, 600);
    p.move_player(800, 600, DirKeys { right: true, ..no_keys() });
    assert_eq!((p.ent_params.cx, p.ent_params.cy), (405, 300));
    p.move_player(800, 600, DirKeys { up: true, ..no_keys() });
    assert_eq!((p.ent_params.cx, p.ent_params.cy), (405, 295));
    p.move_player(800, 600, DirKeys { left: true, down: true, ..no_keys() });
    assert_eq!((p.ent_params.cx, p.ent_params.cy), (400, 300));
}

#[test]
fn opposite_keys_let_the_later_axis_test_win() {
    let mut p = init(800, 600);
    p.move_player(800, 600, DirKeys { left: true, right: true, up: false, down: false });
    assert_eq!(p.ent_params.cx, 405);
    let mut q = init(800, 600);
    q.move_player(800, 600, DirKeys { left: false, right: false, up: true, down: true });
    assert_eq!(q.ent_params.cy, 305);
}

#[test]
fn player_bounces_back_from_the_left_border() {
    let mut p = init(800, 600);
    p.ent_params.set_cx(-21);
    p.move_player(800, 600, no_keys());
    assert_eq!(p.ent_params.cx, 820);
    assert_eq!(p.ent_params.cy, 300);
}

#[test]
fn move_being_steps_by_the_standing_heading() {
    let mut p = init(800, 600);
    p.ent_params.set_velocity(1000, 0);
    p.move_being(800, 600);
    assert_eq!((p.ent_params.cx, p.ent_params.cy), (405, 300));
}

#[test]
fn infect_counts_up() {
    let mut p = init(800, 600);
    p.infect();
    p.infect();
    assert_eq!(p.get_infected(), 2);
}
