use infection_sim::ambulance;
use infection_sim::ambulance::Ambulance;
use infection_sim::moveable::EntityParams;
use infection_sim::moveable::Moveable;
use infection_sim::moveable::Point;
use infection_sim::rng::SimRng;

fn on_border(e: &EntityParams, width: i64, height: i64) -> bool {
    let r = e.radius;
    (e.cx == -r && 0 <= e.cy && e.cy < height)
        || (e.cx == width + r && 0 <= e.cy && e.cy < height)
        || (e.cy == -r && 0 <= e.cx && e.cx < width)
        || (e.cy == height + r && 0 <= e.cx && e.cx < width)
}

fn idle_ambulance_at(cx: i64, cy: i64) -> Ambulance {
    Ambulance {
        ent_params: EntityParams { cx, cy, radius: 10, vx: 0, vy: 0, speed: 10 },
        destination: Point { x: 0, y: 0 },
        is_free: true,
        patient: None,
    }
}

#[test]
fn new_ambulance_spawns_on_a_border_unassigned() {
    let mut rng = SimRng::new(7);
    let a = ambulance::new(800, 600, Point { x: 400, y: 0 }, &mut rng);
    assert!(!a.is_free());
    assert_eq!(a.get_patient_id(), None);
    assert_eq!(a.ent_params.radius, 10);
    assert_eq!(a.ent_params.speed, 10);
    assert_eq!(a.destination, Point { x: 400, y: 0 });
    assert!(on_border(&a.ent_params, 800, 600));
}

#[test]
fn dispatch_assigns_the_patient_and_takes_the_vehicle() {
    let mut rng = SimRng::new(3);
    let mut a = idle_ambulance_at(100, 100);
    a.set_destination(3, Point { x: 400, y: 300 }, 800, 600, &mut rng);
    assert_eq!(a.get_patient_id(), Some(3));
    assert!(!a.is_free());
    assert_eq!(a.destination, Point { x: 400, y: 300 });
    assert!(on_border(&a.ent_params, 800, 600));
    // Never the disallowed combination: free with a patient assigned.
    assert!(!(a.is_free() && a.get_patient_id().is_some()));
}

#[test]
fn a_busy_ambulance_refuses_a_new_dispatch() {
    let mut rng = SimRng::new(3);
    let mut a = idle_ambulance_at(100, 100);
    a.set_destination(3, Point { x: 400, y: 300 }, 800, 600, &mut rng);
    let before = a;
    a.set_destination(7, Point { x: 100, y: 100 }, 800, 600, &mut rng);
    assert_eq!(a, before);
    assert_eq!(a.get_patient_id(), Some(3));
    assert_eq!(a.destination, Point { x: 400, y: 300 });
}

#[test]
fn finish_act_frees_and_clears() {
    let mut a = idle_ambulance_at(100, 100);
    a.is_free = false;
    a.patient = Some(5);
    a.finish_act();
    assert!(a.is_free());
    assert_eq!(a.get_patient_id(), None);
    assert!(!(a.is_free() && a.get_patient_id().is_some()));
}

#[test]
fn reaching_the_destination_reverses_the_heading() {
    let mut a = Ambulance {
        ent_params: EntityParams { cx: 400, cy: 300, radius: 10, vx: 500, vy: 0, speed: 10 },
        destination: Point { x: 405, y: 300 },
        is_free: false,
        patient: Some(0),
    };
    a.move_being(800, 600);
    // One step of 10 * 500 / 1000 = 5 lands exactly on the destination.
    assert_eq!((a.ent_params.cx, a.ent_params.cy), (405, 300));
    assert_eq!((a.ent_params.vx, a.ent_params.vy), (-500, 0));
    // Still assigned: reversing is not finalizing.
    assert_eq!(a.get_patient_id(), Some(0));
}

#[test]
fn far_from_the_destination_it_just_advances() {
    let mut a = Ambulance {
        ent_params: EntityParams { cx: 100, cy: 100, radius: 10, vx: 1000, vy: 0, speed: 10 },
        destination: Point { x: 700, y: 500 },
        is_free: false,
        patient: Some(0),
    };
    a.move_being(800, 600);
    assert_eq!((a.ent_params.cx, a.ent_params.cy), (110, 100));
    assert_eq!((a.ent_params.vx, a.ent_params.vy), (1000, 0));
}

#[test]
fn leaving_the_arena_while_assigned_finalizes() {
    let mut a = Ambulance {
        ent_params: EntityParams { cx: -50, cy: 100, radius: 10, vx: -1000, vy: 0, speed: 10 },
        destination: Point { x: 400, y: 300 },
        is_free: false,
        patient: Some(2),
    };
    a.move_being(800, 600);
    assert!(a.is_free());
    assert_eq!(a.get_patient_id(), None);
    // The position stays where it was: finalizing does not move it.
    assert_eq!((a.ent_params.cx, a.ent_params.cy), (-50, 100));
}

#[test]
fn a_free_ambulance_outside_stays_idle() {
    let mut a = idle_ambulance_at(-50, 100);
    let before = a;
    a.move_being(800, 600);
    assert_eq!(a, before);
}
