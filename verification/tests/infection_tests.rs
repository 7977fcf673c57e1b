use infection_sim::infectable::InfectionParams;

#[test]
fn infect_steps_health_down_by_one() {
    let mut s = InfectionParams { immunity: 10, health: 7 };
    s.infect();
    assert_eq!(s.health, 6);
    assert_eq!(s.immunity, 10);
}

#[test]
fn infect_saturates_at_zero() {
    let mut s = InfectionParams { immunity: 10, health: 0 };
    s.infect();
    assert_eq!(s.health, 0);
}

#[test]
fn cure_steps_health_up_by_one() {
    let mut s = InfectionParams { immunity: 10, health: 7 };
    s.cure();
    assert_eq!(s.health, 8);
}

#[test]
fn cure_saturates_at_immunity() {
    let mut s = InfectionParams { immunity: 10, health: 10 };
    s.cure();
    assert_eq!(s.health, 10);
    assert!(s.is_healthy());
}

#[test]
fn recover_always_lands_healthy() {
    let mut s = InfectionParams { immunity: 10, health: 0 };
    s.recover();
    assert!(s.is_healthy());
    assert_eq!(s.health, 10);
    let mut t = InfectionParams { immunity: 10, health: 4 };
    t.recover();
    assert!(t.is_healthy());
}

#[test]
fn needs_doctor_exactly_at_the_floor() {
    assert!(InfectionParams { immunity: 10, health: 0 }.needs_doctor());
    assert!(!InfectionParams { immunity: 10, health: 1 }.needs_doctor());
}

#[test]
fn default_is_fully_healthy_with_immunity_ten() {
    let s = InfectionParams::default();
    assert_eq!(s.immunity, 10);
    assert_eq!(s.health, 10);
    assert!(s.is_healthy());
    assert!(!s.needs_doctor());
}

#[test]
fn ten_infections_from_full_health_reach_the_floor() {
    let mut s = InfectionParams::default();
    for _ in 0..10 {
        s.infect();
    }
    assert!(s.needs_doctor());
    assert_eq!(s.health, 0);
}

#[test]
fn health_ratio_in_per_mille() {
    assert_eq!(InfectionParams { immunity: 10, health: 5 }.helth_to_imm(), 500);
    assert_eq!(InfectionParams { immunity: 10, health: 10 }.helth_to_imm(), 1000);
    assert_eq!(InfectionParams { immunity: 10, health: 0 }.helth_to_imm(), 0);
    assert_eq!(InfectionParams { immunity: 3, health: 1 }.helth_to_imm(), 333);
}
