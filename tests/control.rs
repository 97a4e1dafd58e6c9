use lamp_controller::control::{decide, toggle_light, ActuatorGuard, Level, Mode, ModeController};

#[test]
fn decide_needs_both_conditions() {
    assert_eq!(decide(2000, 500, 2500, 1000), Level::High);
    assert_eq!(decide(5500, 0, 2500, 1000), Level::Low);
    assert_eq!(decide(1000, 3000, 2500, 1000), Level::Low);
}

#[test]
fn decide_boundaries_deactivate() {
    assert_eq!(decide(2500, 500, 2500, 1000), Level::Low);
    assert_eq!(decide(2000, 1000, 2500, 1000), Level::Low);
    assert_eq!(decide(2499, 999, 2500, 1000), Level::High);
}

#[test]
fn mode_toggles_in_pairs() {
    let mut c = ModeController::new();
    assert_eq!(c.mode(), Mode::Automatic);
    assert_eq!(c.indicator, Level::Low);
    assert_eq!(c.toggle_manual(), Mode::Manual);
    assert_eq!(c.indicator, Level::High);
    assert_eq!(c.toggle_manual(), Mode::Automatic);
    assert_eq!(c.indicator, Level::Low);
}

#[test]
fn guard_before_registration_is_inert() {
    let mut g = ActuatorGuard::new();
    g.set(Level::High);
    assert_eq!(g.level(), None);
    assert_eq!(g.toggle(), None);
    assert_eq!(g.level(), None);
}

#[test]
fn guard_sets_and_toggles() {
    let mut g = ActuatorGuard::new();
    g.register(Level::Low);
    g.set(Level::High);
    assert_eq!(g.level(), Some(Level::High));
    assert_eq!(g.toggle(), Some(Level::Low));
    assert_eq!(g.level(), Some(Level::Low));
}

#[test]
fn light_button_ignored_in_automatic() {
    let mut g = ActuatorGuard::new();
    g.register(Level::High);
    for _ in 0..5 {
        assert_eq!(toggle_light(Mode::Automatic, &mut g), None);
        assert_eq!(g.level(), Some(Level::High));
    }
}

#[test]
fn light_button_twice_in_manual_restores_level() {
    let mut g = ActuatorGuard::new();
    g.register(Level::Low);
    assert_eq!(toggle_light(Mode::Manual, &mut g), Some(Level::High));
    assert_eq!(toggle_light(Mode::Manual, &mut g), Some(Level::Low));
    assert_eq!(g.level(), Some(Level::Low));
}
