use lamp_controller::control::{ActuatorGuard, Level, Mode};
use lamp_controller::convert::{ConfigError, DistanceCurve, LinearDistance, LuxCalibration};
use lamp_controller::sampling::{Config, Sample};

fn config() -> Config {
    Config::new(
        3300,
        4095,
        DistanceCurve::Linear(LinearDistance::new(1400, 2500, 5500, 1000).unwrap()),
        LuxCalibration::new(300, 3000, 6000).unwrap(),
        2500,
        1000,
    )
    .unwrap()
}

#[test]
fn mid_scale_sample_deactivates() {
    let s = config().sample(2048, 2048);
    assert_eq!(
        s,
        Sample { distance_mv: 1650, light_mv: 1650, distance_mm: 4478, lux: 3000, level: Level::Low }
    );
}

#[test]
fn far_and_dark_deactivates() {
    let s = config().sample(248, 124);
    assert_eq!(s.distance_mv, 199);
    assert_eq!(s.light_mv, 99);
    assert_eq!(s.distance_mm, 5500);
    assert_eq!(s.lux, 0);
    assert_eq!(s.level, Level::Low);
}

#[test]
fn near_and_dark_activates() {
    let mut g = ActuatorGuard::new();
    g.register(Level::Low);
    let s = config().run_tick(Mode::Automatic, 4095, 0, &mut g).unwrap();
    assert_eq!(s.distance_mm, 1000);
    assert_eq!(s.lux, 0);
    assert_eq!(g.level(), Some(Level::High));
}

#[test]
fn manual_mode_skips_tick() {
    let mut g = ActuatorGuard::new();
    g.register(Level::Low);
    assert_eq!(config().run_tick(Mode::Manual, 4095, 0, &mut g), None);
    assert_eq!(g.level(), Some(Level::Low));
}

#[test]
fn zero_resolution_rejected() {
    let r = Config::new(
        3300,
        0,
        DistanceCurve::Linear(LinearDistance::new(1400, 2500, 5500, 1000).unwrap()),
        LuxCalibration::new(300, 3000, 6000).unwrap(),
        2500,
        1000,
    );
    assert_eq!(r, Err(ConfigError::ZeroResolution));
}
