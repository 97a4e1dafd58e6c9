use lamp_controller::convert::{
    get_voltage, ConfigError, DistanceCurve, InverseDistance, LinearDistance, LuxCalibration,
};

fn linear_curve() -> DistanceCurve {
    DistanceCurve::Linear(LinearDistance::new(1400, 2500, 5500, 1000).unwrap())
}

fn lux_curve() -> LuxCalibration {
    LuxCalibration::new(300, 3000, 6000).unwrap()
}

#[test]
fn voltage_of_mid_scale_sample() {
    assert_eq!(get_voltage(2048, 3300, 4095), 1650);
}

#[test]
fn voltage_at_range_ends() {
    assert_eq!(get_voltage(0, 3300, 4095), 0);
    assert_eq!(get_voltage(4095, 3300, 4095), 3300);
}

#[test]
fn voltage_grows_with_sample() {
    let mut prev = 0;
    for raw in 0..=4095u32 {
        let v = get_voltage(raw, 3300, 4095);
        assert!(v >= prev);
        assert!(v <= 3300);
        prev = v;
    }
    assert_eq!(get_voltage(1000, 3300, 4095), 805);
    assert_eq!(get_voltage(1001, 3300, 4095), 806);
}

#[test]
fn linear_distance_interpolates() {
    let c = linear_curve();
    assert_eq!(c.voltage_to_distance(1650), 4478);
    assert_eq!(c.voltage_to_distance(1950), 3250);
}

#[test]
fn linear_distance_saturates() {
    let c = linear_curve();
    assert_eq!(c.voltage_to_distance(200), 5500);
    assert_eq!(c.voltage_to_distance(1400), 5500);
    assert_eq!(c.voltage_to_distance(2500), 1000);
    assert_eq!(c.voltage_to_distance(3300), 1000);
}

#[test]
fn distance_never_grows_with_voltage() {
    let curves = [
        linear_curve(),
        DistanceCurve::Inverse(InverseDistance::new(400, 2800, 200, 2_000_000).unwrap()),
    ];
    for c in curves.iter() {
        let mut prev = u32::MAX;
        for v in 0..=3300u32 {
            let d = c.voltage_to_distance(v);
            assert!(d <= prev);
            prev = d;
        }
    }
}

#[test]
fn inverse_distance_curve() {
    let c = DistanceCurve::Inverse(InverseDistance::new(400, 2800, 200, 2_000_000).unwrap());
    assert_eq!(c.voltage_to_distance(100), 10000);
    assert_eq!(c.voltage_to_distance(400), 10000);
    assert_eq!(c.voltage_to_distance(1200), 2000);
    assert_eq!(c.voltage_to_distance(2800), 769);
    assert_eq!(c.voltage_to_distance(3300), 769);
}

#[test]
fn illuminance_mid_range() {
    assert_eq!(lux_curve().voltage_to_lux(1650), 3000);
    assert_eq!(lux_curve().voltage_to_lux(301), 2);
}

#[test]
fn illuminance_saturates() {
    let c = lux_curve();
    assert_eq!(c.voltage_to_lux(100), 0);
    assert_eq!(c.voltage_to_lux(300), 0);
    assert_eq!(c.voltage_to_lux(3000), 6000);
    assert_eq!(c.voltage_to_lux(3300), 6000);
}

#[test]
fn illuminance_never_falls_with_voltage() {
    let c = lux_curve();
    let mut prev = 0;
    for v in 0..=3300u32 {
        let l = c.voltage_to_lux(v);
        assert!(l >= prev);
        assert!(l <= 6000);
        prev = l;
    }
}

#[test]
fn calibration_errors() {
    assert_eq!(LinearDistance::new(2500, 1400, 5500, 1000), Err(ConfigError::EmptyVoltageRange));
    assert_eq!(LinearDistance::new(1400, 1400, 5500, 1000), Err(ConfigError::EmptyVoltageRange));
    assert_eq!(LinearDistance::new(1400, 2500, 1000, 5500), Err(ConfigError::InvertedOutputRange));
    assert_eq!(LinearDistance::new(1400, 2500, 1000, 1000), Err(ConfigError::InvertedOutputRange));
    assert_eq!(InverseDistance::new(400, 400, 200, 10), Err(ConfigError::EmptyVoltageRange));
    assert_eq!(InverseDistance::new(400, 2800, 400, 10), Err(ConfigError::OffsetNotBelowRange));
    assert_eq!(LuxCalibration::new(3000, 300, 6000), Err(ConfigError::EmptyVoltageRange));
    assert_eq!(LuxCalibration::new(300, 3000, 0), Err(ConfigError::InvertedOutputRange));
    assert_eq!(
        LuxCalibration::new(300, 3000, 6000),
        Ok(LuxCalibration { v_min_mv: 300, v_max_mv: 3000, lux_max: 6000 })
    );
}

#[test]
fn linear_distance_strictly_decreasing_in_range() {
    let c = linear_curve();
    for v in 1400..2500u32 {
        assert!(c.voltage_to_distance(v + 1) < c.voltage_to_distance(v));
    }
}
