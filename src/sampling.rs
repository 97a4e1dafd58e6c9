//! The periodic sampling step: from two raw samples to a lamp level, committed
//! through the actuator guard only in automatic mode.

use vstd::prelude::*;
use crate::control::{decide, decision, set_effect, ActuatorGuard, Level, Mode};
use crate::convert::{get_voltage, voltage_of, ConfigError, DistanceCurve, LuxCalibration};

verus! {

/// Build-time configuration of the controller.
#[derive(Debug, Clone, Copy, PartialEq, Eq, Structural)]
pub struct Config {
    /// Reference voltage of the converter, in millivolts.
    pub vref_mv: u32,
    /// Full-scale raw sample of the converter.
    pub max_raw: u32,
    pub distance: DistanceCurve,
    pub lux: LuxCalibration,
    /// The lamp may only light for objects nearer than this, in millimetres.
    pub distance_threshold_mm: u32,
    /// The lamp may only light below this illuminance, in lux.
    pub lux_threshold: u32,
}

/// What one sampling step measured and decided.
#[derive(Debug, Clone, Copy, PartialEq, Eq, Structural)]
pub struct Sample {
    pub distance_mv: u32,
    pub light_mv: u32,
    pub distance_mm: u32,
    pub lux: u32,
    pub level: Level,
}

impl Config {
    pub open spec fn wf(&self) -> bool {
        &&& 0 < self.max_raw
        &&& self.distance.wf()
        &&& self.lux.wf()
    }

    /// Gathers the configuration; the calibrations come from their own
    /// checked constructors, and a zero full-scale sample is rejected.
    pub fn new(
        vref_mv: u32,
        max_raw: u32,
        distance: DistanceCurve,
        lux: LuxCalibration,
        distance_threshold_mm: u32,
        lux_threshold: u32,
    ) -> (r: Result<Config, ConfigError>)
        requires
            distance.wf(),
            lux.wf(),
        ensures
            max_raw == 0 <==> r == Err::<Config, ConfigError>(ConfigError::ZeroResolution),
            max_raw != 0 ==> r == Ok::<Config, ConfigError>(
                Config { vref_mv, max_raw, distance, lux, distance_threshold_mm, lux_threshold },
            ),
            r matches Ok(c) ==> c.wf(),
    {
        if max_raw == 0 {
            Err(ConfigError::ZeroResolution)
        } else {
            Ok(Config { vref_mv, max_raw, distance, lux, distance_threshold_mm, lux_threshold })
        }
    }

    /// The sample that raw readings `raw_distance` and `raw_light` give.
    pub open spec fn sample_of(&self, raw_distance: int, raw_light: int) -> Sample {
        let dv = voltage_of(raw_distance, self.vref_mv as int, self.max_raw as int);
        let lv = voltage_of(raw_light, self.vref_mv as int, self.max_raw as int);
        let d = self.distance.distance_of(dv);
        let l = self.lux.lux_of(lv);
        Sample {
            distance_mv: dv as u32,
            light_mv: lv as u32,
            distance_mm: d as u32,
            lux: l as u32,
            level: decision(d, l, self.distance_threshold_mm as int, self.lux_threshold as int),
        }
    }

    /// Converts both raw readings to physical units and decides the lamp level.
    pub fn sample(&self, raw_distance: u32, raw_light: u32) -> (r: Sample)
        requires
            self.wf(),
            raw_distance <= self.max_raw,
            raw_light <= self.max_raw,
        ensures
            r == self.sample_of(raw_distance as int, raw_light as int),
    {
        let distance_mv = get_voltage(raw_distance, self.vref_mv, self.max_raw);
        let light_mv = get_voltage(raw_light, self.vref_mv, self.max_raw);
        let distance_mm = self.distance.voltage_to_distance(distance_mv);
        let lux = self.lux.voltage_to_lux(light_mv);
        let level = decide(distance_mm, lux, self.distance_threshold_mm, self.lux_threshold);
        Sample { distance_mv, light_mv, distance_mm, lux, level }
    }

    /// One tick of the sampling loop with `mode` as read at its start. In
    /// manual mode nothing is sampled or written; in automatic mode the
    /// decided level is set through the guard and the sample is returned.
    pub fn run_tick(
        &self,
        mode: Mode,
        raw_distance: u32,
        raw_light: u32,
        guard: &mut ActuatorGuard,
    ) -> (r: Option<Sample>)
        requires
            self.wf(),
            raw_distance <= self.max_raw,
            raw_light <= self.max_raw,
        ensures
            mode == Mode::Manual ==> r is None && final(guard)@ == old(guard)@,
            mode == Mode::Automatic ==> {
                let s = self.sample_of(raw_distance as int, raw_light as int);
                &&& r == Some(s)
                &&& final(guard)@ == set_effect(old(guard)@, s.level)
            },
    {
        if mode.is_manual() {
            return None;
        }
        let s = self.sample(raw_distance, raw_light);
        guard.set(s.level);
        Some(s)
    }
}

} // verus!
