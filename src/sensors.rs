//! Classification of a light sensor's raw sample against a threshold.

use vstd::prelude::*;

verus! {

/// Represents the detected light level by the LDR sensor
#[derive(Debug, Clone, Copy, PartialEq, Eq, Structural)]
pub enum LightLevel {
    /// Light level is above the configured threshold
    Bright,
    /// Light level is below the configured threshold
    Dark,
}

/// A light sensor that calls a raw sample bright from `threshold` upwards.
#[derive(Debug, Clone, Copy, PartialEq, Eq, Structural)]
pub struct LightSensor {
    pub threshold: u16,
}

impl LightSensor {
    pub fn new(threshold: u16) -> (r: LightSensor)
        ensures
            r.threshold == threshold,
    {
        LightSensor { threshold }
    }

    pub open spec fn level_of(&self, raw: u16) -> LightLevel {
        if raw >= self.threshold {
            LightLevel::Bright
        } else {
            LightLevel::Dark
        }
    }

    /// The level of the raw sample `raw`.
    pub fn read_level(&self, raw: u16) -> (r: LightLevel)
        ensures
            r == self.level_of(raw),
    {
        if self.is_bright(raw) {
            LightLevel::Bright
        } else {
            LightLevel::Dark
        }
    }

    pub fn is_bright(&self, raw: u16) -> (r: bool)
        ensures
            r <==> raw >= self.threshold,
    {
        raw >= self.threshold
    }

    pub fn is_dark(&self, raw: u16) -> (r: bool)
        ensures
            r <==> raw < self.threshold,
    {
        raw < self.threshold
    }
}

} // verus!
