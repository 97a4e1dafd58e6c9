//! Decision and control engine of an ambient-light controller: unit
//! conversion of sensor samples, the automatic lighting policy, the
//! operating-mode state machine, button debouncing and the guarded actuator.
//!
//! Physical quantities are kept in integer fixed-point units: voltages in
//! millivolts, distances in millimetres and illuminance in lux.

use vstd::prelude::*;

pub mod control;
pub mod convert;
pub mod debounce;
pub mod sampling;
pub mod sensors;

verus! {

} // verus!
