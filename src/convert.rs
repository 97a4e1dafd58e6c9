//! Conversion of raw analog samples to voltages and of voltages to
//! physical quantities, with saturation at the calibration limits.

use vstd::prelude::*;
use vstd::arithmetic::div_mod::lemma_div_is_ordered;
use vstd::arithmetic::div_mod::lemma_div_by_multiple;
use vstd::arithmetic::div_mod::lemma_div_is_ordered_by_denominator;
use vstd::arithmetic::div_mod::lemma_div_plus_one;
use vstd::arithmetic::mul::lemma_mul_inequality;

verus! {

/// Voltage, in millivolts, of a raw sample `raw` taken by a converter with
/// full scale `max_raw` and reference voltage `vref_mv`: `raw * vref / max_raw`,
/// rounded down.
pub open spec fn voltage_of(raw: int, vref_mv: int, max_raw: int) -> int {
    raw * vref_mv / max_raw
}

/// Converts a raw sample to millivolts.
pub fn get_voltage(raw: u32, vref_mv: u32, max_raw: u32) -> (r: u32)
    requires
        0 < max_raw,
        raw <= max_raw,
    ensures
        r == voltage_of(raw as int, vref_mv as int, max_raw as int),
        r <= vref_mv,
{
    proof {
        lemma_share(raw as int, raw as int, vref_mv as int, max_raw as int);
        lemma_product_fits(raw, vref_mv);
    }
    let scaled: u64 = raw as u64 * vref_mv as u64;
    (scaled / max_raw as u64) as u32
}

proof fn lemma_product_fits(x: u32, y: u32)
    ensures
        (x as int) * (y as int) <= u64::MAX,
{
    lemma_mul_inequality(x as int, u32::MAX as int, y as int);
    lemma_mul_inequality(y as int, u32::MAX as int, u32::MAX as int);
}

/// The share `x * a / w` of `a`, for `x` between zero and `w`, lies between
/// zero and `a` and grows with `x`.
proof fn lemma_share(x1: int, x2: int, a: int, w: int)
    requires
        0 <= x1 <= x2 <= w,
        0 < w,
        0 <= a,
    ensures
        0 <= x1 * a / w <= x2 * a / w <= a,
{
    lemma_mul_inequality(0, x1, a);
    lemma_mul_inequality(x1, x2, a);
    lemma_mul_inequality(x2, w, a);
    lemma_div_is_ordered(0, x1 * a, w);
    lemma_div_is_ordered(x1 * a, x2 * a, w);
    lemma_div_is_ordered(x2 * a, w * a, w);
    lemma_div_by_multiple(a, w);
    assert(w * a == a * w) by (nonlinear_arith);
}

/// For samples within the converter's range, the voltage lies between zero
/// and the reference voltage and never decreases as the sample grows.
pub proof fn voltage_in_range_and_monotonic(r1: int, r2: int, vref_mv: int, max_raw: int)
    requires
        0 <= r1 <= r2 <= max_raw,
        0 < max_raw,
        0 <= vref_mv,
    ensures
        0 <= voltage_of(r1, vref_mv, max_raw) <= vref_mv,
        0 <= voltage_of(r2, vref_mv, max_raw) <= vref_mv,
        voltage_of(r1, vref_mv, max_raw) <= voltage_of(r2, vref_mv, max_raw),
{
    lemma_share(r1, r2, vref_mv, max_raw);
}

/// `v` saturated to the interval `[lo, hi]`.
pub open spec fn clamp(v: int, lo: int, hi: int) -> int {
    if v < lo {
        lo
    } else if v > hi {
        hi
    } else {
        v
    }
}

fn clamp_u32(v: u32, lo: u32, hi: u32) -> (r: u32)
    requires
        lo <= hi,
    ensures
        r == clamp(v as int, lo as int, hi as int),
{
    if v < lo {
        lo
    } else if v > hi {
        hi
    } else {
        v
    }
}

/// Why a set of calibration constants was rejected.
#[derive(Debug, Clone, Copy, PartialEq, Eq, Structural)]
pub enum ConfigError {
    /// The lower voltage limit is not below the upper one.
    EmptyVoltageRange,
    /// The physical values at the two voltage limits are equal or swapped.
    InvertedOutputRange,
    /// The offset of an inverse curve is not below its lower voltage limit.
    OffsetNotBelowRange,
    /// The converter's full-scale sample is zero.
    ZeroResolution,
}

/// A distance sensor specified by two calibration points: `far_mm` at
/// `v_min_mv` and `near_mm` at `v_max_mv`, interpolated linearly in between.
#[derive(Debug, Clone, Copy, PartialEq, Eq, Structural)]
pub struct LinearDistance {
    pub v_min_mv: u32,
    pub v_max_mv: u32,
    pub far_mm: u32,
    pub near_mm: u32,
}

impl LinearDistance {
    pub open spec fn wf(&self) -> bool {
        self.v_min_mv < self.v_max_mv && self.near_mm < self.far_mm
    }

    /// Distance at voltage `v`: the voltage is saturated first, then mapped
    /// onto the line from `(v_min, far)` down to `(v_max, near)`; the drop
    /// from `far` is rounded down to whole millimetres.
    pub open spec fn distance_of(&self, v: int) -> int {
        let cv = clamp(v, self.v_min_mv as int, self.v_max_mv as int);
        self.far_mm - (cv - self.v_min_mv) * (self.far_mm - self.near_mm) / (self.v_max_mv
            - self.v_min_mv)
    }

    pub fn new(v_min_mv: u32, v_max_mv: u32, far_mm: u32, near_mm: u32) -> (r: Result<
        LinearDistance,
        ConfigError,
    >)
        ensures
            r is Ok <==> v_min_mv < v_max_mv && near_mm < far_mm,
            r is Ok ==> r == Ok::<LinearDistance, ConfigError>(
                LinearDistance { v_min_mv, v_max_mv, far_mm, near_mm },
            ),
            r == Err::<LinearDistance, ConfigError>(ConfigError::EmptyVoltageRange) <==> v_min_mv
                >= v_max_mv,
            r == Err::<LinearDistance, ConfigError>(ConfigError::InvertedOutputRange) <==> (
            v_min_mv < v_max_mv && near_mm >= far_mm),
    {
        if v_min_mv >= v_max_mv {
            Err(ConfigError::EmptyVoltageRange)
        } else if near_mm >= far_mm {
            Err(ConfigError::InvertedOutputRange)
        } else {
            Ok(LinearDistance { v_min_mv, v_max_mv, far_mm, near_mm })
        }
    }

    pub fn voltage_to_distance(&self, v_mv: u32) -> (r: u32)
        requires
            self.wf(),
        ensures
            r == self.distance_of(v_mv as int),
    {
        let cv = clamp_u32(v_mv, self.v_min_mv, self.v_max_mv);
        let span: u32 = self.v_max_mv - self.v_min_mv;
        let travel: u32 = self.far_mm - self.near_mm;
        proof {
            lemma_share(
                (cv - self.v_min_mv) as int,
                (cv - self.v_min_mv) as int,
                travel as int,
                span as int,
            );
            lemma_product_fits((cv - self.v_min_mv) as u32, travel);
        }
        let drop: u64 = (cv - self.v_min_mv) as u64 * travel as u64 / span as u64;
        self.far_mm - drop as u32
    }
}

/// A distance sensor whose output follows `k / (v - offset)`: the
/// distance in millimetres is `k_mm_mv / (v - offset_mv)` for the voltage `v`
/// saturated to `[v_min_mv, v_max_mv]`.
#[derive(Debug, Clone, Copy, PartialEq, Eq, Structural)]
pub struct InverseDistance {
    pub v_min_mv: u32,
    pub v_max_mv: u32,
    pub offset_mv: u32,
    pub k_mm_mv: u32,
}

impl InverseDistance {
    pub open spec fn wf(&self) -> bool {
        self.v_min_mv < self.v_max_mv && self.offset_mv < self.v_min_mv
    }

    pub open spec fn distance_of(&self, v: int) -> int {
        let cv = clamp(v, self.v_min_mv as int, self.v_max_mv as int);
        self.k_mm_mv as int / (cv - self.offset_mv)
    }

    pub fn new(v_min_mv: u32, v_max_mv: u32, offset_mv: u32, k_mm_mv: u32) -> (r: Result<
        InverseDistance,
        ConfigError,
    >)
        ensures
            r is Ok <==> v_min_mv < v_max_mv && offset_mv < v_min_mv,
            r is Ok ==> r == Ok::<InverseDistance, ConfigError>(
                InverseDistance { v_min_mv, v_max_mv, offset_mv, k_mm_mv },
            ),
            r == Err::<InverseDistance, ConfigError>(ConfigError::EmptyVoltageRange) <==> v_min_mv
                >= v_max_mv,
            r == Err::<InverseDistance, ConfigError>(ConfigError::OffsetNotBelowRange) <==> (
            v_min_mv < v_max_mv && offset_mv >= v_min_mv),
    {
        if v_min_mv >= v_max_mv {
            Err(ConfigError::EmptyVoltageRange)
        } else if offset_mv >= v_min_mv {
            Err(ConfigError::OffsetNotBelowRange)
        } else {
            Ok(InverseDistance { v_min_mv, v_max_mv, offset_mv, k_mm_mv })
        }
    }

    pub fn voltage_to_distance(&self, v_mv: u32) -> (r: u32)
        requires
            self.wf(),
        ensures
            r == self.distance_of(v_mv as int),
    {
        let cv = clamp_u32(v_mv, self.v_min_mv, self.v_max_mv);
        proof {
            lemma_div_is_ordered_by_denominator(self.k_mm_mv as int, 1, (cv - self.offset_mv));
        }
        self.k_mm_mv / (cv - self.offset_mv)
    }
}

/// The calibration strategy of the distance sensor.
#[derive(Debug, Clone, Copy, PartialEq, Eq, Structural)]
pub enum DistanceCurve {
    Linear(LinearDistance),
    Inverse(InverseDistance),
}

impl DistanceCurve {
    pub open spec fn wf(&self) -> bool {
        match self {
            DistanceCurve::Linear(c) => c.wf(),
            DistanceCurve::Inverse(c) => c.wf(),
        }
    }

    pub open spec fn v_min(&self) -> int {
        match self {
            DistanceCurve::Linear(c) => c.v_min_mv as int,
            DistanceCurve::Inverse(c) => c.v_min_mv as int,
        }
    }

    pub open spec fn v_max(&self) -> int {
        match self {
            DistanceCurve::Linear(c) => c.v_max_mv as int,
            DistanceCurve::Inverse(c) => c.v_max_mv as int,
        }
    }

    /// Distance, in millimetres, that the curve gives for voltage `v`.
    pub open spec fn distance_of(&self, v: int) -> int {
        match self {
            DistanceCurve::Linear(c) => c.distance_of(v),
            DistanceCurve::Inverse(c) => c.distance_of(v),
        }
    }

    /// The farthest distance the sensor reports, reached at its lowest voltage.
    pub open spec fn max_distance(&self) -> int {
        match self {
            DistanceCurve::Linear(c) => c.far_mm as int,
            DistanceCurve::Inverse(c) => c.k_mm_mv as int / (c.v_min_mv - c.offset_mv),
        }
    }

    /// The nearest distance the sensor reports, reached at its highest voltage.
    pub open spec fn min_distance(&self) -> int {
        match self {
            DistanceCurve::Linear(c) => c.near_mm as int,
            DistanceCurve::Inverse(c) => c.k_mm_mv as int / (c.v_max_mv - c.offset_mv),
        }
    }

    pub fn voltage_to_distance(&self, v_mv: u32) -> (r: u32)
        requires
            self.wf(),
        ensures
            r == self.distance_of(v_mv as int),
    {
        match self {
            DistanceCurve::Linear(c) => c.voltage_to_distance(v_mv),
            DistanceCurve::Inverse(c) => c.voltage_to_distance(v_mv),
        }
    }
}

/// Below the lowest calibrated voltage the distance saturates at the
/// farthest value, above the highest at the nearest, and in between it never
/// grows as the voltage rises.
pub proof fn distance_saturates_and_decreases(c: DistanceCurve, v1: int, v2: int)
    requires
        c.wf(),
        v1 <= v2,
    ensures
        v1 <= c.v_min() ==> c.distance_of(v1) == c.max_distance(),
        v2 >= c.v_max() ==> c.distance_of(v2) == c.min_distance(),
        c.min_distance() <= c.distance_of(v1) <= c.max_distance(),
        c.distance_of(v2) <= c.distance_of(v1),
{
    let lo = c.v_min();
    let hi = c.v_max();
    let c1 = clamp(v1, lo, hi);
    let c2 = clamp(v2, lo, hi);
    match c {
        DistanceCurve::Linear(l) => {
            let travel = l.far_mm - l.near_mm;
            let span = hi - lo;
            lemma_share(0, c1 - lo, travel, span);
            lemma_share(c1 - lo, c2 - lo, travel, span);
            lemma_share(c2 - lo, span, travel, span);
            lemma_div_by_multiple(travel, span);
            assert(span * travel == travel * span) by (nonlinear_arith);
        },
        DistanceCurve::Inverse(i) => {
            let k = i.k_mm_mv as int;
            let off = i.offset_mv as int;
            lemma_div_is_ordered_by_denominator(k, lo - off, c1 - off);
            lemma_div_is_ordered_by_denominator(k, c1 - off, c2 - off);
            lemma_div_is_ordered_by_denominator(k, c1 - off, hi - off);
        },
    }
}

/// When the calibrated distance span, in millimetres, is at least the
/// voltage span, in millivolts, a linear curve is strictly decreasing across
/// its calibrated voltage range: no rounding merges two voltages.
pub proof fn linear_distance_strictly_decreasing(c: LinearDistance, v1: int, v2: int)
    requires
        c.wf(),
        c.far_mm - c.near_mm >= c.v_max_mv - c.v_min_mv,
        c.v_min_mv <= v1 < v2 <= c.v_max_mv,
    ensures
        c.distance_of(v2) < c.distance_of(v1),
{
    let lo = c.v_min_mv as int;
    let a = c.far_mm - c.near_mm;
    let w = c.v_max_mv - c.v_min_mv;
    let x1 = v1 - lo;
    let x2 = v2 - lo;
    lemma_mul_inequality(x1 + 1, x2, a);
    assert((x1 + 1) * a == x1 * a + a) by (nonlinear_arith);
    lemma_div_plus_one(x1 * a, w);
    lemma_div_is_ordered(w + x1 * a, x2 * a, w);
}

/// A light sensor whose voltage rises linearly from `v_min_mv` (no light)
/// to `v_max_mv` (`lux_max`).
#[derive(Debug, Clone, Copy, PartialEq, Eq, Structural)]
pub struct LuxCalibration {
    pub v_min_mv: u32,
    pub v_max_mv: u32,
    pub lux_max: u32,
}

impl LuxCalibration {
    pub open spec fn wf(&self) -> bool {
        self.v_min_mv < self.v_max_mv && 0 < self.lux_max
    }

    /// Illuminance at voltage `v`: exactly zero at or below `v_min`, exactly
    /// `lux_max` at or above `v_max`, and the linear share of `lux_max`,
    /// rounded down, in between.
    pub open spec fn lux_of(&self, v: int) -> int {
        if v <= self.v_min_mv {
            0
        } else if v >= self.v_max_mv {
            self.lux_max as int
        } else {
            (v - self.v_min_mv) * self.lux_max / (self.v_max_mv - self.v_min_mv)
        }
    }

    pub fn new(v_min_mv: u32, v_max_mv: u32, lux_max: u32) -> (r: Result<
        LuxCalibration,
        ConfigError,
    >)
        ensures
            r is Ok <==> v_min_mv < v_max_mv && 0 < lux_max,
            r is Ok ==> r == Ok::<LuxCalibration, ConfigError>(
                LuxCalibration { v_min_mv, v_max_mv, lux_max },
            ),
            r == Err::<LuxCalibration, ConfigError>(ConfigError::EmptyVoltageRange) <==> v_min_mv
                >= v_max_mv,
            r == Err::<LuxCalibration, ConfigError>(ConfigError::InvertedOutputRange) <==> (
            v_min_mv < v_max_mv && lux_max == 0),
    {
        if v_min_mv >= v_max_mv {
            Err(ConfigError::EmptyVoltageRange)
        } else if lux_max == 0 {
            Err(ConfigError::InvertedOutputRange)
        } else {
            Ok(LuxCalibration { v_min_mv, v_max_mv, lux_max })
        }
    }

    pub fn voltage_to_lux(&self, v_mv: u32) -> (r: u32)
        requires
            self.wf(),
        ensures
            r == self.lux_of(v_mv as int),
    {
        if v_mv <= self.v_min_mv {
            0
        } else if v_mv >= self.v_max_mv {
            self.lux_max
        } else {
            let span: u32 = self.v_max_mv - self.v_min_mv;
            let rise: u32 = v_mv - self.v_min_mv;
            proof {
                lemma_share(rise as int, rise as int, self.lux_max as int, span as int);
                lemma_product_fits(rise, self.lux_max);
            }
            (rise as u64 * self.lux_max as u64 / span as u64) as u32
        }
    }
}

/// Illuminance is zero at or below the lowest calibrated voltage, the full
/// scale at or above the highest, stays within those bounds, is the linear
/// share in between, and never falls as the voltage rises.
pub proof fn illuminance_saturates_and_increases(c: LuxCalibration, v1: int, v2: int)
    requires
        c.wf(),
        v1 <= v2,
    ensures
        v1 <= c.v_min_mv ==> c.lux_of(v1) == 0,
        v2 >= c.v_max_mv ==> c.lux_of(v2) == c.lux_max,
        c.v_min_mv < v1 < c.v_max_mv ==> c.lux_of(v1) == (v1 - c.v_min_mv) * c.lux_max / (
        c.v_max_mv - c.v_min_mv),
        0 <= c.lux_of(v1) <= c.lux_max,
        c.lux_of(v1) <= c.lux_of(v2),
{
    let lo = c.v_min_mv as int;
    let hi = c.v_max_mv as int;
    let span = hi - lo;
    let m = c.lux_max as int;
    let c1 = clamp(v1, lo, hi);
    let c2 = clamp(v2, lo, hi);
    lemma_share(c1 - lo, c2 - lo, m, span);
    lemma_share(c2 - lo, span, m, span);
    lemma_div_by_multiple(m, span);
    assert(span * m == m * span) by (nonlinear_arith);
    assert(0 * m == 0);
}

} // verus!
