//! The lighting policy, the operating-mode state machine and the guard
//! around the shared actuator.

use vstd::prelude::*;

verus! {

/// Level of a binary output.
#[derive(Debug, Clone, Copy, PartialEq, Eq, Structural)]
pub enum Level {
    Low,
    High,
}

impl Level {
    pub open spec fn flipped(self) -> Level {
        match self {
            Level::Low => Level::High,
            Level::High => Level::Low,
        }
    }

    pub fn flip(self) -> (r: Level)
        ensures
            r == self.flipped(),
    {
        match self {
            Level::Low => Level::High,
            Level::High => Level::Low,
        }
    }

    pub fn is_high(self) -> (r: bool)
        ensures
            r <==> self == Level::High,
    {
        match self {
            Level::Low => false,
            Level::High => true,
        }
    }
}

/// The automatic policy: the lamp is lit exactly when it is darker than the
/// illuminance threshold and something is nearer than the distance threshold.
pub open spec fn decision(distance_mm: int, lux: int, distance_threshold_mm: int, lux_threshold: int) -> Level {
    if lux < lux_threshold && distance_mm < distance_threshold_mm {
        Level::High
    } else {
        Level::Low
    }
}

pub fn decide(distance_mm: u32, lux: u32, distance_threshold_mm: u32, lux_threshold: u32) -> (r:
    Level)
    ensures
        r == decision(distance_mm as int, lux as int, distance_threshold_mm as int, lux_threshold as int),
        r == Level::High <==> lux < lux_threshold && distance_mm < distance_threshold_mm,
{
    if lux < lux_threshold && distance_mm < distance_threshold_mm {
        Level::High
    } else {
        Level::Low
    }
}

/// Who drives the lamp: the sensors, or the operator's button.
#[derive(Debug, Clone, Copy, PartialEq, Eq, Structural)]
pub enum Mode {
    Automatic,
    Manual,
}

impl Mode {
    pub open spec fn toggled(self) -> Mode {
        match self {
            Mode::Automatic => Mode::Manual,
            Mode::Manual => Mode::Automatic,
        }
    }

    pub fn is_manual(self) -> (r: bool)
        ensures
            r <==> self == Mode::Manual,
    {
        match self {
            Mode::Automatic => false,
            Mode::Manual => true,
        }
    }
}

/// Owner of the operating mode and of the indicator that shows it. Each
/// accepted edge of the mode button flips both.
#[derive(Debug, Clone, Copy, PartialEq, Eq, Structural)]
pub struct ModeController {
    pub mode: Mode,
    pub indicator: Level,
}

impl ModeController {
    /// Starts in automatic mode with the indicator off.
    pub fn new() -> (r: ModeController)
        ensures
            r.mode == Mode::Automatic,
            r.indicator == Level::Low,
    {
        ModeController { mode: Mode::Automatic, indicator: Level::Low }
    }

    /// Handles one accepted edge of the mode button and returns the new mode.
    pub fn toggle_manual(&mut self) -> (r: Mode)
        ensures
            final(self).mode == old(self).mode.toggled(),
            final(self).indicator == old(self).indicator.flipped(),
            r == final(self).mode,
    {
        self.mode = match self.mode {
            Mode::Automatic => Mode::Manual,
            Mode::Manual => Mode::Automatic,
        };
        self.indicator = self.indicator.flip();
        self.mode
    }

    pub fn mode(&self) -> (r: Mode)
        ensures
            r == self.mode,
    {
        self.mode
    }
}

/// Two accepted edges of the mode button restore both the mode and its
/// indicator.
pub proof fn mode_toggles_cancel_in_pairs(c: ModeController)
    ensures
        c.mode.toggled().toggled() == c.mode,
        c.indicator.flipped().flipped() == c.indicator,
{
}

/// Exclusive owner of the lamp's level. Before the output is registered
/// every operation is a no-op.
#[derive(Debug, Clone, Copy, PartialEq, Eq, Structural)]
pub struct ActuatorGuard {
    pub device: Option<Level>,
}

impl ActuatorGuard {
    pub open spec fn view(&self) -> Option<Level> {
        self.device
    }

    /// A guard with no output registered yet.
    pub fn new() -> (r: ActuatorGuard)
        ensures
            r@ is None,
    {
        ActuatorGuard { device: None }
    }

    /// Hands the output over to the guard with its current level.
    pub fn register(&mut self, level: Level)
        ensures
            final(self)@ == Some(level),
    {
        self.device = Some(level);
    }

    /// Drives the output to `level`, if one is registered.
    pub fn set(&mut self, level: Level)
        ensures
            final(self)@ == set_effect(old(self)@, level),
    {
        if self.device.is_some() {
            self.device = Some(level);
        }
    }

    /// Flips the output, if one is registered, and reports its new level.
    pub fn toggle(&mut self) -> (r: Option<Level>)
        ensures
            final(self)@ == toggle_effect(old(self)@),
            r == final(self)@,
    {
        match self.device {
            Some(level) => {
                let next = level.flip();
                self.device = Some(next);
                Some(next)
            },
            None => None,
        }
    }

    pub fn level(&self) -> (r: Option<Level>)
        ensures
            r == self@,
    {
        self.device
    }
}

/// The guarded state after setting `level`.
pub open spec fn set_effect(s: Option<Level>, level: Level) -> Option<Level> {
    match s {
        Some(_) => Some(level),
        None => None,
    }
}

/// The guarded state after a toggle.
pub open spec fn toggle_effect(s: Option<Level>) -> Option<Level> {
    match s {
        Some(l) => Some(l.flipped()),
        None => None,
    }
}

/// The guarded state after one accepted edge of the light button in `mode`.
pub open spec fn light_edge_effect(mode: Mode, s: Option<Level>) -> Option<Level> {
    if mode == Mode::Manual {
        toggle_effect(s)
    } else {
        s
    }
}

/// The guarded state after `n` accepted edges of the light button, all in
/// `mode`.
pub open spec fn light_edges_effect(mode: Mode, s: Option<Level>, n: nat) -> Option<Level>
    decreases n,
{
    if n == 0 {
        s
    } else {
        light_edge_effect(mode, light_edges_effect(mode, s, (n - 1) as nat))
    }
}

/// Handles one accepted edge of the light button: in manual mode the lamp is
/// toggled and its new level reported; in automatic mode the press is
/// ignored and nothing is reported.
pub fn toggle_light(mode: Mode, guard: &mut ActuatorGuard) -> (r: Option<Level>)
    ensures
        final(guard)@ == light_edge_effect(mode, old(guard)@),
        r == (if mode == Mode::Manual { final(guard)@ } else { None }),
{
    if mode.is_manual() {
        guard.toggle()
    } else {
        None
    }
}

/// In automatic mode any number of light-button edges leaves the lamp as it
/// was.
pub proof fn light_edges_ignored_in_automatic(s: Option<Level>, n: nat)
    ensures
        light_edges_effect(Mode::Automatic, s, n) == s,
    decreases n,
{
    if n > 0 {
        light_edges_ignored_in_automatic(s, (n - 1) as nat);
    }
}

/// In manual mode two light-button edges return the lamp to its level
/// before them.
pub proof fn light_edges_cancel_in_pairs_in_manual(s: Option<Level>)
    ensures
        light_edges_effect(Mode::Manual, s, 2) == s,
{
    reveal_with_fuel(light_edges_effect, 3);
}

} // verus!
