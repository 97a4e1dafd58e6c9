//! Debouncing of a push button by a fixed hold after each detected edge.

use vstd::prelude::*;

verus! {

/// Where a debouncer stands between two presses.
#[derive(Debug, Clone, Copy, PartialEq, Eq, Structural)]
pub enum DebounceState {
    /// Waiting for a falling edge.
    Armed,
    /// An edge was seen; nothing is accepted before the given instant, in
    /// milliseconds.
    Settling(u64),
}

/// Turns the noisy edges of one button into at most one accepted event per
/// press: after an edge it holds for `window_ms`, ignores further edges, and
/// accepts the press only if the input is still low when the hold ends.
#[derive(Debug, Clone, Copy, PartialEq, Eq, Structural)]
pub struct Debouncer {
    pub window_ms: u64,
    pub state: DebounceState,
}

/// The instant at which a hold of `window_ms` that starts at `now_ms` ends,
/// saturated at the end of the clock.
pub open spec fn hold_end(now_ms: int, window_ms: int) -> int {
    if now_ms + window_ms > u64::MAX {
        u64::MAX as int
    } else {
        now_ms + window_ms
    }
}

impl Debouncer {
    pub fn new(window_ms: u64) -> (r: Debouncer)
        ensures
            r.window_ms == window_ms,
            r.state == DebounceState::Armed,
    {
        Debouncer { window_ms, state: DebounceState::Armed }
    }

    /// A falling edge seen at `now_ms`. When armed, starts the hold and
    /// returns the instant at which it ends; while settling, the edge is
    /// bounce and is ignored.
    pub fn on_falling_edge(&mut self, now_ms: u64) -> (r: Option<u64>)
        ensures
            final(self).window_ms == old(self).window_ms,
            old(self).state == DebounceState::Armed ==> {
                let end = hold_end(now_ms as int, old(self).window_ms as int);
                &&& r == Some(end as u64)
                &&& final(self).state == DebounceState::Settling(end as u64)
            },
            old(self).state != DebounceState::Armed ==> r is None && final(self).state == old(
                self,
            ).state,
    {
        match self.state {
            DebounceState::Armed => {
                let end = now_ms.saturating_add(self.window_ms);
                self.state = DebounceState::Settling(end);
                Some(end)
            },
            DebounceState::Settling(_) => None,
        }
    }

    /// The hold may have ended at `now_ms`; `input_low` is the button's level
    /// then. Once the hold has ended the debouncer re-arms, and the press is
    /// accepted exactly when the input is still low.
    pub fn on_window_elapsed(&mut self, now_ms: u64, input_low: bool) -> (r: bool)
        ensures
            final(self).window_ms == old(self).window_ms,
            match old(self).state {
                DebounceState::Settling(end) => if now_ms >= end {
                    final(self).state == DebounceState::Armed && r == input_low
                } else {
                    final(self).state == old(self).state && !r
                },
                DebounceState::Armed => final(self).state == DebounceState::Armed && !r,
            },
    {
        match self.state {
            DebounceState::Settling(end) => {
                if now_ms >= end {
                    self.state = DebounceState::Armed;
                    input_low
                } else {
                    false
                }
            },
            DebounceState::Armed => false,
        }
    }
}

} // verus!
