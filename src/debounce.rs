use vstd::prelude::*;

verus! {

/// Presses closer together than this, in milliseconds, make one pulse.
pub const DEBOUNCE_WINDOW_MS: u64 = 1000;

/// How long the relay is held low, in milliseconds.
pub const PULSE_HOLD_MS: u64 = 100;

/// What became of a trigger request.
#[derive(PartialEq, Eq, Structural, Clone, Copy, Debug)]
pub enum Trigger {
    Fired,
    Suppressed,
}

/// One step of driving the actuator pin. The pin rests high; a pulse is
/// active low.
#[derive(PartialEq, Eq, Structural, Clone, Copy, Debug)]
pub enum PinStep {
    Low,
    Hold(u64),
    High,
}

/// The instant of the last accepted trigger, in milliseconds of wall-clock
/// time. `None` when it could not be read: the next trigger is accepted.
#[derive(PartialEq, Eq, Structural, Clone, Copy, Debug)]
pub struct Debouncer {
    pub last_accepted_ms: Option<u64>,
}

/// Whether a trigger at `now` is accepted after one at `last`. A clock that
/// went backwards, or a missing instant, lets the trigger through.
pub open spec fn accepts(last: Option<u64>, now: u64) -> bool {
    match last {
        None => true,
        Some(t) => now < t || now - t > DEBOUNCE_WINDOW_MS,
    }
}

/// The pin steps of one pulse: low, hold, back high.
pub open spec fn pulse_spec() -> Seq<PinStep> {
    seq![PinStep::Low, PinStep::Hold(PULSE_HOLD_MS), PinStep::High]
}

/// The pin steps of one pulse.
pub fn pulse_steps() -> (r: Vec<PinStep>)
    ensures
        r@ == pulse_spec(),
{
    let r = vec![PinStep::Low, PinStep::Hold(PULSE_HOLD_MS), PinStep::High];
    assert(r@ =~= pulse_spec());
    r
}

impl Debouncer {
    /// A debouncer whose window starts at `start_ms`, the instant the agent
    /// came up.
    pub fn new(start_ms: Option<u64>) -> (r: Debouncer)
        ensures
            r.last_accepted_ms == start_ms,
    {
        Debouncer { last_accepted_ms: start_ms }
    }

    /// Accepts a trigger more than one window after the last accepted one,
    /// and records its instant; suppresses it otherwise, changing nothing.
    pub fn try_trigger(&mut self, now_ms: u64) -> (r: Trigger)
        ensures
            accepts(old(self).last_accepted_ms, now_ms) ==> r == Trigger::Fired
                && final(self).last_accepted_ms == Some(now_ms),
            !accepts(old(self).last_accepted_ms, now_ms) ==> r == Trigger::Suppressed
                && final(self).last_accepted_ms == old(self).last_accepted_ms,
    {
        let fire = match self.last_accepted_ms {
            None => true,
            Some(t) => now_ms < t || now_ms - t > DEBOUNCE_WINDOW_MS,
        };
        if fire {
            self.last_accepted_ms = Some(now_ms);
            Trigger::Fired
        } else {
            Trigger::Suppressed
        }
    }
}

} // verus!
