//! Powering an anchor off with its button.

use vstd::prelude::*;

verus! {

/// How long the button has to be held down before the anchor cuts its own supply.
pub const POWER_OFF_HOLD_MS: u32 = 3_000;

/// Contact bounce is ridden out by ignoring the line for this long after it goes active.
pub const DEBOUNCE_MS: u32 = 30;

/// What the button watcher waits for.
#[derive(Clone, Copy, Debug, PartialEq, Eq, Structural)]
pub enum ButtonWait {
    /// The line to go active.
    Press,
    /// A fixed time, and then the line's level.
    Settle { ms: u32 },
    /// The line to go inactive, but no longer than given.
    Release { ms: u32 },
    /// Nothing: the anchor is to be powered off.
    PowerOff,
}

/// What happened while waiting.
#[derive(Clone, Copy, Debug, PartialEq, Eq, Structural)]
pub enum ButtonInput {
    /// The line went active.
    Pressed,
    /// The bounce time is over, with the line active or not.
    Settled { pressed: bool },
    /// The line went inactive in time.
    Released,
    /// The line was still active when the time was up.
    HeldOut,
}

/// Watches the power button. Presses shorter than the hold time are ignored.
#[derive(Clone, Copy, Debug, PartialEq, Eq, Structural)]
pub struct PowerLatch {
    pub wait: ButtonWait,
}

impl PowerLatch {
    /// Whether an input can end the current wait.
    pub open spec fn expects(self, input: ButtonInput) -> bool {
        match self.wait {
            ButtonWait::Press => input is Pressed,
            ButtonWait::Settle { .. } => input is Settled,
            ButtonWait::Release { .. } => input is Released || input is HeldOut,
            ButtonWait::PowerOff => false,
        }
    }

    /// What to wait for after an input.
    pub open spec fn after(self, input: ButtonInput) -> ButtonWait {
        match input {
            ButtonInput::Pressed => ButtonWait::Settle { ms: DEBOUNCE_MS },
            ButtonInput::Settled { pressed: true } => ButtonWait::Release {
                ms: (POWER_OFF_HOLD_MS - DEBOUNCE_MS) as u32,
            },
            ButtonInput::Settled { pressed: false } => ButtonWait::Press,
            ButtonInput::Released => ButtonWait::Press,
            ButtonInput::HeldOut => ButtonWait::PowerOff,
        }
    }

    /// A watcher waiting for a press.
    pub fn new() -> (latch: PowerLatch)
        ensures
            latch.wait == ButtonWait::Press,
    {
        PowerLatch { wait: ButtonWait::Press }
    }

    /// Takes an input in and returns what to wait for next.
    pub fn wait_for_power_off_request(&mut self, input: ButtonInput) -> (wait: ButtonWait)
        requires
            old(self).expects(input),
        ensures
            wait == old(self).after(input),
            final(self).wait == wait,
    {
        self.wait = match input {
            ButtonInput::Pressed => ButtonWait::Settle { ms: DEBOUNCE_MS },
            ButtonInput::Settled { pressed } => if pressed {
                ButtonWait::Release { ms: POWER_OFF_HOLD_MS - DEBOUNCE_MS }
            } else {
                ButtonWait::Press
            },
            ButtonInput::Released => ButtonWait::Press,
            ButtonInput::HeldOut => ButtonWait::PowerOff,
        };
        self.wait
    }
}

/// The anchor is powered off only after the button has been seen pressed at the end of the bounce
/// time and has then stayed so, for three seconds in all.
pub proof fn only_a_long_press_powers_off(latch: PowerLatch, input: ButtonInput)
    requires
        latch.expects(input),
    ensures
        latch.after(input) is PowerOff ==> latch.wait is Release && input is HeldOut,
        latch.after(input) matches ButtonWait::Release { ms } ==> input == (ButtonInput::Settled {
            pressed: true,
        }) && ms + DEBOUNCE_MS == POWER_OFF_HOLD_MS,
        latch.after(input) matches ButtonWait::Settle { ms } ==> input is Pressed && ms
            == DEBOUNCE_MS,
{
}

/// A button held for three seconds always powers the anchor off: once it has gone active, 30 ms of
/// bounce are ridden out, and if it is then still active for the rest of the time, that is it.
pub proof fn a_long_press_always_powers_off(latch: PowerLatch)
    ensures
        ({
            let settling = latch.after(ButtonInput::Pressed);
            let holding = (PowerLatch { wait: settling }).after(
                ButtonInput::Settled { pressed: true },
            );
            let done = (PowerLatch { wait: holding }).after(ButtonInput::HeldOut);
            &&& settling matches ButtonWait::Settle { ms: bounce } && {
                &&& holding matches ButtonWait::Release { ms: rest }
                &&& bounce == 30 && bounce + rest == 3_000
            }
            &&& done is PowerOff
        }),
{
}

/// A button let go early, within the bounce time or after it, is waited for again.
pub proof fn a_short_press_changes_nothing(latch: PowerLatch)
    ensures
        latch.after(ButtonInput::Settled { pressed: false }) is Press,
        latch.after(ButtonInput::Released) is Press,
{
}

} // verus!
