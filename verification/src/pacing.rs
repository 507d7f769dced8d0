//! Frame pacing with a fixed time step.
//!
//! The driver measures the time since the previous frame and hands it to the
//! pacer. The pacer adds it to the time not yet simulated and says how many
//! whole quanta of 16 ms the machine must now run, what remains, and how long
//! the driver may sleep before the next frame.

use vstd::prelude::*;

verus! {

/// The length of one quantum of machine time, in nanoseconds: 16 ms, for a
/// rate of about 60 Hz.
pub const FRAME_NANOS: u64 = 16_000_000;

/// A key press, reduced to what the driver decides on.
#[derive(Clone, Copy, Debug, PartialEq, Eq, Structural)]
pub struct KeyPress {
    /// The character of the key.
    pub code: char,
    /// Whether Control was held.
    pub control: bool,
    /// Whether any modifier other than Control was held.
    pub other_modifiers: bool,
}

/// What the driver does in one frame.
#[derive(Clone, Copy, Debug, PartialEq, Eq, Structural)]
pub enum FrameAction {
    /// Leave the main loop.
    Quit,
    /// Run `quanta` quanta, draw the screen, then sleep for `sleep` nanoseconds.
    Run { quanta: u64, sleep: u64 },
}

/// Whether `key` asks for shutdown: Control-C and nothing else.
pub open spec fn quit_requested(key: Option<KeyPress>) -> bool {
    key matches Some(k) && k.code == 'c' && k.control && !k.other_modifiers
}

/// The number of whole quanta in `lag + elapsed` nanoseconds.
pub open spec fn quanta_due(lag: int, elapsed: int) -> int {
    (lag + elapsed) / 16_000_000
}

/// What is left of `lag + elapsed` nanoseconds once the whole quanta are
/// taken out.
pub open spec fn lag_left(lag: int, elapsed: int) -> int {
    (lag + elapsed) % 16_000_000
}

/// The time until the next quantum is due when `lag` nanoseconds are not
/// simulated yet.
pub open spec fn sleep_after(lag: int) -> int {
    16_000_000 - lag % 16_000_000
}

/// What the driver does in a frame that starts with `lag` nanoseconds not
/// yet simulated and finds that `elapsed` more have passed.
pub open spec fn frame_action(lag: int, elapsed: int, shutdown: bool, key: Option<KeyPress>)
    -> FrameAction {
    if shutdown || quit_requested(key) {
        FrameAction::Quit
    } else {
        FrameAction::Run {
            quanta: quanta_due(lag, elapsed) as u64,
            sleep: sleep_after(lag_left(lag, elapsed)) as u64,
        }
    }
}

/// The time that has passed and has not been simulated yet.
pub struct FramePacer {
    /// Nanoseconds of lag.
    pub lag: u64,
}

impl FramePacer {
    /// A pacer with nothing to catch up.
    pub fn new() -> (pacer: FramePacer)
        ensures
            pacer.lag == 0,
    {
        FramePacer { lag: 0 }
    }

    /// Whether `key` asks for shutdown: Control-C and nothing else.
    pub fn is_quit_key(key: &KeyPress) -> (quit: bool)
        ensures
            quit == quit_requested(Some(*key)),
    {
        key.code == 'c' && key.control && !key.other_modifiers
    }

    /// Accounts for `elapsed` nanoseconds: returns how many whole quanta are
    /// now due and keeps the remainder as lag, which is then below one quantum.
    pub fn advance(&mut self, elapsed: u64) -> (quanta: u64)
        ensures
            quanta == quanta_due(old(self).lag as int, elapsed as int),
            final(self).lag == lag_left(old(self).lag as int, elapsed as int),
    {
        let lag: u64 = self.lag;
        let carried: u64 = lag % FRAME_NANOS + elapsed % FRAME_NANOS;
        let quanta: u64 = lag / FRAME_NANOS + elapsed / FRAME_NANOS + carried / FRAME_NANOS;
        self.lag = carried % FRAME_NANOS;
        quanta
    }

    /// How long the driver may sleep until the next quantum is due.
    pub fn sleep_budget(&self) -> (nanos: u64)
        ensures
            nanos == sleep_after(self.lag as int),
    {
        FRAME_NANOS - self.lag % FRAME_NANOS
    }

    /// Decides one frame of the main loop. A raised shutdown signal or a
    /// Control-C key press ends the loop and leaves the pacer as it was.
    /// Otherwise the elapsed time is accounted for: the driver runs the
    /// quanta that are due and sleeps for the rest of the current quantum.
    pub fn frame(&mut self, elapsed: u64, shutdown: bool, key: Option<KeyPress>) -> (action:
        FrameAction)
        ensures
            action == frame_action(old(self).lag as int, elapsed as int, shutdown, key),
            final(self).lag == if action == FrameAction::Quit {
                old(self).lag as int
            } else {
                lag_left(old(self).lag as int, elapsed as int)
            },
    {
        if shutdown {
            return FrameAction::Quit;
        }
        match key {
            Some(k) => {
                if Self::is_quit_key(&k) {
                    return FrameAction::Quit;
                }
            },
            None => {},
        }
        let quanta = self.advance(elapsed);
        let sleep = self.sleep_budget();
        FrameAction::Run { quanta, sleep }
    }
}

/// No time is lost and none is counted twice: two frames that account for
/// `first` and then `second` nanoseconds hand out as many quanta, and leave
/// the same lag, as one frame that accounts for both at once.
pub proof fn law_pacing_is_additive(lag: int, first: int, second: int)
    requires
        0 <= lag,
        0 <= first,
        0 <= second,
    ensures
        quanta_due(lag, first) + quanta_due(lag_left(lag, first), second) == quanta_due(
            lag,
            first + second,
        ),
        lag_left(lag_left(lag, first), second) == lag_left(lag, first + second),
        0 <= lag_left(lag, first) < 16_000_000,
{
}

} // verus!
