//! Interaction tracking: the counts kept of pauses, hesitations and
//! corrections, and how key events are timed.

use vstd::prelude::*;

verus! {

/// A key event longer after the previous one than this many milliseconds
/// is recorded as a pause.
pub const PAUSE_THRESHOLD_MS: u64 = 1000;

/// A pause longer than this many milliseconds is also a hesitation.
pub const HESITATION_THRESHOLD_MS: u64 = 3000;

/// Key dwell times are capped at this many milliseconds, and the first key
/// event gets this dwell time.
pub const KEYSTROKE_WINDOW_MS: u64 = 100;

/// The buttons of a mouse.
#[derive(Debug, Clone, Copy, PartialEq, Eq, Structural)]
pub enum MouseButton {
    Left,
    Right,
    Middle,
}

/// The number under which a button is recorded: 0 left, 1 right, 2 middle.
pub fn mouse_button_code(button: MouseButton) -> (r: u8)
    ensures
        r == match button {
            MouseButton::Left => 0u8,
            MouseButton::Right => 1u8,
            MouseButton::Middle => 2u8,
        },
{
    match button {
        MouseButton::Left => 0,
        MouseButton::Right => 1,
        MouseButton::Middle => 2,
    }
}

/// The counts of pauses, hesitations and corrections in a session.
#[derive(Debug, Clone, Copy, PartialEq, Eq, Structural)]
pub struct PauseMetrics {
    pub pause_count: usize,
    pub correction_count: usize,
    pub hesitation_events: usize,
}

impl PauseMetrics {
    /// No pauses, hesitations or corrections yet.
    pub fn new() -> (r: Self)
        ensures
            r == (PauseMetrics { pause_count: 0, correction_count: 0, hesitation_events: 0 }),
    {
        PauseMetrics { pause_count: 0, correction_count: 0, hesitation_events: 0 }
    }

    /// Counts a pause of `duration_ms`: over a second it is a pause, over
    /// three seconds also a hesitation.
    pub fn track_pause(&mut self, duration_ms: u64)
        requires
            old(self).pause_count < usize::MAX,
            old(self).hesitation_events < usize::MAX,
        ensures
            final(self).pause_count == old(self).pause_count + if duration_ms > PAUSE_THRESHOLD_MS {
                1int
            } else {
                0
            },
            final(self).hesitation_events == old(self).hesitation_events + if duration_ms
                > HESITATION_THRESHOLD_MS {
                1int
            } else {
                0
            },
            final(self).correction_count == old(self).correction_count,
    {
        if duration_ms > PAUSE_THRESHOLD_MS {
            self.pause_count = self.pause_count + 1;
            if duration_ms > HESITATION_THRESHOLD_MS {
                self.hesitation_events = self.hesitation_events + 1;
            }
        }
    }

    /// Counts a correction.
    pub fn track_correction(&mut self)
        requires
            old(self).correction_count < usize::MAX,
        ensures
            final(self).correction_count == old(self).correction_count + 1,
            final(self).pause_count == old(self).pause_count,
            final(self).hesitation_events == old(self).hesitation_events,
    {
        self.correction_count = self.correction_count + 1;
    }
}

/// How a key event is recorded: the pause before it, if long enough to
/// count, and its dwell time.
#[derive(Debug, Clone, Copy, PartialEq, Eq, Structural)]
pub struct KeyTiming {
    pub pause_ms: Option<u64>,
    pub dwell_ms: u64,
}

/// How a key event `since_last_ms` after the previous one (none for the
/// first) is recorded: the gap counts as a pause when over a second, and
/// the dwell time is the gap capped at the keystroke window.
pub fn key_timing(since_last_ms: Option<u64>) -> (r: KeyTiming)
    ensures
        ({
            let gap = match since_last_ms {
                Some(g) => g,
                None => KEYSTROKE_WINDOW_MS,
            };
            &&& r.pause_ms == if gap > PAUSE_THRESHOLD_MS {
                Some(gap)
            } else {
                None
            }
            &&& r.dwell_ms == if gap < KEYSTROKE_WINDOW_MS {
                gap
            } else {
                KEYSTROKE_WINDOW_MS
            }
        }),
{
    let gap = match since_last_ms {
        Some(g) => g,
        None => KEYSTROKE_WINDOW_MS,
    };
    let pause_ms = if gap > PAUSE_THRESHOLD_MS {
        Some(gap)
    } else {
        None
    };
    let dwell_ms = if gap < KEYSTROKE_WINDOW_MS {
        gap
    } else {
        KEYSTROKE_WINDOW_MS
    };
    KeyTiming { pause_ms, dwell_ms }
}

} // verus!
