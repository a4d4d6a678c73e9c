//! Edge-driven debouncing of one digital input into press events.
use crate::item::{ButtonId, PriorityItem, ReadingKind, PRIORITY_EVENT};
use vstd::prelude::*;

verus! {

/// A press shorter than this many microseconds is contact noise.
pub const NOISE_FLOOR_US: u64 = 5_000;

/// The longest press, in milliseconds, that a press event can carry.
pub const MAX_PRESS_MS: u64 = 0xffff;

#[derive(Clone, Copy, Debug, PartialEq, Eq, Structural)]
pub enum Edge {
    Rising,
    Falling,
}

/// What a debouncer made of an edge.
#[derive(Clone, Copy, Debug, PartialEq, Eq, Structural)]
pub enum ButtonOutcome {
    /// A rising edge: the press has started.
    Armed,
    /// The press was shorter than the noise floor.
    Noise,
    /// The press lasted longer than a press event can carry.
    TooLong,
    /// A press event to publish.
    Press(PriorityItem),
}

/// Microseconds from `since` to `now`, or 0 if the clock went backwards.
pub open spec fn elapsed(since: u64, now: u64) -> u64 {
    if now >= since {
        (now - since) as u64
    } else {
        0
    }
}

/// What the falling edge at `now` of a press that started at `since` gives.
pub open spec fn press_outcome(button: ButtonId, since: u64, now: u64) -> ButtonOutcome {
    let d = elapsed(since, now);
    if d < NOISE_FLOOR_US {
        ButtonOutcome::Noise
    } else if d / 1000 > MAX_PRESS_MS {
        ButtonOutcome::TooLong
    } else {
        ButtonOutcome::Press(
            PriorityItem {
                priority: PRIORITY_EVENT,
                payload: crate::item::Payload::Reading(
                    crate::item::Reading {
                        kind: ReadingKind::ButtonPress(button),
                        value: (d / 1000) as i64,
                    },
                ),
            },
        )
    }
}

/// The debounce state of one button: idle, or pressed since a time.
pub struct ButtonDebouncer {
    pub button: ButtonId,
    pub pressed_since: Option<u64>,
}

impl ButtonDebouncer {
    pub fn new(button: ButtonId) -> (r: Self)
        ensures
            r.button == button,
            r.pressed_since is None,
    {
        ButtonDebouncer { button, pressed_since: None }
    }

    /// The edge to wait for next: rising when idle, falling when pressed.
    pub fn awaited_edge(&self) -> (r: Edge)
        ensures
            r == (if self.pressed_since is None {
                Edge::Rising
            } else {
                Edge::Falling
            }),
    {
        match self.pressed_since {
            None => Edge::Rising,
            Some(_) => Edge::Falling,
        }
    }

    /// Takes the awaited edge, seen at `now_us` (microseconds). A rising edge
    /// starts a press; a falling edge ends it and always returns to idle.
    pub fn on_edge(&mut self, now_us: u64) -> (r: ButtonOutcome)
        ensures
            final(self).button == old(self).button,
            old(self).pressed_since is None ==> {
                &&& final(self).pressed_since == Some(now_us)
                &&& r == ButtonOutcome::Armed
            },
            old(self).pressed_since matches Some(t) ==> {
                &&& final(self).pressed_since is None
                &&& r == press_outcome(old(self).button, t, now_us)
            },
    {
        match self.pressed_since {
            None => {
                self.pressed_since = Some(now_us);
                ButtonOutcome::Armed
            },
            Some(since) => {
                self.pressed_since = None;
                let d: u64 = if now_us >= since {
                    now_us - since
                } else {
                    0
                };
                if d < NOISE_FLOOR_US {
                    ButtonOutcome::Noise
                } else if d / 1000 > MAX_PRESS_MS {
                    ButtonOutcome::TooLong
                } else {
                    ButtonOutcome::Press(
                        PriorityItem::reading(
                            PRIORITY_EVENT,
                            ReadingKind::ButtonPress(self.button),
                            (d / 1000) as i64,
                        ),
                    )
                }
            },
        }
    }
}

} // verus!
