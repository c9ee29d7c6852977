//! Clocks: named, directional signal ports of a device, with an optional
//! callback for the events of an input clock.

use vstd::prelude::*;

verus! {

/// The event sent before the clock's period changes.
pub const CLOCK_PRE_UPDATE: u32 = 1;

/// The event sent after the clock's period has changed.
pub const CLOCK_UPDATE: u32 = 2;

/// A set of clock events, as a bit mask.
#[derive(Clone, Copy, Debug, PartialEq, Eq, Structural)]
pub struct ClockEvent(pub u32);

impl ClockEvent {
    /// Whether the mask `self` selects some event of `event`.
    pub open spec fn selects(self, event: ClockEvent) -> bool {
        self.0 & event.0 != 0
    }
}

/// Whether a clock is an input or an output of its device.  Fixed when the
/// clock is created.
#[derive(Clone, Copy, Debug, PartialEq, Eq, Structural)]
pub enum ClockDirection {
    Input,
    Output,
}

/// The callback that the host calls on a clock event: the trampoline `func`,
/// handed `opaque` back as its context.
#[derive(Clone, Copy, Debug, PartialEq, Eq, Structural)]
pub struct ClockCallback {
    pub func: u64,
    pub opaque: u64,
}

/// A clock of a device.  `refs` counts the holders of a reference to it;
/// the clock is freed when the count falls to zero.
#[derive(Debug)]
pub struct Clock {
    pub name: String,
    pub direction: ClockDirection,
    pub parent: u64,
    pub callback: Option<ClockCallback>,
    pub events: ClockEvent,
    pub refs: u32,
}

pub struct ClockView {
    pub name: Seq<char>,
    pub direction: ClockDirection,
    pub parent: u64,
    pub callback: Option<ClockCallback>,
    pub events: ClockEvent,
    pub refs: u32,
}

impl View for Clock {
    type V = ClockView;

    open spec fn view(&self) -> ClockView {
        ClockView {
            name: self.name@,
            direction: self.direction,
            parent: self.parent,
            callback: self.callback,
            events: self.events,
            refs: self.refs,
        }
    }
}

impl ClockView {
    pub open spec fn is_alive(self) -> bool {
        self.refs > 0
    }

    /// The callback that an event on this clock triggers: the clock's own,
    /// when it has one and its mask selects the event.
    pub open spec fn triggered(self, event: ClockEvent) -> Option<ClockCallback> {
        if self.callback is Some && self.events.selects(event) {
            self.callback
        } else {
            None
        }
    }
}

impl Clock {
    /// The callback, with its context, that the host calls for `event` on
    /// this clock, if any.
    pub fn callback_for(&self, event: ClockEvent) -> (r: Option<ClockCallback>)
        ensures
            r == self@.triggered(event),
    {
        match self.callback {
            Some(cb) => {
                if self.events.0 & event.0 != 0 {
                    Some(cb)
                } else {
                    None
                }
            },
            None => None,
        }
    }
}

/// The component's reference to a clock of its device, by position in the
/// device's clock list.  Each handle stands for one counted reference.
#[derive(Debug, PartialEq, Eq, Structural)]
pub struct ClockHandle {
    pub index: usize,
}

} // verus!
