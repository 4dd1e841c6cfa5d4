//! Small values that the input devices share.

use vstd::prelude::*;

verus! {

/// Hands out serial numbers for the client protocol, starting at one. On
/// overflow it wraps around, and it never hands out zero.
#[derive(Debug)]
pub struct SerialCounter {
    serial: u32,
}

/// The serial that a counter standing at `serial` hands out.
pub open spec fn issued_serial(serial: u32) -> u32 {
    if serial == 0 {
        1
    } else {
        serial
    }
}

/// Where a counter standing at `serial` stands after handing one out.
pub open spec fn following_serial(serial: u32) -> u32 {
    if issued_serial(serial) == u32::MAX {
        0
    } else {
        (issued_serial(serial) + 1) as u32
    }
}

impl SerialCounter {
    /// Where the counter stands.
    pub closed spec fn serial(&self) -> u32 {
        self.serial
    }

    /// A counter whose first serial is one.
    pub fn new() -> (counter: Self)
        ensures
            counter.serial() == 1,
    {
        SerialCounter { serial: 1 }
    }

    /// Hands out the next serial. It is never zero.
    pub fn next_serial(&mut self) -> (serial: u32)
        ensures
            serial == issued_serial(old(self).serial()),
            serial != 0,
            final(self).serial() == following_serial(old(self).serial()),
    {
        let current: u32 = if self.serial == 0 {
            1
        } else {
            self.serial
        };
        self.serial = if current == u32::MAX {
            0
        } else {
            current + 1
        };
        current
    }
}

impl Default for SerialCounter {
    fn default() -> (counter: Self)
        ensures
            counter.serial() == 1,
    {
        SerialCounter::new()
    }
}

/// While the counter has not wrapped around, two serials in a row differ,
/// and the later one is the greater.
pub proof fn lemma_serials_rise(serial: u32)
    requires
        issued_serial(serial) < u32::MAX,
    ensures
        issued_serial(following_serial(serial)) == issued_serial(serial) + 1,
{
}

/// Whether a key of a keyboard is up or down.
#[derive(Debug, PartialEq, Eq, Clone, Copy, Hash, Structural)]
pub enum KeyState {
    Released,
    Pressed,
}

/// Whether a button of a pointer device is up or down.
#[derive(Debug, PartialEq, Eq, Clone, Copy, Hash, Structural)]
pub enum ButtonState {
    Released,
    Pressed,
}

/// The direction of a scroll.
#[derive(Debug, PartialEq, Eq, Clone, Copy, Hash, Structural)]
pub enum Axis {
    Vertical,
    Horizontal,
}

/// What a scroll comes from.
#[derive(Debug, PartialEq, Eq, Clone, Copy, Structural)]
pub enum AxisSource {
    /// A finger, mostly on a trackpad. The scroll ends with a value of
    /// zero.
    Finger,
    /// A device that scrolls without steps. The scroll may not end.
    Continuous,
    /// A wheel that turns in steps.
    Wheel,
    /// A wheel that is tilted.
    WheelTilt,
}

/// How the motion of the hand relates to the direction of the scroll.
#[derive(Debug, PartialEq, Eq, Clone, Copy, Structural)]
pub enum AxisRelativeDirection {
    /// The same way.
    Identical,
    /// The other way round, as in natural scrolling.
    Inverted,
}

/// The kind of device that the engine is told a scroll comes from.
#[derive(Debug, PartialEq, Eq, Clone, Copy, Structural)]
pub enum ScrollDevice {
    Trackpad,
    Mouse,
}

impl AxisSource {
    /// The kind of device behind this source: fingers and stepless devices
    /// count as a trackpad, wheels as a mouse.
    pub fn device(self) -> (device: ScrollDevice)
        ensures
            device == (if self == AxisSource::Finger || self == AxisSource::Continuous {
                ScrollDevice::Trackpad
            } else {
                ScrollDevice::Mouse
            }),
    {
        match self {
            AxisSource::Finger | AxisSource::Continuous => ScrollDevice::Trackpad,
            AxisSource::Wheel | AxisSource::WheelTilt => ScrollDevice::Mouse,
        }
    }
}

/// The scroll along one axis within a frame.
#[derive(Debug, PartialEq, Eq, Clone, Copy, Structural)]
pub struct AxisScroll {
    /// The distance, as a double-precision bit pattern.
    pub absolute: u64,
    /// The distance in 120ths of a wheel step.
    pub v120: i32,
    pub relative_direction: AxisRelativeDirection,
}

/// The scroll events of one frame of a pointer device, gathered into one.
#[derive(Debug, PartialEq, Eq, Clone, Copy, Structural)]
pub struct AxisFrame {
    /// The time of the frame's first event in milliseconds; zero while
    /// there was none.
    pub time: u32,
    pub horizontal: AxisScroll,
    pub vertical: AxisScroll,
    pub source: AxisSource,
}

impl AxisFrame {
    /// The frame that holds no scroll: no distance on either axis, and a
    /// wheel as its source until the platform names another.
    pub open spec fn empty() -> AxisFrame {
        let still = AxisScroll {
            absolute: 0,
            v120: 0,
            relative_direction: AxisRelativeDirection::Identical,
        };
        AxisFrame { time: 0, horizontal: still, vertical: still, source: AxisSource::Wheel }
    }

    /// The scroll along `axis`.
    pub fn axis(&self, axis: Axis) -> (scroll: AxisScroll)
        ensures
            scroll == (if axis == Axis::Vertical {
                self.vertical
            } else {
                self.horizontal
            }),
    {
        match axis {
            Axis::Vertical => self.vertical,
            Axis::Horizontal => self.horizontal,
        }
    }

    /// Replaces the scroll along `axis`.
    pub fn set_axis(&mut self, axis: Axis, scroll: AxisScroll)
        ensures
            axis == Axis::Vertical ==> *final(self) == (AxisFrame { vertical: scroll, ..*old(self) }),
            axis == Axis::Horizontal ==> *final(self) == (AxisFrame {
                horizontal: scroll,
                ..*old(self)
            }),
    {
        match axis {
            Axis::Vertical => {
                self.vertical = scroll;
            },
            Axis::Horizontal => {
                self.horizontal = scroll;
            },
        }
    }

    /// Takes the time of an event: the frame keeps the first time that it
    /// is given.
    pub fn time(&mut self, time: u32)
        ensures
            old(self).time == 0 ==> *final(self) == (AxisFrame { time, ..*old(self) }),
            old(self).time != 0 ==> *final(self) == *old(self),
    {
        if self.time == 0 {
            self.time = time;
        }
    }

    /// Hands out the frame that was gathered and starts an empty one.
    /// Gives `None` where nothing was gathered.
    pub fn take(&mut self) -> (frame: Option<AxisFrame>)
        ensures
            *final(self) == AxisFrame::empty(),
            frame == (if *old(self) == AxisFrame::empty() {
                None
            } else {
                Some(*old(self))
            }),
    {
        let gathered = *self;
        *self = AxisFrame::default();
        if gathered == AxisFrame::default() {
            None
        } else {
            Some(gathered)
        }
    }
}

impl Default for AxisFrame {
    fn default() -> (frame: Self)
        ensures
            frame == AxisFrame::empty(),
    {
        let still = AxisScroll {
            absolute: 0,
            v120: 0,
            relative_direction: AxisRelativeDirection::Identical,
        };
        AxisFrame { time: 0, horizontal: still, vertical: still, source: AxisSource::Wheel }
    }
}

} // verus!
