//! Device events as plain values.
//!
//! The embedding program reads a device event once and copies what the
//! pipeline needs into one of these records.

use vstd::prelude::*;

verus! {

/// Relative pointer motion.
#[derive(Clone, Copy, Debug, PartialEq, Eq)]
pub struct MotionEvent {
    /// Horizontal delta, in thousandths of a pixel.
    pub dx: i64,
    /// Vertical delta, in thousandths of a pixel.
    pub dy: i64,
    /// Event time in milliseconds.
    pub time: u32,
}

/// Absolute pointer motion, as a position within the device's own extent.
#[derive(Clone, Copy, Debug, PartialEq, Eq)]
pub struct AbsoluteMotionEvent {
    /// Horizontal position, in millionths of the extent: 0 is the left edge,
    /// 1 000 000 the right edge.
    pub x: i64,
    /// Vertical position, in millionths of the extent.
    pub y: i64,
    /// Event time in milliseconds.
    pub time: u32,
}

/// Whether a button went down or up.
#[derive(Clone, Copy, Debug, PartialEq, Eq)]
pub enum ButtonState {
    Released,
    Pressed,
}

/// A pointer button changed state.
#[derive(Clone, Copy, Debug, PartialEq, Eq)]
pub struct ButtonEvent {
    /// The device's code of the button.
    pub button: u32,
    pub state: ButtonState,
    /// Event time in milliseconds.
    pub time: u32,
}

/// What produced a scroll event.
#[derive(Clone, Copy, Debug, PartialEq, Eq)]
pub enum AxisSource {
    Wheel,
    Finger,
    Continuous,
    Unknown,
}

/// What a scroll event reports of one axis. The event has the axis exactly
/// where it reports a continuous amount of it. Either part may be missing,
/// and a missing part is not a zero.
#[derive(Clone, Copy, Debug, PartialEq, Eq)]
pub struct AxisReport {
    /// The continuous amount, in thousandths.
    pub continuous: Option<i64>,
    /// The number of discrete steps that the device or the host window
    /// reports of the axis, whether or not the event has the axis.
    pub discrete: Option<i32>,
}

impl AxisReport {
    /// What a device says of one axis of a scroll event: whether the event
    /// has the axis, the continuous amount that it gives for the axis, and
    /// the discrete steps that it gives. The amount of an axis that the
    /// event lacks is no amount.
    pub open spec fn device(present: bool, amount: i64, steps: Option<i32>) -> AxisReport {
        AxisReport { continuous: if present { Some(amount) } else { None }, discrete: steps }
    }

    /// Whether the event has the axis.
    pub open spec fn present(self) -> bool {
        self.continuous is Some
    }

    /// Computes [`AxisReport::device`].
    pub fn of_device(present: bool, amount: i64, steps: Option<i32>) -> (report: AxisReport)
        ensures
            report == AxisReport::device(present, amount, steps),
    {
        AxisReport { continuous: if present { Some(amount) } else { None }, discrete: steps }
    }
}

/// A scroll event.
#[derive(Clone, Copy, Debug, PartialEq, Eq)]
pub struct AxisEvent {
    pub source: AxisSource,
    pub horizontal: AxisReport,
    pub vertical: AxisReport,
    /// Event time in milliseconds.
    pub time: u32,
}

/// A button event after mapping.
#[derive(Clone, Copy, Debug, PartialEq, Eq)]
pub struct ProcessedButton {
    /// The code that the device reported.
    pub raw_button: u32,
    /// The code that the compositor acts on.
    pub mapped_button: u32,
    pub state: ButtonState,
    /// Event time in milliseconds.
    pub time: u32,
}

/// A scroll event after scaling. All amounts are in millionths. An axis
/// that the event lacks has neither part.
#[derive(Clone, Copy, Debug, PartialEq, Eq)]
pub struct ProcessedAxis {
    /// The source that natural scrolling was decided on.
    pub source: AxisSource,
    pub horizontal: Option<i128>,
    pub vertical: Option<i128>,
    pub horizontal_discrete: Option<i128>,
    pub vertical_discrete: Option<i128>,
    /// Event time in milliseconds.
    pub time: u32,
}

} // verus!
