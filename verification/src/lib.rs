//! The decision core of a windowed display server: the pointer input pipeline
//! and the per-frame tick of the windowed backend.
//!
//! Nothing in this crate touches a device, a window or a GPU. The embedding
//! program reads device and host events, hands them to this crate as plain
//! values, and performs the effects that the crate answers with.
//!
//! * [`input`] holds the pointer: acceleration of relative motion, mapping of
//!   absolute positions, scroll scaling with natural scrolling, and the
//!   confinement state.
//! * [`compositor`] holds the windowed backend: what start-up comes to, the
//!   tick as a state machine, the frame that a scene gives, and the laws of
//!   the tick.
//!
//! # Numbers
//!
//! All quantities are integers that count decimal fractions:
//!
//! * raw device amounts (relative deltas, scroll amounts) and configuration
//!   factors count thousandths;
//! * absolute device coordinates count millionths of the device's extent;
//! * every processed amount (accelerated deltas, scaled scroll amounts, screen
//!   positions) counts millionths.
//!
//! Products are therefore exact: no function of this crate rounds, and none
//! overflows.

pub mod compositor;
pub mod input;
