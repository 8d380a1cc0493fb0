//! Conditioning of noisy digital inputs for polled embedded firmware.
//!
//! Three layered state machines turn raw switch reads into clean events:
//! a [`DebouncedInput`] filters transient noise against a timeout window,
//! a [`Button`] recognizes gestures (press, click, double click, hold)
//! on top of one debounced input, and an [`Encoder`] decodes rotation
//! direction and accumulates turn counts from two debounced channels.
//!
//! The caller owns the polling cadence: it passes the current timestamp
//! (a monotonic tick count) into every `update` call. Raw levels come
//! from an injected [`InputSwitch`] capability, so the machines work with
//! any GPIO driver or test double that can answer "is the input active?".

use vstd::prelude::*;

mod button;
mod debounced_input;
mod duration;
mod encoder;
mod error;

pub use button::{Button, ButtonConfig, ButtonEvent, ButtonState, DoubleClickConfig, HoldConfig};
pub use debounced_input::{
    DebouncedInput, DebouncedInputConfig, DebouncedInputEvent, DebouncedInputState,
};
pub use duration::{Duration, TimeError};
pub use encoder::{Encoder, EncoderConfig, EncoderEvent};
pub use error::Error;

verus! {

/// Capability through which the machines read the raw logic level of an
/// input line. Implemented by the caller's hardware driver or test double;
/// a read may fail on a hardware fault and reports nothing the library
/// could rely on, so the method carries no contract.
pub trait InputSwitch {
    type Error;

    /// Returns the current raw logic level, `true` when the input is active.
    fn is_active(&mut self) -> Result<bool, Self::Error>;
}

/// Represents a control, such as a debounced input, button or encoder:
/// something that advances one poll at a time against a caller-supplied
/// timestamp and reports at most one event per poll.
pub trait Control {
    type Event;
    type Error;

    /// Updates the control against the current timestamp and returns the
    /// event observed during this poll, or the error that aborted it.
    fn update(&mut self, now: u64) -> Result<Self::Event, Self::Error>;
}

} // verus!
