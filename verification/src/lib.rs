//! The decision core of a binding to the Kinect driver library (libfreenect).
//!
//! Nothing in this crate touches the driver. Every operation is cut at the
//! driver call: one half says which entry point to invoke and with what
//! arguments (see [`driver::NativeCall`]), the other half takes the integer the
//! driver answered and says what the caller gets. The shell that owns the
//! native handles performs the calls in between.

use vstd::prelude::*;

pub mod context;
pub mod device;
pub mod driver;
pub mod formats;
pub mod motors_led;
pub mod stream;
pub mod video;

verus! {

/// Everything that can go wrong, as a typed value.
#[derive(Debug, Clone, Copy, PartialEq, Eq, Structural)]
pub enum FreenectError {
    /// The driver could not be initialised.
    ContextCreationError,
    /// The driver could not count the attached devices.
    DeviceListError,
    /// No device is attached at this index.
    DeviceNotFound(u32),
    /// The driver refused to open the device at this index.
    OpenDeviceError(u32),
    /// The driver refused the LED state.
    LedStateError,
    /// The angle lies beyond the motor's limits of plus or minus 31 degrees.
    TiltAngleOutOfRange(motors_led::TiltAngle),
    /// The driver refused the tilt angle.
    TiltAngleError,
    /// The brightness lies outside the window from 1 to 50.
    BrightnessOutOfRange(u16),
    /// The driver refused the brightness.
    SetBrightnessError,
    /// The driver could not read the brightness.
    GetBrightnessError,
    /// The driver failed while processing its pending events.
    EventProcessingError,
    /// The driver refused to configure or start a stream.
    VideoStreamError,
    /// The mode's format does not belong to the kind of stream asked for.
    BadVideoFormat,
}

} // verus!
