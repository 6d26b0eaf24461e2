//! The vocabulary shared with the shell that talks to the driver: the calls
//! this crate can ask for, and how the driver's integer answers are read.

use vstd::prelude::*;
use crate::FreenectError;
use crate::motors_led::TiltAngle;

verus! {

/// Bit of the subdevice mask that selects the tilt motor and the LED.
pub const DEVICE_MOTOR: u32 = 0x01;

/// Bit of the subdevice mask that selects the camera.
pub const DEVICE_CAMERA: u32 = 0x02;

/// A frame mode as the driver lays it out: every field a plain integer.
#[derive(Debug, Clone, Copy, PartialEq, Eq, Structural)]
pub struct RawFrameMode {
    pub reserved: u32,
    pub resolution: u32,
    pub format: u32,
    pub bytes: i32,
    pub width: i16,
    pub height: i16,
    pub data_bits_per_pixel: i8,
    pub padding_bits_per_pixel: i8,
    pub framerate: i8,
    pub is_valid: i8,
}

/// One call into the driver, with the plain arguments it is made with.
///
/// The handle a call is made on is not part of it: the shell knows which
/// context or device the value that produced the call stands for.
#[derive(Debug, Clone, Copy, PartialEq, Eq, Structural)]
pub enum NativeCall {
    /// Shut the context down.
    Shutdown,
    /// Choose the subdevices that later opens will claim.
    SelectSubdevices { flags: u32 },
    /// Set the verbosity of the driver's log.
    SetLogLevel { level: u32 },
    /// Route the driver's log to the registered sink, or back to its default.
    SetLogCallback { installed: bool },
    /// Open the device at an index.
    OpenDevice { index: i32 },
    /// Close the device.
    CloseDevice,
    /// Set the LED.
    SetLed { state: u32 },
    /// Tilt to an angle in degrees.
    SetTiltDegs { angle: TiltAngle },
    /// Set the brightness of the infrared projector.
    SetIrBrightness { brightness: u16 },
    /// Select the mode of the video stream.
    SetVideoMode { mode: RawFrameMode },
    /// Arm or disarm the video frame callback.
    SetVideoCallback { armed: bool },
    /// Start video streaming.
    StartVideo,
    /// Stop video streaming.
    StopVideo,
    /// Select the mode of the depth stream.
    SetDepthMode { mode: RawFrameMode },
    /// Arm or disarm the depth frame callback.
    SetDepthCallback { armed: bool },
    /// Start depth streaming.
    StartDepth,
    /// Stop depth streaming.
    StopDepth,
    /// Point the device's user-data slot at the polling stream, or clear it.
    SetUser { attached: bool },
    /// Process the pending events once, without waiting.
    ProcessEvents,
}

/// The driver reports failure by a negative answer, and by nothing else.
pub open spec fn refused(code: i32) -> bool {
    code < 0
}

/// Whether an answer of the driver reports failure.
pub fn is_refused(code: i32) -> (r: bool)
    ensures
        r == refused(code),
{
    code < 0
}

/// A call whose answer only tells success from failure, together with the
/// error that a refusal becomes.
#[derive(Debug, Clone, Copy, PartialEq, Eq, Structural)]
pub struct Request {
    pub call: NativeCall,
    pub failure: FreenectError,
}

impl Request {
    /// What the caller gets once the driver has answered `code`.
    pub open spec fn outcome(self, code: i32) -> Result<(), FreenectError> {
        if refused(code) {
            Err(self.failure)
        } else {
            Ok(())
        }
    }

    /// Reads the driver's answer to this request.
    pub fn complete(&self, code: i32) -> (r: Result<(), FreenectError>)
        ensures
            r == self.outcome(code),
    {
        if is_refused(code) {
            Err(self.failure)
        } else {
            Ok(())
        }
    }
}

} // verus!
