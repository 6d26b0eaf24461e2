//! The LED and the tilt motor.

use vstd::prelude::*;
use crate::FreenectError;
use crate::context::{
    Capability, FreenectDeviceMode, FreenectDeviceReady, FreenectReadyAll, FreenectReadyMotors,
    FreenectReadyVideoMotors,
};
use crate::device::FreenectDevice;
use crate::driver::{NativeCall, Request, DEVICE_CAMERA, DEVICE_MOTOR};

verus! {

/// The bits of a binary64 that hold its absolute value.
pub const MAGNITUDE_MASK: u64 = 0x7FFF_FFFF_FFFF_FFFF;

/// The absolute value of an infinity. Every larger pattern is no number.
pub const INFINITE_MAGNITUDE: u64 = 0x7FF0_0000_0000_0000;

/// The absolute value of the motor's limits, 31 degrees.
pub const MAX_TILT_MAGNITUDE: u64 = 0x403F_0000_0000_0000;

/// An angle in degrees, held as the bit pattern of an IEEE 754 binary64.
///
/// Among the patterns that are numbers, the one with the larger magnitude
/// bits has the larger absolute value, and above them all lie the
/// infinities and then the patterns that are no number. So the angles within
/// the motor's limits are exactly the patterns whose magnitude bits do not
/// exceed those of 31, and an angle is held against the limits by comparing
/// integers.
#[derive(Debug, Clone, Copy, PartialEq, Eq, Structural)]
pub struct TiltAngle {
    pub bits: u64,
}

impl TiltAngle {
    /// The pattern of the angle's absolute value.
    pub open spec fn magnitude(self) -> u64 {
        self.bits & MAGNITUDE_MASK
    }

    /// The pattern is no number.
    pub open spec fn is_nan(self) -> bool {
        self.magnitude() > INFINITE_MAGNITUDE
    }

    /// The angle is not within -31 to 31 degrees: it is a number above 31
    /// or below -31, an infinity, or no number at all.
    pub open spec fn beyond_limits(self) -> bool {
        self.magnitude() > MAX_TILT_MAGNITUDE
    }

    /// The angle with this bit pattern.
    pub fn from_bits(bits: u64) -> (angle: Self)
        ensures
            angle.bits == bits,
    {
        TiltAngle { bits }
    }

    /// The bit pattern of the angle.
    pub fn to_bits(self) -> (bits: u64)
        ensures
            bits == self.bits,
    {
        self.bits
    }

    /// Whether the motor cannot reach the angle.
    pub fn is_beyond_limits(self) -> (r: bool)
        ensures
            r == self.beyond_limits(),
    {
        let magnitude: u64 = self.bits & MAGNITUDE_MASK;
        magnitude > MAX_TILT_MAGNITUDE
    }
}

/// A pattern that is no number is beyond the limits, and so is an infinity:
/// neither ever reaches the motor.
pub proof fn only_numbers_are_within_limits(angle: TiltAngle)
    ensures
        angle.is_nan() ==> angle.beyond_limits(),
        angle.magnitude() == INFINITE_MAGNITUDE ==> angle.beyond_limits(),
        !angle.beyond_limits() ==> !angle.is_nan() && angle.magnitude() <= MAX_TILT_MAGNITUDE,
{
}

/// Tags of contexts whose subdevices include the motor.
pub trait FreenectMotors: FreenectDeviceReady {
    /// Each implementor shows that its capability includes the motor.
    proof fn motorized()
        ensures
            Self::capability().has_motors(),
    ;
}

impl FreenectMotors for FreenectReadyVideoMotors {
    proof fn motorized() {
        assert((DEVICE_CAMERA | DEVICE_MOTOR) & DEVICE_MOTOR != 0) by (bit_vector);
    }
}

impl FreenectMotors for FreenectReadyMotors {
    proof fn motorized() {
        assert(DEVICE_MOTOR & DEVICE_MOTOR != 0) by (bit_vector);
    }
}

impl FreenectMotors for FreenectReadyAll {
    proof fn motorized() {
    }
}

/// Which capabilities include the motor: the three whose tags carry
/// `FreenectMotors`, and no other.
pub proof fn motor_capabilities(c: Capability)
    ensures
        c.has_motors() <==> (c == Capability::VideoAndMotors || c == Capability::MotorsOnly || c
            == Capability::AllSubsystems),
{
    assert((DEVICE_CAMERA | DEVICE_MOTOR) & DEVICE_MOTOR != 0) by (bit_vector);
    assert(DEVICE_MOTOR & DEVICE_MOTOR != 0) by (bit_vector);
    assert(DEVICE_CAMERA & DEVICE_MOTOR == 0) by (bit_vector);
}

/// What the LED shows.
#[derive(Debug, Clone, Copy, PartialEq, Eq, Structural)]
pub enum FreenectLedState {
    Off,
    Green,
    Red,
    Yellow,
    BlinkGreen,
    BlinkRedYellow,
}

impl FreenectLedState {
    /// The driver's number for this state.
    pub open spec fn raw(self) -> u32 {
        match self {
            FreenectLedState::Off => 0,
            FreenectLedState::Green => 1,
            FreenectLedState::Red => 2,
            FreenectLedState::Yellow => 3,
            FreenectLedState::BlinkGreen => 4,
            FreenectLedState::BlinkRedYellow => 6,
        }
    }

    /// The driver's number for this state.
    pub fn to_raw(self) -> (value: u32)
        ensures
            value == self.raw(),
    {
        match self {
            FreenectLedState::Off => 0,
            FreenectLedState::Green => 1,
            FreenectLedState::Red => 2,
            FreenectLedState::Yellow => 3,
            FreenectLedState::BlinkGreen => 4,
            FreenectLedState::BlinkRedYellow => 6,
        }
    }
}

impl Default for FreenectLedState {
    fn default() -> (state: Self)
        ensures
            state == FreenectLedState::Green,
    {
        FreenectLedState::Green
    }
}

/// The state of the tilt motor. It carries nothing yet.
#[derive(Debug, Clone, Copy, PartialEq, Eq, Structural)]
pub struct FreenectTiltState;

impl<'a, D> FreenectDevice<'a, D> where D: FreenectDeviceReady + FreenectDeviceMode + FreenectMotors {
    /// The request that sets the LED.
    pub fn set_led(&self, state: FreenectLedState) -> (request: Request)
        ensures
            request == (Request {
                call: NativeCall::SetLed { state: state.raw() },
                failure: FreenectError::LedStateError,
            }),
    {
        Request { call: NativeCall::SetLed { state: state.to_raw() }, failure: FreenectError::LedStateError }
    }

    /// The request that tilts the device to `deg` degrees. An angle that is
    /// not within the motor's limits, or is no number, is turned down here,
    /// and no call is made for it; the limits themselves are within reach.
    pub fn set_tilt_degree(&self, deg: TiltAngle) -> (r: Result<Request, FreenectError>)
        ensures
            deg.beyond_limits() ==> r == Err::<Request, FreenectError>(
                FreenectError::TiltAngleOutOfRange(deg),
            ),
            !deg.beyond_limits() ==> r == Ok::<Request, FreenectError>(
                Request {
                    call: NativeCall::SetTiltDegs { angle: deg },
                    failure: FreenectError::TiltAngleError,
                },
            ),
    {
        if deg.is_beyond_limits() {
            return Err(FreenectError::TiltAngleOutOfRange(deg));
        }
        Ok(Request { call: NativeCall::SetTiltDegs { angle: deg }, failure: FreenectError::TiltAngleError })
    }

    /// The state of the tilt motor.
    pub fn get_tilt_state(&self) -> (r: Result<FreenectTiltState, FreenectError>)
        ensures
            r == Ok::<FreenectTiltState, FreenectError>(FreenectTiltState),
    {
        Ok(FreenectTiltState)
    }
}

} // verus!
