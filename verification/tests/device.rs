use freenect_async::context::{FreenectContext, FreenectReadyAll};
use freenect_async::driver::{NativeCall, Request};
use freenect_async::motors_led::{FreenectLedState, FreenectTiltState, TiltAngle};
use freenect_async::video::{MAX_IR_BRIGHTNESS, MIN_IR_BRIGHTNESS};
use freenect_async::FreenectError;

fn ready() -> FreenectContext<FreenectReadyAll> {
    FreenectContext::new(0, 0x10).unwrap().setup_all().0
}

fn angle(degrees: f64) -> TiltAngle {
    TiltAngle::from_bits(degrees.to_bits())
}

fn tilt_request(degrees: f64) -> Result<Request, FreenectError> {
    let mut ctx = ready();
    let dev = ctx.open_device(0, 0, 0x20).unwrap();
    dev.set_tilt_degree(angle(degrees))
}

fn tilt_call(degrees: f64) -> Result<Request, FreenectError> {
    Ok(Request {
        call: NativeCall::SetTiltDegs { angle: angle(degrees) },
        failure: FreenectError::TiltAngleError,
    })
}

#[test]
fn led_states_and_their_numbers() {
    assert_eq!(FreenectLedState::Off.to_raw(), 0);
    assert_eq!(FreenectLedState::Green.to_raw(), 1);
    assert_eq!(FreenectLedState::Red.to_raw(), 2);
    assert_eq!(FreenectLedState::Yellow.to_raw(), 3);
    assert_eq!(FreenectLedState::BlinkGreen.to_raw(), 4);
    assert_eq!(FreenectLedState::BlinkRedYellow.to_raw(), 6);
    assert_eq!(FreenectLedState::default(), FreenectLedState::Green);
}

#[test]
fn set_led_asks_for_the_state() {
    let mut ctx = ready();
    let dev = ctx.open_device(0, 0, 0x20).unwrap();
    let request = dev.set_led(FreenectLedState::Yellow);
    assert_eq!(request.call, NativeCall::SetLed { state: 3 });
    assert_eq!(request.complete(0), Ok(()));
    assert_eq!(request.complete(-1), Err(FreenectError::LedStateError));
}

#[test]
fn tilt_within_the_limits_is_asked_for() {
    for degrees in [0.0, -0.0, 30.0, -30.0, 12.5, 1e-300] {
        assert_eq!(tilt_request(degrees), tilt_call(degrees));
    }
}

#[test]
fn tilt_limits_are_within_reach() {
    assert_eq!(tilt_request(31.0), tilt_call(31.0));
    assert_eq!(tilt_request(-31.0), tilt_call(-31.0));
    assert_eq!(31.0f64.to_bits(), 0x403F_0000_0000_0000);
}

#[test]
fn tilt_beyond_the_limits_is_turned_down() {
    for degrees in [31.000000000000004, -31.000000000000004, 32.0, -90.0, 1e300, f64::INFINITY, f64::NEG_INFINITY] {
        assert_eq!(
            tilt_request(degrees),
            Err(FreenectError::TiltAngleOutOfRange(angle(degrees)))
        );
    }
}

#[test]
fn tilt_check_agrees_with_the_interval_of_floats() {
    let samples = [
        0.0, 1.0, -1.0, 30.999999999999996, 31.0, 31.000000000000004, -30.999999999999996, -31.0,
        -31.000000000000004, 1e10, -1e10, f64::MIN_POSITIVE, f64::MAX, f64::MIN, f64::INFINITY,
        f64::NEG_INFINITY, f64::NAN, -f64::NAN,
    ];
    for degrees in samples {
        let within = degrees >= -31.0 && degrees <= 31.0;
        assert_eq!(angle(degrees).is_beyond_limits(), !within, "{}", degrees);
        assert_eq!(angle(degrees).to_bits(), degrees.to_bits());
    }
}

#[test]
fn tilt_that_is_no_number_is_turned_down() {
    let patterns = [
        f64::NAN.to_bits(),
        (-f64::NAN).to_bits(),
        0x7FF0_0000_0000_0001,
        0xFFF0_0000_0000_0001,
        0x7FFF_FFFF_FFFF_FFFF,
        u64::MAX,
    ];
    let mut ctx = ready();
    let dev = ctx.open_device(0, 0, 0x20).unwrap();
    for bits in patterns {
        assert!(f64::from_bits(bits).is_nan());
        assert!(TiltAngle::from_bits(bits).is_beyond_limits());
        assert_eq!(
            dev.set_tilt_degree(TiltAngle::from_bits(bits)),
            Err(FreenectError::TiltAngleOutOfRange(TiltAngle::from_bits(bits)))
        );
    }
}

#[test]
fn tilt_answer_is_read() {
    let request = tilt_request(10.0).unwrap();
    assert_eq!(request.complete(0), Ok(()));
    assert_eq!(request.complete(-1), Err(FreenectError::TiltAngleError));
}

#[test]
fn tilt_state_is_there() {
    let mut ctx = ready();
    let dev = ctx.open_device(0, 0, 0x20).unwrap();
    assert_eq!(dev.get_tilt_state(), Ok(FreenectTiltState));
}

#[test]
fn brightness_window() {
    assert_eq!(MIN_IR_BRIGHTNESS, 1);
    assert_eq!(MAX_IR_BRIGHTNESS, 50);
}

#[test]
fn brightness_inside_the_window_is_asked_for() {
    let mut ctx = ready();
    let mut dev = ctx.open_device(0, 0, 0x20).unwrap();
    for brightness in [1u16, 2, 25, 49, 50] {
        let request = dev.set_ir_brightness(brightness).unwrap();
        assert_eq!(request.call, NativeCall::SetIrBrightness { brightness });
        assert_eq!(request.complete(0), Ok(()));
        assert_eq!(request.complete(-1), Err(FreenectError::SetBrightnessError));
    }
}

#[test]
fn brightness_outside_the_window_is_turned_down() {
    let mut ctx = ready();
    let mut dev = ctx.open_device(0, 0, 0x20).unwrap();
    for brightness in [0u16, 51, 52, 1000, u16::MAX] {
        assert_eq!(
            dev.set_ir_brightness(brightness),
            Err(FreenectError::BrightnessOutOfRange(brightness))
        );
    }
}

#[test]
fn brightness_is_read_from_the_answer() {
    let mut ctx = ready();
    let dev = ctx.open_device(0, 0, 0x20).unwrap();
    assert_eq!(dev.get_ir_brightness(25), Ok(25));
    assert_eq!(dev.get_ir_brightness(0), Ok(0));
    assert_eq!(dev.get_ir_brightness(65535), Ok(65535));
    assert_eq!(dev.get_ir_brightness(65536 + 7), Ok(7));
    assert_eq!(dev.get_ir_brightness(-1), Err(FreenectError::GetBrightnessError));
}
