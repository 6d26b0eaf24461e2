use freenect_async::context::{
    Capability, FreenectContext, FreenectDeviceMode, FreenectInitialized, FreenectLogLevel,
    FreenectReadyAll, FreenectReadyMotors, FreenectReadyVideo, FreenectReadyVideoMotors, LogSink,
};
use freenect_async::driver::{is_refused, NativeCall, Request, DEVICE_CAMERA, DEVICE_MOTOR};
use freenect_async::FreenectError;

fn fresh(handle: usize) -> FreenectContext<FreenectInitialized> {
    FreenectContext::new(0, handle).unwrap()
}

#[test]
fn negative_answers_are_refusals() {
    assert!(is_refused(-1));
    assert!(is_refused(i32::MIN));
    assert!(!is_refused(0));
    assert!(!is_refused(1));
    assert!(!is_refused(i32::MAX));
}

#[test]
fn request_completes_by_the_sign_of_the_answer() {
    let request = Request { call: NativeCall::StartVideo, failure: FreenectError::VideoStreamError };
    assert_eq!(request.complete(0), Ok(()));
    assert_eq!(request.complete(17), Ok(()));
    assert_eq!(request.complete(-1), Err(FreenectError::VideoStreamError));
}

#[test]
fn new_fails_when_the_driver_does() {
    let r = FreenectContext::new(-1, 0x1000);
    assert_eq!(r.err(), Some(FreenectError::ContextCreationError));
}

#[test]
fn new_keeps_the_handle() {
    let ctx = FreenectContext::new(0, 0x1000).unwrap();
    assert_eq!(ctx.inner(), 0x1000);
}

#[test]
fn setup_video_selects_the_camera() {
    let (ctx, call) = fresh(0x2000).setup_video();
    assert_eq!(call, Some(NativeCall::SelectSubdevices { flags: 2 }));
    assert_eq!(ctx.inner(), 0x2000);
}

#[test]
fn setup_video_motors_selects_both() {
    let (ctx, call) = fresh(0x2001).setup_video_motors();
    assert_eq!(call, Some(NativeCall::SelectSubdevices { flags: 3 }));
    assert_eq!(ctx.inner(), 0x2001);
}

#[test]
fn setup_motors_selects_the_motor() {
    let (ctx, call) = fresh(0x2002).setup_motors();
    assert_eq!(call, Some(NativeCall::SelectSubdevices { flags: 1 }));
    assert_eq!(ctx.inner(), 0x2002);
}

#[test]
fn setup_all_makes_no_call() {
    let (ctx, call) = fresh(0x2003).setup_all();
    assert_eq!(call, None);
    assert_eq!(ctx.inner(), 0x2003);
}

#[test]
fn subdevice_bits() {
    assert_eq!(DEVICE_MOTOR, 1);
    assert_eq!(DEVICE_CAMERA, 2);
}

#[test]
fn list_devices_reads_the_count() {
    let ctx = fresh(1);
    assert_eq!(ctx.list_devices(0), Ok(0));
    assert_eq!(ctx.list_devices(3), Ok(3));
    assert_eq!(ctx.list_devices(i32::MAX), Ok(2147483647));
}

#[test]
fn list_devices_fails_on_a_negative_count() {
    let ctx = fresh(1);
    assert_eq!(ctx.list_devices(-1), Err(FreenectError::DeviceListError));
    assert_eq!(ctx.list_devices(-7), Err(FreenectError::DeviceListError));
}

#[test]
fn open_device_beyond_the_count_is_not_found() {
    let (ctx, _) = fresh(1).setup_all();
    assert_eq!(ctx.open_device_request(3, 3), Err(FreenectError::DeviceNotFound(3)));
    assert_eq!(ctx.open_device_request(4, 3), Err(FreenectError::DeviceNotFound(4)));
    assert_eq!(ctx.open_device_request(0, 0), Err(FreenectError::DeviceNotFound(0)));
    assert_eq!(
        ctx.open_device_request(u32::MAX, i32::MAX),
        Err(FreenectError::DeviceNotFound(u32::MAX))
    );
}

#[test]
fn open_device_below_the_count_asks_the_driver() {
    let (ctx, _) = fresh(1).setup_video();
    assert_eq!(ctx.open_device_request(0, 1), Ok(NativeCall::OpenDevice { index: 0 }));
    assert_eq!(ctx.open_device_request(2, 3), Ok(NativeCall::OpenDevice { index: 2 }));
}

#[test]
fn open_device_fails_when_the_count_fails() {
    let (ctx, _) = fresh(1).setup_motors();
    assert_eq!(ctx.open_device_request(0, -1), Err(FreenectError::DeviceListError));
}

#[test]
fn open_device_reads_the_answer() {
    let (mut ctx, _) = fresh(0x30).setup_all();
    {
        let r = ctx.open_device(2, -1, 0);
        assert_eq!(r.err(), Some(FreenectError::OpenDeviceError(2)));
    }
    let dev = ctx.open_device(2, 0, 0x40).unwrap();
    assert_eq!(dev.inner(), 0x40);
    assert_eq!(dev.context().inner(), 0x30);
}

#[test]
fn shutdown_and_close_hand_back_the_handles() {
    let (mut ctx, _) = fresh(0x50).setup_all();
    let dev = ctx.open_device(0, 0, 0x60).unwrap();
    assert_eq!(dev.close(), (0x60, NativeCall::CloseDevice));
    assert_eq!(ctx.shutdown(), (0x50, NativeCall::Shutdown));
}

#[test]
fn log_levels_and_their_numbers() {
    let levels = [
        (FreenectLogLevel::Fatal, 0u32),
        (FreenectLogLevel::Error, 1),
        (FreenectLogLevel::Warning, 2),
        (FreenectLogLevel::Notice, 3),
        (FreenectLogLevel::Info, 4),
        (FreenectLogLevel::Debug, 5),
        (FreenectLogLevel::Spew, 6),
        (FreenectLogLevel::Flood, 7),
    ];
    for (level, number) in levels {
        assert_eq!(level.to_raw(), number);
        assert_eq!(FreenectLogLevel::try_from(number), Ok(level));
    }
    assert_eq!(FreenectLogLevel::try_from(8), Err(()));
    assert_eq!(FreenectLogLevel::try_from(u32::MAX), Err(()));
}

#[test]
fn unknown_log_level_counts_as_the_default() {
    assert_eq!(FreenectLogLevel::default(), FreenectLogLevel::Fatal);
    assert_eq!(FreenectLogLevel::of_message(99), FreenectLogLevel::Fatal);
    assert_eq!(FreenectLogLevel::of_message(6), FreenectLogLevel::Spew);
}

#[test]
fn set_log_level_names_the_level() {
    let ctx = fresh(1);
    assert_eq!(
        ctx.set_log_level(FreenectLogLevel::Spew),
        NativeCall::SetLogLevel { level: 6 }
    );
}

#[test]
fn last_log_callback_wins() {
    let ctx = fresh(1);
    let mut sink: LogSink<u8> = LogSink::new();
    assert_eq!(sink.callback(), None);
    assert_eq!(
        ctx.set_log_callback(&mut sink, Some(1)),
        NativeCall::SetLogCallback { installed: true }
    );
    assert_eq!(sink.callback(), Some(&1));
    assert_eq!(
        ctx.set_log_callback(&mut sink, Some(2)),
        NativeCall::SetLogCallback { installed: true }
    );
    assert_eq!(sink.callback(), Some(&2));
    assert_eq!(
        ctx.set_log_callback(&mut sink, None),
        NativeCall::SetLogCallback { installed: false }
    );
    assert_eq!(sink.callback(), None);
}

#[test]
fn tags_and_their_capabilities() {
    assert_eq!(FreenectInitialized::tag(), Capability::Uninitialized);
    assert_eq!(FreenectReadyVideo::tag(), Capability::VideoOnly);
    assert_eq!(FreenectReadyVideoMotors::tag(), Capability::VideoAndMotors);
    assert_eq!(FreenectReadyMotors::tag(), Capability::MotorsOnly);
    assert_eq!(FreenectReadyAll::tag(), Capability::AllSubsystems);
}

#[test]
fn capability_sets() {
    let table = [
        (Capability::Uninitialized, false, false, false, None),
        (Capability::VideoOnly, true, true, false, Some(2u32)),
        (Capability::VideoAndMotors, true, true, true, Some(3)),
        (Capability::MotorsOnly, true, false, true, Some(1)),
        (Capability::AllSubsystems, true, true, true, None),
    ];
    for (capability, open, video, motors, subdevices) in table {
        assert_eq!(capability.grants_open(), open);
        assert_eq!(capability.grants_video(), video);
        assert_eq!(capability.grants_motors(), motors);
        assert_eq!(capability.subdevices(), subdevices);
    }
}

#[test]
fn context_knows_its_capability() {
    assert_eq!(fresh(1).capability(), Capability::Uninitialized);
    assert_eq!(fresh(1).setup_video().0.capability(), Capability::VideoOnly);
    assert_eq!(fresh(1).setup_video_motors().0.capability(), Capability::VideoAndMotors);
    assert_eq!(fresh(1).setup_motors().0.capability(), Capability::MotorsOnly);
    assert_eq!(fresh(1).setup_all().0.capability(), Capability::AllSubsystems);
}

#[test]
fn configure_selects_what_the_tag_stands_for() {
    let (ctx, call) = fresh(0x77).configure::<FreenectReadyMotors>();
    assert_eq!(call, Some(NativeCall::SelectSubdevices { flags: DEVICE_MOTOR }));
    assert_eq!(ctx.inner(), 0x77);
    assert_eq!(ctx.capability(), Capability::MotorsOnly);
    let (ctx, call) = fresh(0x78).configure::<FreenectReadyAll>();
    assert_eq!(call, None);
    assert_eq!(ctx.inner(), 0x78);
}
