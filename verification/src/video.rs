//! The camera: brightness, mode catalogs and stream start.

use vstd::prelude::*;
use crate::FreenectError;
use crate::context::{
    Capability, FreenectDeviceReady, FreenectReadyAll, FreenectReadyVideo,
    FreenectReadyVideoMotors,
};
use crate::device::FreenectDevice;
use crate::driver::{refused, is_refused, NativeCall, RawFrameMode, Request, DEVICE_CAMERA, DEVICE_MOTOR};
use crate::formats::FreenectVideoMode;
use crate::stream::{BridgeModel, DepthStream, VideoStream};

verus! {

/// The dimmest setting of the infrared projector.
pub const MIN_IR_BRIGHTNESS: u16 = 1;

/// The brightest setting of the infrared projector.
pub const MAX_IR_BRIGHTNESS: u16 = 50;

/// Tags of contexts whose subdevices include the camera.
pub trait FreenectVideo: FreenectDeviceReady {
    /// Each implementor shows that its capability includes the camera.
    proof fn filming()
        ensures
            Self::capability().has_video(),
    ;
}

impl FreenectVideo for FreenectReadyVideo {
    proof fn filming() {
        assert(DEVICE_CAMERA & DEVICE_CAMERA != 0) by (bit_vector);
    }
}

impl FreenectVideo for FreenectReadyVideoMotors {
    proof fn filming() {
        assert((DEVICE_CAMERA | DEVICE_MOTOR) & DEVICE_CAMERA != 0) by (bit_vector);
    }
}

impl FreenectVideo for FreenectReadyAll {
    proof fn filming() {
    }
}

/// Which capabilities include the camera: the three whose tags carry
/// `FreenectVideo`, and no other.
pub proof fn video_capabilities(c: Capability)
    ensures
        c.has_video() <==> (c == Capability::VideoOnly || c == Capability::VideoAndMotors || c
            == Capability::AllSubsystems),
{
    assert(DEVICE_CAMERA & DEVICE_CAMERA != 0) by (bit_vector);
    assert((DEVICE_CAMERA | DEVICE_MOTOR) & DEVICE_CAMERA != 0) by (bit_vector);
    assert(DEVICE_MOTOR & DEVICE_CAMERA == 0) by (bit_vector);
}

/// The brightness window of the infrared projector, bounds included.
pub open spec fn brightness_in_window(brightness: u16) -> bool {
    MIN_IR_BRIGHTNESS <= brightness <= MAX_IR_BRIGHTNESS
}

/// The video modes among the entries of a raw catalog, in the catalog's
/// order. An entry whose format or resolution is unknown is left out.
pub open spec fn supported_video_modes(catalog: Seq<RawFrameMode>) -> Seq<FreenectVideoMode>
    decreases catalog.len(),
{
    if catalog.len() == 0 {
        Seq::empty()
    } else {
        match FreenectVideoMode::video_of_raw(catalog.last()) {
            Some(mode) => supported_video_modes(catalog.drop_last()).push(mode),
            None => supported_video_modes(catalog.drop_last()),
        }
    }
}

/// The depth modes among the entries of a raw catalog, in the catalog's
/// order. An entry whose format or resolution is unknown is left out.
pub open spec fn supported_depth_modes(catalog: Seq<RawFrameMode>) -> Seq<FreenectVideoMode>
    decreases catalog.len(),
{
    if catalog.len() == 0 {
        Seq::empty()
    } else {
        match FreenectVideoMode::depth_of_raw(catalog.last()) {
            Some(mode) => supported_depth_modes(catalog.drop_last()).push(mode),
            None => supported_depth_modes(catalog.drop_last()),
        }
    }
}

/// Every mode read from a video catalog has a video format, and every mode
/// read from a depth catalog a depth format: each starts the stream of its
/// own kind without being turned down for its format.
pub proof fn supported_modes_keep_their_kind(catalog: Seq<RawFrameMode>, i: int)
    ensures
        0 <= i < supported_video_modes(catalog).len() ==> supported_video_modes(
            catalog,
        )[i].format is Video,
        0 <= i < supported_depth_modes(catalog).len() ==> supported_depth_modes(
            catalog,
        )[i].format is Depth,
    decreases catalog.len(),
{
    if catalog.len() > 0 {
        supported_modes_keep_their_kind(catalog.drop_last(), i);
    }
}

impl<'a, D> FreenectDevice<'a, D> where D: FreenectVideo {
    /// Reads the driver's answer to a query of the infrared brightness: the
    /// low sixteen bits of an answer that is no failure.
    pub fn get_ir_brightness(&self, code: i32) -> (r: Result<u16, FreenectError>)
        ensures
            refused(code) ==> r == Err::<u16, FreenectError>(FreenectError::GetBrightnessError),
            !refused(code) ==> r == Ok::<u16, FreenectError>((code % 0x1_0000) as u16),
    {
        if is_refused(code) {
            return Err(FreenectError::GetBrightnessError);
        }
        let low: i32 = code % 0x1_0000;
        Ok(low as u16)
    }

    /// The request that sets the infrared brightness. A value outside the
    /// window is turned down here, and no call is made for it; the bounds
    /// of the window are inside it.
    pub fn set_ir_brightness(&mut self, brightness: u16) -> (r: Result<Request, FreenectError>)
        ensures
            !brightness_in_window(brightness) ==> r == Err::<Request, FreenectError>(
                FreenectError::BrightnessOutOfRange(brightness),
            ),
            brightness_in_window(brightness) ==> r == Ok::<Request, FreenectError>(
                Request {
                    call: NativeCall::SetIrBrightness { brightness },
                    failure: FreenectError::SetBrightnessError,
                },
            ),
            *final(self) == *old(self),
    {
        if brightness > MAX_IR_BRIGHTNESS || brightness < MIN_IR_BRIGHTNESS {
            return Err(FreenectError::BrightnessOutOfRange(brightness));
        }
        Ok(
            Request {
                call: NativeCall::SetIrBrightness { brightness },
                failure: FreenectError::SetBrightnessError,
            },
        )
    }

    /// The video modes that the driver's catalog offers.
    pub fn get_supported_video_modes(&self, catalog: &[RawFrameMode]) -> (modes: Vec<
        FreenectVideoMode,
    >)
        ensures
            modes@ == supported_video_modes(catalog@),
    {
        let count: usize = catalog.len();
        let mut modes: Vec<FreenectVideoMode> = Vec::with_capacity(count);
        let mut i: usize = 0;
        while i < count
            invariant
                count == catalog@.len(),
                i <= count,
                modes@ == supported_video_modes(catalog@.take(i as int)),
            decreases count - i,
        {
            proof {
                assert(catalog@.take(i + 1).drop_last() =~= catalog@.take(i as int));
            }
            if let Some(mode) = FreenectVideoMode::from_raw_video(&catalog[i]) {
                modes.push(mode);
            }
            i = i + 1;
        }
        proof {
            assert(catalog@.take(count as int) =~= catalog@);
        }
        modes
    }

    /// The depth modes that the driver's catalog offers.
    pub fn get_supported_depth_modes(&self, catalog: &[RawFrameMode]) -> (modes: Vec<
        FreenectVideoMode,
    >)
        ensures
            modes@ == supported_depth_modes(catalog@),
    {
        let count: usize = catalog.len();
        let mut modes: Vec<FreenectVideoMode> = Vec::with_capacity(count);
        let mut i: usize = 0;
        while i < count
            invariant
                count == catalog@.len(),
                i <= count,
                modes@ == supported_depth_modes(catalog@.take(i as int)),
            decreases count - i,
        {
            proof {
                assert(catalog@.take(i + 1).drop_last() =~= catalog@.take(i as int));
            }
            if let Some(mode) = FreenectVideoMode::from_raw_depth(&catalog[i]) {
                modes.push(mode);
            }
            i = i + 1;
        }
        proof {
            assert(catalog@.take(count as int) =~= catalog@);
        }
        modes
    }

    /// Starts the video stream in the mode `video`. A mode with a depth
    /// format is turned down here, before any call; otherwise the stream is
    /// there, idle, and its `startup` requests are to be made.
    pub fn start_video_stream<'b>(&'b mut self, video: &FreenectVideoMode) -> (r: Result<
        VideoStream<'a, 'b, D>,
        FreenectError,
    >)
        ensures
            video.format is Depth ==> r == Err::<VideoStream<'a, 'b, D>, FreenectError>(
                FreenectError::BadVideoFormat,
            ),
            video.format is Video ==> r.is_ok() && r.unwrap().model() == BridgeModel::<u8>::fresh()
                && r.unwrap().mode_of() == *video && r.unwrap().device_of() == *old(self)
                && r.unwrap().frame_len() == video.bytes,
            *final(self) == *old(self),
    {
        VideoStream::new(self, video)
    }

    /// Starts the depth stream in the mode `depth`. A mode with a video
    /// format is turned down here, before any call; otherwise the stream is
    /// there, idle, and its `startup` requests are to be made.
    pub fn start_depth_stream<'b>(&'b mut self, depth: &FreenectVideoMode) -> (r: Result<
        DepthStream<'a, 'b, D>,
        FreenectError,
    >)
        ensures
            depth.format is Video ==> r == Err::<DepthStream<'a, 'b, D>, FreenectError>(
                FreenectError::BadVideoFormat,
            ),
            depth.format is Depth ==> r.is_ok() && r.unwrap().model() == BridgeModel::<u16>::fresh()
                && r.unwrap().mode_of() == *depth && r.unwrap().device_of() == *old(self)
                && r.unwrap().frame_len() == depth.bytes / 2,
            *final(self) == *old(self),
    {
        DepthStream::new(self, depth)
    }
}

} // verus!
