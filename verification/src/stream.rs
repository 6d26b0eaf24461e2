//! Frame streams: the bridge between the driver's frame callback and a
//! consumer that asks for one frame at a time.
//!
//! A consumer's request goes through `begin_poll`. If a frame is buffered,
//! `take_frame` hands it out. Otherwise the shell performs the calls of
//! `pump`, during which the driver may run the frame callback, which ends in
//! `deliver`; then `poll_next` reads the driver's answer and, where no frame
//! came, registers the consumer's waker.

use vstd::prelude::*;
use core::task::Waker;
use crate::FreenectError;
use crate::device::FreenectDevice;
use crate::driver::{refused, is_refused, NativeCall, Request};
use crate::formats::{FreenectFormat, FreenectVideoMode};
use crate::video::FreenectVideo;

verus! {

/// For so many empty polls in a row a suspended consumer is rescheduled at
/// once; after that it waits for the frame callback to wake it.
pub const BUSY_POLLS: u32 = 20;

/// A frame as contracts see it: its samples and the driver's timestamp.
pub struct FrameView<T> {
    pub data: Seq<T>,
    pub timestamp: u32,
}

/// Where a stream stands between two requests of its consumer.
#[derive(Debug, Clone, Copy, PartialEq, Eq, Structural)]
pub enum StreamState {
    /// No frame is buffered and the consumer is not suspended.
    Idle,
    /// The consumer is suspended and registered to be woken.
    AwaitingFrame,
    /// A frame is buffered and not yet handed out.
    FrameReady,
}

/// What a poll of the driver's events came to.
#[derive(Debug)]
pub enum FramePoll<F> {
    /// A frame was delivered during the poll, and here it is.
    Frame(F),
    /// The driver failed. The stream can be asked again.
    Failed(FreenectError),
    /// No frame came: the consumer suspends, registered to be woken by the
    /// next delivery. With `reschedule` it has also been woken at once.
    Suspended { reschedule: bool },
}

/// `std::task::Waker`, the token by which a suspended consumer is resumed.
/// Nothing of its inside is known here: it is stored, copied and woken.
#[verifier::external_type_specification]
#[verifier::external_body]
pub struct ExWaker(core::task::Waker);

/// Calls `Waker::wake_by_ref`, which asks the executor to poll the task of
/// `waker` again. The call returns nothing and nothing is claimed of it.
#[verifier::external_body]
fn wake(waker: &Waker) {
    waker.wake_by_ref()
}

/// Calls `Waker::clone`. Nothing is claimed of the copy: it is only stored,
/// and handed to `wake` later.
#[verifier::external_body]
fn registration(waker: &Waker) -> (copy: Waker) {
    waker.clone()
}

/// What the frame callback did besides storing the frame.
#[derive(Debug, Clone, Copy, PartialEq, Eq, Structural)]
pub struct Delivery {
    /// The consumer was suspended, and has been woken.
    pub wake: bool,
    /// An earlier frame was still buffered and is lost. The driver is to
    /// deliver at most once per poll, so this is a fault to report.
    pub overwritten: bool,
}

/// The state of a stream as contracts see it.
pub struct BridgeModel<T> {
    /// The buffered frame.
    pub pending: Option<FrameView<T>>,
    /// The consumer is registered to be woken.
    pub suspended: bool,
    /// Empty polls since the last delivery or failure, counted up to one
    /// past `BUSY_POLLS`.
    pub counter: nat,
}

impl<T> BridgeModel<T> {
    /// The state of a stream that was just started.
    pub open spec fn fresh() -> Self {
        BridgeModel { pending: None, suspended: false, counter: 0 }
    }

    /// Where a stream in this state stands.
    pub open spec fn state(self) -> StreamState {
        if self.pending.is_some() {
            StreamState::FrameReady
        } else if self.suspended {
            StreamState::AwaitingFrame
        } else {
            StreamState::Idle
        }
    }

    /// A request of the consumer begins: it is no longer suspended.
    pub open spec fn begun(self) -> Self {
        BridgeModel { suspended: false, ..self }
    }

    /// The buffered frame is handed out.
    pub open spec fn taken(self) -> Self {
        BridgeModel { pending: None, ..self }
    }

    /// The frame callback stores a frame.
    pub open spec fn delivered(self, frame: FrameView<T>) -> Self {
        BridgeModel { pending: Some(frame), suspended: false, counter: 0 }
    }

    /// What the frame callback reports when it stores a frame.
    pub open spec fn delivery(self) -> Delivery {
        Delivery { wake: self.suspended, overwritten: self.pending.is_some() }
    }

    /// The driver has processed its events and answered `code`. A failure
    /// ends the count of empty polls and leaves a frame buffered that was
    /// delivered all the same; an empty poll suspends the consumer.
    pub open spec fn polled(self, code: i32) -> Self {
        if refused(code) {
            BridgeModel { suspended: false, counter: 0, ..self }
        } else if self.pending.is_some() {
            BridgeModel { pending: None, suspended: false, ..self }
        } else if self.counter <= BUSY_POLLS {
            BridgeModel { suspended: true, counter: self.counter + 1, ..self }
        } else {
            BridgeModel { suspended: true, ..self }
        }
    }

    /// What the consumer gets after the driver answered `code`.
    pub open spec fn poll_result(self, code: i32) -> FramePoll<FrameView<T>> {
        if refused(code) {
            FramePoll::Failed(FreenectError::EventProcessingError)
        } else if self.pending.is_some() {
            FramePoll::Frame(self.pending.unwrap())
        } else {
            FramePoll::Suspended { reschedule: self.counter <= BUSY_POLLS }
        }
    }

    /// The buffered frame as a sequence of at most one frame.
    pub open spec fn backlog(self) -> Seq<FrameView<T>> {
        match self.pending {
            Some(frame) => seq![frame],
            None => Seq::empty(),
        }
    }
}

/// How a stream moves between its three states: it starts idle; a request
/// ends the suspension; a delivery makes a frame ready; a poll that finds
/// the delivered frame hands it out and leaves the stream idle; an empty
/// poll suspends the consumer; a failed poll leaves the stream idle, or
/// with the frame ready that was delivered all the same.
pub proof fn state_transitions<T>(s: BridgeModel<T>, frame: FrameView<T>, code: i32)
    ensures
        BridgeModel::<T>::fresh().state() == StreamState::Idle,
        s.begun().state() != StreamState::AwaitingFrame,
        s.begun().taken().state() == StreamState::Idle,
        s.delivered(frame).state() == StreamState::FrameReady,
        !refused(code) ==> s.delivered(frame).polled(code).state() == StreamState::Idle,
        !refused(code) && s.pending.is_none() ==> s.polled(code).state()
            == StreamState::AwaitingFrame,
        refused(code) && s.pending.is_none() ==> s.polled(code).state() == StreamState::Idle,
        refused(code) ==> s.delivered(frame).polled(code).state() == StreamState::FrameReady,
{
}

/// What the driver does during one processing of its events, as far as one
/// stream can tell: it delivers a frame or none, and answers `code`.
pub struct Pumping<T> {
    pub delivered: Option<FrameView<T>>,
    pub code: i32,
}

/// A stream's state and what its consumer has received so far.
pub struct Run<T> {
    pub state: BridgeModel<T>,
    pub yielded: Seq<FrameView<T>>,
}

/// The frames that a script of pumpings delivers, in order.
pub open spec fn frames_delivered<T>(script: Seq<Pumping<T>>) -> Seq<FrameView<T>>
    decreases script.len(),
{
    if script.len() == 0 {
        Seq::empty()
    } else {
        match script.last().delivered {
            Some(frame) => frames_delivered(script.drop_last()).push(frame),
            None => frames_delivered(script.drop_last()),
        }
    }
}

/// One request that reaches the driver: the request begins, the driver
/// pumps as `pumping` says, and the poll is read.
pub open spec fn pumped<T>(before: Run<T>, pumping: Pumping<T>) -> Run<T> {
    let begun = before.state.begun();
    let stored = match pumping.delivered {
        Some(frame) => begun.delivered(frame),
        None => begun,
    };
    Run {
        state: stored.polled(pumping.code),
        yielded: match stored.poll_result(pumping.code) {
            FramePoll::Frame(frame) => before.yielded.push(frame),
            _ => before.yielded,
        },
    }
}

/// One request that finds a frame buffered and hands it out; where none is
/// buffered, nothing.
pub open spec fn drained<T>(before: Run<T>) -> Run<T> {
    match before.state.pending {
        Some(frame) => Run {
            state: before.state.begun().taken(),
            yielded: before.yielded.push(frame),
        },
        None => before,
    }
}

/// A consumer asks a stream, in state `start`, for frame after frame, while
/// the driver answers each processing of its events as `script` says, in
/// order. A request that finds a frame buffered takes it and does not reach
/// the driver; every other request uses up one entry of the script.
pub open spec fn run<T>(start: BridgeModel<T>, script: Seq<Pumping<T>>) -> Run<T>
    decreases script.len(),
{
    if script.len() == 0 {
        Run { state: start, yielded: Seq::empty() }
    } else {
        pumped(drained(run(start, script.drop_last())), script.last())
    }
}

/// Frames reach the consumer in the order of their delivery, each once and
/// none left out: after any script of empty, delivering and failing polls,
/// what the consumer has received, followed by the one frame that may still
/// be buffered, is exactly what was buffered at the start followed by what
/// the driver delivered.
pub proof fn frames_arrive_in_order<T>(start: BridgeModel<T>, script: Seq<Pumping<T>>)
    ensures
        run(start, script).yielded + run(start, script).state.backlog() == start.backlog()
            + frames_delivered(script),
    decreases script.len(),
{
    if script.len() == 0 {
        assert(Seq::<FrameView<T>>::empty() + start.backlog() =~= start.backlog()
            + Seq::<FrameView<T>>::empty());
    } else {
        let earlier = script.drop_last();
        frames_arrive_in_order(start, earlier);
        let before = run(start, earlier);
        let mid = drained(before);
        let after = pumped(mid, script.last());
        assert(mid.state.pending.is_none());
        assert(mid.yielded =~= before.yielded + before.state.backlog());
        assert(after.yielded + after.state.backlog() =~= start.backlog() + frames_delivered(script));
    }
}

/// The state after `n` polls in a row that brought no frame and no failure.
pub open spec fn after_empty_polls<T>(start: BridgeModel<T>, n: nat) -> BridgeModel<T>
    decreases n,
{
    if n == 0 {
        start
    } else {
        after_empty_polls(start, (n - 1) as nat).begun().polled(0)
    }
}

/// A stream that has just started, delivered or failed reschedules its
/// consumer on each of the first `BUSY_POLLS + 1` empty polls in a row, and
/// on none after them.
pub proof fn rescheduling_is_bounded<T>(start: BridgeModel<T>, n: nat)
    requires
        start.pending.is_none(),
        start.counter == 0,
    ensures
        after_empty_polls(start, n).pending.is_none(),
        after_empty_polls(start, n).counter == if n <= BUSY_POLLS {
            n
        } else {
            (BUSY_POLLS + 1) as nat
        },
        after_empty_polls(start, n).begun().poll_result(0) == (FramePoll::<
            FrameView<T>,
        >::Suspended { reschedule: n <= BUSY_POLLS }),
    decreases n,
{
    if n > 0 {
        rescheduling_is_bounded(start, (n - 1) as nat);
    }
}

/// The slot that a stream keeps between the frame callback and its
/// consumer, for frames whose samples are of type `T`.
#[derive(Debug)]
pub(crate) struct FrameBridge<'b, T> {
    counter: u32,
    out: Option<(&'b [T], u32)>,
    waker: Option<Waker>,
    samples: usize,
}

impl<'b, T> FrameBridge<'b, T> {
    #[verifier::type_invariant]
    spec fn inv(self) -> bool {
        &&& self.counter <= BUSY_POLLS + 1
        &&& self.out.is_some() ==> self.waker.is_none() && self.out.unwrap().0@.len()
            == self.samples
    }

    /// The state as contracts see it.
    pub(crate) closed spec fn model(&self) -> BridgeModel<T> {
        BridgeModel {
            pending: match self.out {
                Some((data, timestamp)) => Some(FrameView { data: data@, timestamp }),
                None => None,
            },
            suspended: self.waker.is_some(),
            counter: self.counter as nat,
        }
    }

    /// The number of samples in every frame of this stream.
    pub(crate) closed spec fn frame_len(&self) -> nat {
        self.samples as nat
    }

    pub(crate) fn new(samples: usize) -> (bridge: Self)
        ensures
            bridge.model() == BridgeModel::<T>::fresh(),
            bridge.frame_len() == samples,
    {
        FrameBridge { counter: 0, out: None, waker: None, samples }
    }

    pub(crate) fn samples(&self) -> (n: usize)
        ensures
            n == self.frame_len(),
    {
        self.samples
    }

    pub(crate) fn state(&self) -> (s: StreamState)
        ensures
            s == self.model().state(),
    {
        if self.out.is_some() {
            StreamState::FrameReady
        } else if self.waker.is_some() {
            StreamState::AwaitingFrame
        } else {
            StreamState::Idle
        }
    }

    pub(crate) fn begin(&mut self) -> (ready: bool)
        ensures
            final(self).model() == old(self).model().begun(),
            final(self).frame_len() == old(self).frame_len(),
            ready == old(self).model().pending.is_some(),
    {
        proof {
            use_type_invariant(&*self);
        }
        self.waker = None;
        self.out.is_some()
    }

    pub(crate) fn take(&mut self) -> (frame: Option<(&'b [T], u32)>)
        ensures
            final(self).model() == old(self).model().taken(),
            final(self).frame_len() == old(self).frame_len(),
            frame.is_some() == old(self).model().pending.is_some(),
            frame.is_some() ==> old(self).model().pending == Some(
                FrameView { data: frame.unwrap().0@, timestamp: frame.unwrap().1 },
            ),
            frame.is_some() ==> frame.unwrap().0@.len() == old(self).frame_len(),
    {
        proof {
            use_type_invariant(&*self);
        }
        let frame = self.out;
        self.out = None;
        frame
    }

    pub(crate) fn deliver(&mut self, data: &'b [T], timestamp: u32) -> (delivery: Delivery)
        requires
            data@.len() == old(self).frame_len(),
        ensures
            final(self).model() == old(self).model().delivered(FrameView { data: data@, timestamp }),
            final(self).frame_len() == old(self).frame_len(),
            delivery == old(self).model().delivery(),
    {
        proof {
            use_type_invariant(&*self);
        }
        let overwritten = self.out.is_some();
        let woken = match &self.waker {
            Some(waker) => {
                wake(waker);
                true
            },
            None => false,
        };
        self.waker = None;
        self.counter = 0;
        self.out = Some((data, timestamp));
        Delivery { wake: woken, overwritten }
    }

    pub(crate) fn finish(&mut self, code: i32, waker: &Waker) -> (poll: FramePoll<(&'b [T], u32)>)
        ensures
            final(self).model() == old(self).model().polled(code),
            final(self).frame_len() == old(self).frame_len(),
            match poll {
                FramePoll::Frame(frame) => old(self).model().poll_result(code) == FramePoll::Frame(
                    FrameView { data: frame.0@, timestamp: frame.1 },
                ) && frame.0@.len() == old(self).frame_len(),
                FramePoll::Failed(error) => old(self).model().poll_result(code)
                    == FramePoll::<FrameView<T>>::Failed(error),
                FramePoll::Suspended { reschedule } => old(self).model().poll_result(code)
                    == (FramePoll::<FrameView<T>>::Suspended { reschedule }),
            },
    {
        proof {
            use_type_invariant(&*self);
        }
        if is_refused(code) {
            self.waker = None;
            self.counter = 0;
            return FramePoll::Failed(FreenectError::EventProcessingError);
        }
        if let Some(frame) = self.out {
            self.out = None;
            return FramePoll::Frame(frame);
        }
        let reschedule = self.counter <= BUSY_POLLS;
        if reschedule {
            self.counter = self.counter + 1;
            wake(waker);
        }
        self.waker = Some(registration(waker));
        FramePoll::Suspended { reschedule }
    }
}

/// What comes next while a stream is being started.
#[derive(Debug, Clone, Copy, PartialEq, Eq, Structural)]
pub enum StartupStep {
    /// This request is to be made next.
    Make(Request),
    /// Every request was granted: the stream runs.
    Started,
    /// The driver refused the request made last. No further request is
    /// made, and the stream is to be torn down.
    Failed(FreenectError),
}

/// What comes next once the first `made` requests of `plan` were made, in
/// order, and the driver answered the last of them `answer`. Before the first
/// request there is no answer, and `answer` counts for nothing. A refusal
/// ends the sequence with the failure of the request that was refused; the
/// plan is at its end when all its requests were granted.
pub open spec fn startup_after(plan: Seq<Request>, made: nat, answer: i32) -> StartupStep {
    let done = if made > plan.len() {
        plan.len()
    } else {
        made
    };
    if done > 0 && refused(answer) {
        StartupStep::Failed(plan[done - 1].failure)
    } else if done < plan.len() {
        StartupStep::Make(plan[done as int])
    } else {
        StartupStep::Started
    }
}

fn next_startup_step(plan: &[Request; 3], made: usize, answer: i32) -> (step: StartupStep)
    ensures
        step == startup_after(plan@, made as nat, answer),
{
    let done: usize = if made > 3 {
        3
    } else {
        made
    };
    if done > 0 && is_refused(answer) {
        StartupStep::Failed(plan[done - 1].failure)
    } else if done < 3 {
        StartupStep::Make(plan[done])
    } else {
        StartupStep::Started
    }
}

/// The calls of one pumping of the driver's events.
#[derive(Debug, Clone, Copy, PartialEq, Eq, Structural)]
pub struct PumpCalls {
    /// First: point the device's user-data slot at the stream, so that the
    /// frame callback finds it.
    pub attach: NativeCall,
    /// Then: process the pending events. The frame callback runs in here.
    /// The answer to this call is what `poll_next` reads.
    pub process: NativeCall,
    /// Last, whatever the driver answered: clear the slot again.
    pub detach: NativeCall,
}

impl PumpCalls {
    /// The three calls, which are the same for every stream.
    pub open spec fn fixed() -> PumpCalls {
        PumpCalls {
            attach: NativeCall::SetUser { attached: true },
            process: NativeCall::ProcessEvents,
            detach: NativeCall::SetUser { attached: false },
        }
    }
}

fn pump_calls() -> (calls: PumpCalls)
    ensures
        calls == PumpCalls::fixed(),
{
    PumpCalls {
        attach: NativeCall::SetUser { attached: true },
        process: NativeCall::ProcessEvents,
        detach: NativeCall::SetUser { attached: false },
    }
}

/// One frame of the video stream. It borrows the stream, so the next frame
/// cannot be asked for while this one is held.
#[derive(Debug)]
pub struct CameraFrame<'a, 'b, 'c, D: FreenectVideo> {
    _held: &'c VideoStream<'a, 'b, D>,
    pub timestamp: u32,
    pub data: &'c [u8],
}

impl<'a, 'b, 'c, D: FreenectVideo> View for CameraFrame<'a, 'b, 'c, D> {
    type V = FrameView<u8>;

    closed spec fn view(&self) -> FrameView<u8> {
        FrameView { data: self.data@, timestamp: self.timestamp }
    }
}

impl<'a, 'b, 'c, D: FreenectVideo> CameraFrame<'a, 'b, 'c, D> {
    /// The driver's timestamp of the frame.
    pub fn timestamp(&self) -> (t: u32)
        ensures
            t == self@.timestamp,
    {
        self.timestamp
    }

    /// The samples of the frame.
    pub fn data(&self) -> (d: &'c [u8])
        ensures
            d@ == self@.data,
    {
        self.data
    }
}

/// The video stream of a device. The device stays borrowed while it lives.
#[derive(Debug)]
pub struct VideoStream<'a, 'b, D: FreenectVideo> {
    pub(crate) device: &'b FreenectDevice<'a, D>,
    pub(crate) mode: FreenectVideoMode,
    pub(crate) bridge: FrameBridge<'b, u8>,
}

impl<'a, 'b, D: FreenectVideo> VideoStream<'a, 'b, D> {
    /// The state as contracts see it.
    pub closed spec fn model(&self) -> BridgeModel<u8> {
        self.bridge.model()
    }

    /// The mode the stream was started with.
    pub closed spec fn mode_of(&self) -> FreenectVideoMode {
        self.mode
    }

    /// The device the stream runs on.
    pub closed spec fn device_of(&self) -> FreenectDevice<'a, D> {
        *self.device
    }

    /// The number of samples in every frame: one per byte of the mode.
    pub closed spec fn frame_len(&self) -> nat {
        self.bridge.frame_len()
    }

    pub(crate) fn new(device: &'b mut FreenectDevice<'a, D>, video: &FreenectVideoMode) -> (r: Result<
        Self,
        FreenectError,
    >)
        ensures
            video.format is Depth ==> r == Err::<Self, FreenectError>(FreenectError::BadVideoFormat),
            video.format is Video ==> r.is_ok() && r.unwrap().model() == BridgeModel::<u8>::fresh()
                && r.unwrap().mode_of() == *video && r.unwrap().device_of() == *old(device)
                && r.unwrap().frame_len() == video.bytes,
            *final(device) == *old(device),
    {
        if let FreenectFormat::Depth(_) = video.format {
            return Err(FreenectError::BadVideoFormat);
        }
        Ok(VideoStream { device, mode: *video, bridge: FrameBridge::new(video.bytes as usize) })
    }

    /// The device the stream runs on.
    pub fn dev_ref(&'b self) -> (device: &'b FreenectDevice<'a, D>)
        ensures
            *device == self.device_of(),
    {
        self.device
    }

    /// The mode the stream was started with.
    pub fn mode(&self) -> (mode: FreenectVideoMode)
        ensures
            mode == self.mode_of(),
    {
        self.mode
    }

    /// The number of samples that the frame callback finds at the address
    /// the driver hands it.
    pub fn frame_samples(&self) -> (n: usize)
        ensures
            n == self.frame_len(),
    {
        self.bridge.samples()
    }

    /// The requests that start the stream, in the order in which they are
    /// made: select the mode, arm the frame callback, start streaming.
    pub open spec fn startup_plan(&self) -> Seq<Request> {
        seq![
            Request {
                call: NativeCall::SetVideoMode { mode: self.mode_of().raw() },
                failure: FreenectError::VideoStreamError,
            },
            Request {
                call: NativeCall::SetVideoCallback { armed: true },
                failure: FreenectError::VideoStreamError,
            },
            Request { call: NativeCall::StartVideo, failure: FreenectError::VideoStreamError },
        ]
    }

    /// The requests that start the stream, in the order in which they are
    /// made. `startup_step` leads through them.
    pub fn startup(&self) -> (requests: [Request; 3])
        ensures
            requests@ == self.startup_plan(),
    {
        [
            Request {
                call: NativeCall::SetVideoMode { mode: self.mode.to_raw() },
                failure: FreenectError::VideoStreamError,
            },
            Request {
                call: NativeCall::SetVideoCallback { armed: true },
                failure: FreenectError::VideoStreamError,
            },
            Request { call: NativeCall::StartVideo, failure: FreenectError::VideoStreamError },
        ]
    }

    /// Leads through the start of the stream: what comes next once `made`
    /// of the startup requests were made and the driver answered the last
    /// of them `answer`. The first request comes at `made` 0, whatever
    /// `answer` is. A refused request ends the start with
    /// `VideoStreamError`: the later requests are not made, and the stream
    /// is to be torn down. After three granted requests the stream runs.
    pub fn startup_step(&self, made: usize, answer: i32) -> (step: StartupStep)
        ensures
            step == startup_after(self.startup_plan(), made as nat, answer),
            step is Failed ==> step == StartupStep::Failed(FreenectError::VideoStreamError),
    {
        let plan = self.startup();
        next_startup_step(&plan, made, answer)
    }

    /// Ends the stream and releases the device. The calls to make are, in
    /// this order: stop streaming, disarm the frame callback, clear the
    /// user-data slot. They are the same whatever state the stream is in,
    /// and a frame that is still buffered is given up.
    pub fn teardown(self) -> (calls: [NativeCall; 3])
        ensures
            calls@ == seq![
                NativeCall::StopVideo,
                NativeCall::SetVideoCallback { armed: false },
                NativeCall::SetUser { attached: false },
            ],
    {
        [
            NativeCall::StopVideo,
            NativeCall::SetVideoCallback { armed: false },
            NativeCall::SetUser { attached: false },
        ]
    }

    /// Where the stream stands.
    pub fn state(&self) -> (s: StreamState)
        ensures
            s == self.model().state(),
    {
        self.bridge.state()
    }

    /// The consumer asks for the next frame. Its earlier registration is
    /// dropped. The answer is whether a frame is buffered, for `take_frame`
    /// to hand out; where none is, the driver is to be pumped.
    pub fn begin_poll(&mut self) -> (ready: bool)
        ensures
            final(self).model() == old(self).model().begun(),
            final(self).mode_of() == old(self).mode_of(),
            final(self).device_of() == old(self).device_of(),
            final(self).frame_len() == old(self).frame_len(),
            ready == old(self).model().pending.is_some(),
    {
        self.bridge.begin()
    }

    /// Hands out the buffered frame, if there is one.
    pub fn take_frame<'c>(&'c mut self) -> (frame: Option<CameraFrame<'a, 'b, 'c, D>>)
        ensures
            final(self).model() == old(self).model().taken(),
            final(self).mode_of() == old(self).mode_of(),
            final(self).device_of() == old(self).device_of(),
            final(self).frame_len() == old(self).frame_len(),
            match frame {
                Some(f) => old(self).model().pending == Some(f@) && f@.data.len() == old(
                    self,
                ).frame_len(),
                None => old(self).model().pending.is_none(),
            },
    {
        match self.bridge.take() {
            Some((data, timestamp)) => Some(CameraFrame { _held: self, timestamp, data }),
            None => None,
        }
    }

    /// The calls of one pumping, for a request that found no frame buffered.
    pub fn pump(&self) -> (calls: PumpCalls)
        ensures
            calls == PumpCalls::fixed(),
    {
        pump_calls()
    }

    /// The frame callback: stores the frame that the driver delivers, and
    /// wakes the consumer if it is suspended.
    pub fn deliver(&mut self, data: &'b [u8], timestamp: u32) -> (delivery: Delivery)
        requires
            data@.len() == old(self).frame_len(),
        ensures
            final(self).model() == old(self).model().delivered(FrameView { data: data@, timestamp }),
            final(self).mode_of() == old(self).mode_of(),
            final(self).device_of() == old(self).device_of(),
            final(self).frame_len() == old(self).frame_len(),
            delivery == old(self).model().delivery(),
    {
        self.bridge.deliver(data, timestamp)
    }

    /// Reads the driver's answer to the processing of its events, after a
    /// pumping that found no frame buffered at its start. Where no frame
    /// came, `waker` is registered for the next delivery, and woken at once
    /// while the empty polls in a row are few.
    pub fn poll_next<'c>(&'c mut self, code: i32, waker: &Waker) -> (poll: FramePoll<
        CameraFrame<'a, 'b, 'c, D>,
    >)
        ensures
            final(self).model() == old(self).model().polled(code),
            final(self).mode_of() == old(self).mode_of(),
            final(self).device_of() == old(self).device_of(),
            final(self).frame_len() == old(self).frame_len(),
            match poll {
                FramePoll::Frame(f) => old(self).model().poll_result(code) == FramePoll::Frame(f@)
                    && f@.data.len() == old(self).frame_len(),
                FramePoll::Failed(error) => old(self).model().poll_result(code)
                    == FramePoll::<FrameView<u8>>::Failed(error),
                FramePoll::Suspended { reschedule } => old(self).model().poll_result(code)
                    == (FramePoll::<FrameView<u8>>::Suspended { reschedule }),
            },
    {
        match self.bridge.finish(code, waker) {
            FramePoll::Frame((data, timestamp)) => FramePoll::Frame(
                CameraFrame { _held: self, timestamp, data },
            ),
            FramePoll::Failed(error) => FramePoll::Failed(error),
            FramePoll::Suspended { reschedule } => FramePoll::Suspended { reschedule },
        }
    }
}

/// One frame of the depth stream. It borrows the stream, so the next frame
/// cannot be asked for while this one is held.
#[derive(Debug)]
pub struct DepthFrame<'a, 'b, 'c, D: FreenectVideo> {
    _held: &'c DepthStream<'a, 'b, D>,
    pub timestamp: u32,
    pub data: &'c [u16],
}

impl<'a, 'b, 'c, D: FreenectVideo> View for DepthFrame<'a, 'b, 'c, D> {
    type V = FrameView<u16>;

    closed spec fn view(&self) -> FrameView<u16> {
        FrameView { data: self.data@, timestamp: self.timestamp }
    }
}

impl<'a, 'b, 'c, D: FreenectVideo> DepthFrame<'a, 'b, 'c, D> {
    /// The driver's timestamp of the frame.
    pub fn timestamp(&self) -> (t: u32)
        ensures
            t == self@.timestamp,
    {
        self.timestamp
    }

    /// The samples of the frame.
    pub fn data(&self) -> (d: &'c [u16])
        ensures
            d@ == self@.data,
    {
        self.data
    }
}

/// The depth stream of a device. The device stays borrowed while it lives.
#[derive(Debug)]
pub struct DepthStream<'a, 'b, D: FreenectVideo> {
    pub(crate) device: &'b FreenectDevice<'a, D>,
    pub(crate) mode: FreenectVideoMode,
    pub(crate) bridge: FrameBridge<'b, u16>,
}

impl<'a, 'b, D: FreenectVideo> DepthStream<'a, 'b, D> {
    /// The state as contracts see it.
    pub closed spec fn model(&self) -> BridgeModel<u16> {
        self.bridge.model()
    }

    /// The mode the stream was started with.
    pub closed spec fn mode_of(&self) -> FreenectVideoMode {
        self.mode
    }

    /// The device the stream runs on.
    pub closed spec fn device_of(&self) -> FreenectDevice<'a, D> {
        *self.device
    }

    /// The number of samples in every frame: one per two bytes of the mode.
    pub closed spec fn frame_len(&self) -> nat {
        self.bridge.frame_len()
    }

    pub(crate) fn new(device: &'b mut FreenectDevice<'a, D>, video: &FreenectVideoMode) -> (r: Result<
        Self,
        FreenectError,
    >)
        ensures
            video.format is Video ==> r == Err::<Self, FreenectError>(FreenectError::BadVideoFormat),
            video.format is Depth ==> r.is_ok() && r.unwrap().model() == BridgeModel::<u16>::fresh()
                && r.unwrap().mode_of() == *video && r.unwrap().device_of() == *old(device)
                && r.unwrap().frame_len() == video.bytes / 2,
            *final(device) == *old(device),
    {
        if let FreenectFormat::Video(_) = video.format {
            return Err(FreenectError::BadVideoFormat);
        }
        Ok(DepthStream { device, mode: *video, bridge: FrameBridge::new((video.bytes / 2) as usize) })
    }

    /// The device the stream runs on.
    pub fn dev_ref(&'b self) -> (device: &'b FreenectDevice<'a, D>)
        ensures
            *device == self.device_of(),
    {
        self.device
    }

    /// The mode the stream was started with.
    pub fn mode(&self) -> (mode: FreenectVideoMode)
        ensures
            mode == self.mode_of(),
    {
        self.mode
    }

    /// The number of samples that the frame callback finds at the address
    /// the driver hands it.
    pub fn frame_samples(&self) -> (n: usize)
        ensures
            n == self.frame_len(),
    {
        self.bridge.samples()
    }

    /// The requests that start the stream, in the order in which they are
    /// made: select the mode, arm the frame callback, start streaming.
    pub open spec fn startup_plan(&self) -> Seq<Request> {
        seq![
            Request {
                call: NativeCall::SetDepthMode { mode: self.mode_of().raw() },
                failure: FreenectError::VideoStreamError,
            },
            Request {
                call: NativeCall::SetDepthCallback { armed: true },
                failure: FreenectError::VideoStreamError,
            },
            Request { call: NativeCall::StartDepth, failure: FreenectError::VideoStreamError },
        ]
    }

    /// The requests that start the stream, in the order in which they are
    /// made. `startup_step` leads through them.
    pub fn startup(&self) -> (requests: [Request; 3])
        ensures
            requests@ == self.startup_plan(),
    {
        [
            Request {
                call: NativeCall::SetDepthMode { mode: self.mode.to_raw() },
                failure: FreenectError::VideoStreamError,
            },
            Request {
                call: NativeCall::SetDepthCallback { armed: true },
                failure: FreenectError::VideoStreamError,
            },
            Request { call: NativeCall::StartDepth, failure: FreenectError::VideoStreamError },
        ]
    }

    /// Leads through the start of the stream: what comes next once `made`
    /// of the startup requests were made and the driver answered the last
    /// of them `answer`. The first request comes at `made` 0, whatever
    /// `answer` is. A refused request ends the start with
    /// `VideoStreamError`: the later requests are not made, and the stream
    /// is to be torn down. After three granted requests the stream runs.
    pub fn startup_step(&self, made: usize, answer: i32) -> (step: StartupStep)
        ensures
            step == startup_after(self.startup_plan(), made as nat, answer),
            step is Failed ==> step == StartupStep::Failed(FreenectError::VideoStreamError),
    {
        let plan = self.startup();
        next_startup_step(&plan, made, answer)
    }

    /// Ends the stream and releases the device. The calls to make are, in
    /// this order: stop streaming, disarm the frame callback, clear the
    /// user-data slot. They are the same whatever state the stream is in,
    /// and a frame that is still buffered is given up.
    pub fn teardown(self) -> (calls: [NativeCall; 3])
        ensures
            calls@ == seq![
                NativeCall::StopDepth,
                NativeCall::SetDepthCallback { armed: false },
                NativeCall::SetUser { attached: false },
            ],
    {
        [
            NativeCall::StopDepth,
            NativeCall::SetDepthCallback { armed: false },
            NativeCall::SetUser { attached: false },
        ]
    }

    /// Where the stream stands.
    pub fn state(&self) -> (s: StreamState)
        ensures
            s == self.model().state(),
    {
        self.bridge.state()
    }

    /// The consumer asks for the next frame. Its earlier registration is
    /// dropped. The answer is whether a frame is buffered, for `take_frame`
    /// to hand out; where none is, the driver is to be pumped.
    pub fn begin_poll(&mut self) -> (ready: bool)
        ensures
            final(self).model() == old(self).model().begun(),
            final(self).mode_of() == old(self).mode_of(),
            final(self).device_of() == old(self).device_of(),
            final(self).frame_len() == old(self).frame_len(),
            ready == old(self).model().pending.is_some(),
    {
        self.bridge.begin()
    }

    /// Hands out the buffered frame, if there is one.
    pub fn take_frame<'c>(&'c mut self) -> (frame: Option<DepthFrame<'a, 'b, 'c, D>>)
        ensures
            final(self).model() == old(self).model().taken(),
            final(self).mode_of() == old(self).mode_of(),
            final(self).device_of() == old(self).device_of(),
            final(self).frame_len() == old(self).frame_len(),
            match frame {
                Some(f) => old(self).model().pending == Some(f@) && f@.data.len() == old(
                    self,
                ).frame_len(),
                None => old(self).model().pending.is_none(),
            },
    {
        match self.bridge.take() {
            Some((data, timestamp)) => Some(DepthFrame { _held: self, timestamp, data }),
            None => None,
        }
    }

    /// The calls of one pumping, for a request that found no frame buffered.
    pub fn pump(&self) -> (calls: PumpCalls)
        ensures
            calls == PumpCalls::fixed(),
    {
        pump_calls()
    }

    /// The frame callback: stores the frame that the driver delivers, and
    /// wakes the consumer if it is suspended.
    pub fn deliver(&mut self, data: &'b [u16], timestamp: u32) -> (delivery: Delivery)
        requires
            data@.len() == old(self).frame_len(),
        ensures
            final(self).model() == old(self).model().delivered(FrameView { data: data@, timestamp }),
            final(self).mode_of() == old(self).mode_of(),
            final(self).device_of() == old(self).device_of(),
            final(self).frame_len() == old(self).frame_len(),
            delivery == old(self).model().delivery(),
    {
        self.bridge.deliver(data, timestamp)
    }

    /// Reads the driver's answer to the processing of its events, after a
    /// pumping that found no frame buffered at its start. Where no frame
    /// came, `waker` is registered for the next delivery, and woken at once
    /// while the empty polls in a row are few.
    pub fn poll_next<'c>(&'c mut self, code: i32, waker: &Waker) -> (poll: FramePoll<
        DepthFrame<'a, 'b, 'c, D>,
    >)
        ensures
            final(self).model() == old(self).model().polled(code),
            final(self).mode_of() == old(self).mode_of(),
            final(self).device_of() == old(self).device_of(),
            final(self).frame_len() == old(self).frame_len(),
            match poll {
                FramePoll::Frame(f) => old(self).model().poll_result(code) == FramePoll::Frame(f@)
                    && f@.data.len() == old(self).frame_len(),
                FramePoll::Failed(error) => old(self).model().poll_result(code)
                    == FramePoll::<FrameView<u16>>::Failed(error),
                FramePoll::Suspended { reschedule } => old(self).model().poll_result(code)
                    == (FramePoll::<FrameView<u16>>::Suspended { reschedule }),
            },
    {
        match self.bridge.finish(code, waker) {
            FramePoll::Frame((data, timestamp)) => FramePoll::Frame(
                DepthFrame { _held: self, timestamp, data },
            ),
            FramePoll::Failed(error) => FramePoll::Failed(error),
            FramePoll::Suspended { reschedule } => FramePoll::Suspended { reschedule },
        }
    }
}

} // verus!
