//! Capability tags and the context they are attached to.

use vstd::prelude::*;
use core::marker::PhantomData;
use crate::FreenectError;
use crate::device::FreenectDevice;
use crate::driver::{refused, is_refused, NativeCall, DEVICE_CAMERA, DEVICE_MOTOR};
use vstd::std_specs::convert::TryFromSpecImpl;

verus! {

/// What a capability tag stands for, as a value.
#[derive(Debug, Clone, Copy, PartialEq, Eq, Structural)]
pub enum Capability {
    Uninitialized,
    VideoOnly,
    VideoAndMotors,
    MotorsOnly,
    AllSubsystems,
}

impl Capability {
    /// The subdevice mask that configuring to this capability sends to the
    /// driver. `None` where nothing is sent: a fresh context has not chosen
    /// yet, and the driver's default already is every subdevice.
    pub open spec fn selection(self) -> Option<u32> {
        match self {
            Capability::Uninitialized => None,
            Capability::VideoOnly => Some(DEVICE_CAMERA),
            Capability::VideoAndMotors => Some(DEVICE_CAMERA | DEVICE_MOTOR),
            Capability::MotorsOnly => Some(DEVICE_MOTOR),
            Capability::AllSubsystems => None,
        }
    }

    /// The call that configuring to this capability makes, if it makes one.
    pub open spec fn configure_call(self) -> Option<NativeCall> {
        match self.selection() {
            Some(flags) => Some(NativeCall::SelectSubdevices { flags }),
            None => None,
        }
    }

    /// Devices can be opened once the context has been configured.
    pub open spec fn is_openable(self) -> bool {
        self != Capability::Uninitialized
    }

    /// The camera is among the subdevices of a configured context.
    pub open spec fn has_video(self) -> bool {
        self.is_openable() && match self.selection() {
            Some(flags) => flags & DEVICE_CAMERA != 0,
            None => true,
        }
    }

    /// The motor is among the subdevices of a configured context.
    pub open spec fn has_motors(self) -> bool {
        self.is_openable() && match self.selection() {
            Some(flags) => flags & DEVICE_MOTOR != 0,
            None => true,
        }
    }

    /// The subdevice mask that configuring to this capability sends.
    pub fn subdevices(self) -> (flags: Option<u32>)
        ensures
            flags == self.selection(),
    {
        match self {
            Capability::Uninitialized => None,
            Capability::VideoOnly => Some(DEVICE_CAMERA),
            Capability::VideoAndMotors => Some(DEVICE_CAMERA | DEVICE_MOTOR),
            Capability::MotorsOnly => Some(DEVICE_MOTOR),
            Capability::AllSubsystems => None,
        }
    }

    /// Whether devices can be opened.
    pub fn grants_open(self) -> (r: bool)
        ensures
            r == self.is_openable(),
    {
        !matches!(self, Capability::Uninitialized)
    }

    /// Whether the camera can be used.
    pub fn grants_video(self) -> (r: bool)
        ensures
            r == self.has_video(),
    {
        self.grants_open() && match self.subdevices() {
            Some(flags) => flags & DEVICE_CAMERA != 0,
            None => true,
        }
    }

    /// Whether the motor and the LED can be used.
    pub fn grants_motors(self) -> (r: bool)
        ensures
            r == self.has_motors(),
    {
        self.grants_open() && match self.subdevices() {
            Some(flags) => flags & DEVICE_MOTOR != 0,
            None => true,
        }
    }
}

/// A capability tag: a type without fields that marks what a context, and
/// the devices opened from it, may do.
pub trait FreenectDeviceMode {
    /// The capability this tag stands for.
    spec fn capability() -> Capability;

    /// The capability this tag stands for.
    fn tag() -> (c: Capability)
        ensures
            c == Self::capability(),
    ;
}

/// Tag of a context that has not been configured.
#[derive(Debug, Clone, Copy)]
pub struct FreenectInitialized;

impl FreenectDeviceMode for FreenectInitialized {
    open spec fn capability() -> Capability {
        Capability::Uninitialized
    }

    fn tag() -> (c: Capability) {
        Capability::Uninitialized
    }
}

/// Tags of configured contexts: only these can open devices.
pub trait FreenectDeviceReady: FreenectDeviceMode {
    /// Each implementor shows that its capability is a configured one.
    proof fn configured()
        ensures
            Self::capability().is_openable(),
    ;
}

/// Tag: camera only.
#[derive(Debug, Clone, Copy)]
pub struct FreenectReadyVideo;

impl FreenectDeviceMode for FreenectReadyVideo {
    open spec fn capability() -> Capability {
        Capability::VideoOnly
    }

    fn tag() -> (c: Capability) {
        Capability::VideoOnly
    }
}

impl FreenectDeviceReady for FreenectReadyVideo {
    proof fn configured() {
    }
}

/// Tag: camera and motor.
#[derive(Debug, Clone, Copy)]
pub struct FreenectReadyVideoMotors;

impl FreenectDeviceMode for FreenectReadyVideoMotors {
    open spec fn capability() -> Capability {
        Capability::VideoAndMotors
    }

    fn tag() -> (c: Capability) {
        Capability::VideoAndMotors
    }
}

impl FreenectDeviceReady for FreenectReadyVideoMotors {
    proof fn configured() {
    }
}

/// Tag: motor only.
#[derive(Debug, Clone, Copy)]
pub struct FreenectReadyMotors;

impl FreenectDeviceMode for FreenectReadyMotors {
    open spec fn capability() -> Capability {
        Capability::MotorsOnly
    }

    fn tag() -> (c: Capability) {
        Capability::MotorsOnly
    }
}

impl FreenectDeviceReady for FreenectReadyMotors {
    proof fn configured() {
    }
}

/// Tag: every subdevice, as the driver selects by default.
#[derive(Debug, Clone, Copy)]
pub struct FreenectReadyAll;

impl FreenectDeviceMode for FreenectReadyAll {
    open spec fn capability() -> Capability {
        Capability::AllSubsystems
    }

    fn tag() -> (c: Capability) {
        Capability::AllSubsystems
    }
}

impl FreenectDeviceReady for FreenectReadyAll {
    proof fn configured() {
    }
}

/// One driver context, tagged with what it was configured for.
///
/// The context is known by the address of its native handle. Configuring
/// moves the handle into the newly tagged value, so a handle is never held
/// by two contexts, and `shutdown` consumes the last one.
#[derive(Debug)]
pub struct FreenectContext<M: FreenectDeviceMode> {
    pub(crate) inner: usize,
    pub(crate) marker: PhantomData<M>,
}

impl FreenectContext<FreenectInitialized> {
    /// Reads the driver's answer to its initialisation: on success the
    /// fresh context, which owns the handle the driver handed out.
    pub fn new(code: i32, handle: usize) -> (r: Result<Self, FreenectError>)
        ensures
            refused(code) ==> r == Err::<Self, FreenectError>(FreenectError::ContextCreationError),
            !refused(code) ==> r.is_ok() && r.unwrap().handle() == handle,
    {
        if is_refused(code) {
            return Err(FreenectError::ContextCreationError);
        }
        Ok(Self { inner: handle, marker: PhantomData })
    }

    /// Configures the context for the capability of the tag `T`: the handle
    /// moves into the newly tagged context, and the call that selects the
    /// tag's subdevices is to be made, if the tag has one.
    pub fn configure<T: FreenectDeviceReady>(self) -> (r: (FreenectContext<T>, Option<NativeCall>))
        ensures
            r.0.handle() == self.handle(),
            r.1 == T::capability().configure_call(),
    {
        let call = match T::tag().subdevices() {
            Some(flags) => Some(NativeCall::SelectSubdevices { flags }),
            None => None,
        };
        (FreenectContext { inner: self.into_handle(), marker: PhantomData }, call)
    }

    /// Configures the context for the camera alone.
    pub fn setup_video(self) -> (r: (FreenectContext<FreenectReadyVideo>, Option<NativeCall>))
        ensures
            r.0.handle() == self.handle(),
            r.1 == Some(NativeCall::SelectSubdevices { flags: DEVICE_CAMERA }),
    {
        self.configure::<FreenectReadyVideo>()
    }

    /// Configures the context for the camera and the motor.
    pub fn setup_video_motors(self) -> (r: (
        FreenectContext<FreenectReadyVideoMotors>,
        Option<NativeCall>,
    ))
        ensures
            r.0.handle() == self.handle(),
            r.1 == Some(NativeCall::SelectSubdevices { flags: DEVICE_CAMERA | DEVICE_MOTOR }),
    {
        self.configure::<FreenectReadyVideoMotors>()
    }

    /// Configures the context for the motor alone.
    pub fn setup_motors(self) -> (r: (FreenectContext<FreenectReadyMotors>, Option<NativeCall>))
        ensures
            r.0.handle() == self.handle(),
            r.1 == Some(NativeCall::SelectSubdevices { flags: DEVICE_MOTOR }),
    {
        self.configure::<FreenectReadyMotors>()
    }

    /// Configures the context for every subdevice. The driver selects them
    /// all by default, so no call is made.
    pub fn setup_all(self) -> (r: (FreenectContext<FreenectReadyAll>, Option<NativeCall>))
        ensures
            r.0.handle() == self.handle(),
            r.1 == None::<NativeCall>,
    {
        self.configure::<FreenectReadyAll>()
    }
}

impl<M: FreenectDeviceMode> FreenectContext<M> {
    /// The address of the native handle.
    pub closed spec fn handle(&self) -> usize {
        self.inner
    }

    /// The address of the native handle.
    pub fn inner(&self) -> (h: usize)
        ensures
            h == self.handle(),
    {
        self.inner
    }

    /// What this context may do.
    pub fn capability(&self) -> (c: Capability)
        ensures
            c == M::capability(),
    {
        M::tag()
    }

    /// Reads the driver's answer to a count of the attached devices.
    pub fn list_devices(&self, code: i32) -> (r: Result<u32, FreenectError>)
        ensures
            refused(code) ==> r == Err::<u32, FreenectError>(FreenectError::DeviceListError),
            !refused(code) ==> r == Ok::<u32, FreenectError>(code as u32),
    {
        if is_refused(code) {
            return Err(FreenectError::DeviceListError);
        }
        Ok(code as u32)
    }

    /// The call that sets the verbosity of the driver's log.
    pub fn set_log_level(&self, level: FreenectLogLevel) -> (call: NativeCall)
        ensures
            call == (NativeCall::SetLogLevel { level: level.raw() }),
    {
        NativeCall::SetLogLevel { level: level.to_raw() }
    }

    /// Registers `callback` as the sink of the driver's log, or removes the
    /// registered one. The last registration wins: whatever `sink` held is
    /// dropped. The call returned tells the driver where its log goes.
    pub fn set_log_callback<C>(&self, sink: &mut LogSink<C>, callback: Option<C>) -> (call:
        NativeCall)
        ensures
            final(sink).installed() == callback,
            call == (NativeCall::SetLogCallback { installed: callback.is_some() }),
    {
        let installed = callback.is_some();
        sink.callback = callback;
        NativeCall::SetLogCallback { installed }
    }

    fn into_handle(self) -> (h: usize)
        ensures
            h == self.handle(),
    {
        self.inner
    }

    /// Ends the context: hands back its handle and the call that shuts it
    /// down. Devices borrow their context, so none is left when this runs.
    pub fn shutdown(self) -> (r: (usize, NativeCall))
        ensures
            r.0 == self.handle(),
            r.1 == NativeCall::Shutdown,
    {
        (self.into_handle(), NativeCall::Shutdown)
    }
}

/// The one place where the sink of the driver's log is registered. The
/// driver has a single log for the whole process, so the shell keeps one
/// value of this type, behind a lock.
pub struct LogSink<C> {
    pub(crate) callback: Option<C>,
}

impl<C> LogSink<C> {
    /// The callback that is registered, if one is.
    pub closed spec fn installed(&self) -> Option<C> {
        self.callback
    }

    /// A sink with nothing registered.
    pub fn new() -> (sink: Self)
        ensures
            sink.installed() == None::<C>,
    {
        LogSink { callback: None }
    }

    /// The callback that a message of the driver goes to, if one is
    /// registered.
    pub fn callback(&self) -> (c: Option<&C>)
        ensures
            c.is_some() == self.installed().is_some(),
            c.is_some() ==> *c.unwrap() == self.installed().unwrap(),
    {
        self.callback.as_ref()
    }
}

/// Verbosity of the driver's log, from the most severe level down.
#[derive(Debug, Clone, Copy, PartialEq, Eq, Structural)]
pub enum FreenectLogLevel {
    Fatal,
    Error,
    Warning,
    Notice,
    Info,
    Debug,
    Spew,
    Flood,
}

impl FreenectLogLevel {
    /// The driver's number for this level.
    pub open spec fn raw(self) -> u32 {
        match self {
            FreenectLogLevel::Fatal => 0,
            FreenectLogLevel::Error => 1,
            FreenectLogLevel::Warning => 2,
            FreenectLogLevel::Notice => 3,
            FreenectLogLevel::Info => 4,
            FreenectLogLevel::Debug => 5,
            FreenectLogLevel::Spew => 6,
            FreenectLogLevel::Flood => 7,
        }
    }

    /// The level that the driver numbers `value`, if it is the number of one.
    pub open spec fn of_raw(value: u32) -> Option<FreenectLogLevel> {
        if value == 0 {
            Some(FreenectLogLevel::Fatal)
        } else if value == 1 {
            Some(FreenectLogLevel::Error)
        } else if value == 2 {
            Some(FreenectLogLevel::Warning)
        } else if value == 3 {
            Some(FreenectLogLevel::Notice)
        } else if value == 4 {
            Some(FreenectLogLevel::Info)
        } else if value == 5 {
            Some(FreenectLogLevel::Debug)
        } else if value == 6 {
            Some(FreenectLogLevel::Spew)
        } else if value == 7 {
            Some(FreenectLogLevel::Flood)
        } else {
            None
        }
    }

    /// The driver's number for this level.
    pub fn to_raw(self) -> (value: u32)
        ensures
            value == self.raw(),
            FreenectLogLevel::of_raw(value) == Some(self),
    {
        match self {
            FreenectLogLevel::Fatal => 0,
            FreenectLogLevel::Error => 1,
            FreenectLogLevel::Warning => 2,
            FreenectLogLevel::Notice => 3,
            FreenectLogLevel::Info => 4,
            FreenectLogLevel::Debug => 5,
            FreenectLogLevel::Spew => 6,
            FreenectLogLevel::Flood => 7,
        }
    }

    /// The level of a message that the driver logged under the number
    /// `value`: an unknown number counts as the default level.
    pub fn of_message(value: u32) -> (level: FreenectLogLevel)
        ensures
            level == match FreenectLogLevel::of_raw(value) {
                Some(known) => known,
                None => FreenectLogLevel::Fatal,
            },
    {
        match FreenectLogLevel::try_from(value) {
            Ok(known) => known,
            Err(_) => FreenectLogLevel::default(),
        }
    }
}

impl Default for FreenectLogLevel {
    fn default() -> (level: Self)
        ensures
            level == FreenectLogLevel::Fatal,
    {
        FreenectLogLevel::Fatal
    }
}

impl TryFrom<u32> for FreenectLogLevel {
    type Error = ();

    fn try_from(value: u32) -> (r: Result<Self, ()>) {
        Ok(
            match value {
                0 => FreenectLogLevel::Fatal,
                1 => FreenectLogLevel::Error,
                2 => FreenectLogLevel::Warning,
                3 => FreenectLogLevel::Notice,
                4 => FreenectLogLevel::Info,
                5 => FreenectLogLevel::Debug,
                6 => FreenectLogLevel::Spew,
                7 => FreenectLogLevel::Flood,
                _ => return Err(()),
            },
        )
    }
}

impl TryFromSpecImpl<u32> for FreenectLogLevel {
    open spec fn obeys_try_from_spec() -> bool {
        true
    }

    open spec fn try_from_spec(value: u32) -> Result<Self, ()> {
        match FreenectLogLevel::of_raw(value) {
            Some(level) => Ok(level),
            None => Err(()),
        }
    }
}

impl<M: FreenectDeviceReady> FreenectContext<M> {
    /// Decides, from the driver's count of attached devices, whether the
    /// device at `index` may be opened, and with which call.
    pub fn open_device_request(&self, index: u32, count: i32) -> (r: Result<NativeCall, FreenectError>)
        ensures
            refused(count) ==> r == Err::<NativeCall, FreenectError>(FreenectError::DeviceListError),
            !refused(count) && index >= count ==> r == Err::<NativeCall, FreenectError>(
                FreenectError::DeviceNotFound(index),
            ),
            !refused(count) && index < count ==> r == Ok::<NativeCall, FreenectError>(
                NativeCall::OpenDevice { index: index as i32 },
            ),
    {
        let devices: u32 = self.list_devices(count)?;
        if index >= devices {
            return Err(FreenectError::DeviceNotFound(index));
        }
        Ok(NativeCall::OpenDevice { index: index as i32 })
    }

    /// Reads the driver's answer to the open call: on success the device,
    /// which keeps this context borrowed for as long as it lives.
    pub fn open_device<'a>(&'a mut self, index: u32, code: i32, handle: usize) -> (r: Result<
        FreenectDevice<'a, M>,
        FreenectError,
    >)
        ensures
            refused(code) ==> r == Err::<FreenectDevice<'a, M>, FreenectError>(
                FreenectError::OpenDeviceError(index),
            ),
            !refused(code) ==> r.is_ok() && r.unwrap().handle() == handle && r.unwrap().owner()
                == *old(self),
            *final(self) == *old(self),
    {
        if is_refused(code) {
            return Err(FreenectError::OpenDeviceError(index));
        }
        Ok(FreenectDevice::opened(self, handle))
    }
}

} // verus!
