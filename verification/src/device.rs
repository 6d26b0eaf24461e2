//! An opened device.

use vstd::prelude::*;
use core::marker::PhantomData;
use crate::context::{FreenectContext, FreenectDeviceReady};
use crate::driver::NativeCall;

verus! {

/// One opened device, tagged like the context that opened it.
#[derive(Debug)]
pub struct FreenectDevice<'a, D: FreenectDeviceReady> {
    pub(crate) context: &'a FreenectContext<D>,
    pub(crate) inner: usize,
    pub(crate) marker: PhantomData<D>,
}

impl<'a, D: FreenectDeviceReady> FreenectDevice<'a, D> {
    /// The address of the native handle.
    pub closed spec fn handle(&self) -> usize {
        self.inner
    }

    /// The address of the native handle.
    pub fn inner(&self) -> (h: usize)
        ensures
            h == self.handle(),
    {
        self.inner
    }

    /// The context that opened this device.
    pub closed spec fn owner(&self) -> FreenectContext<D> {
        *self.context
    }

    /// The context that opened this device.
    pub fn context(&self) -> (c: &FreenectContext<D>)
        ensures
            *c == self.owner(),
    {
        self.context
    }

    /// The device that the driver opened under `handle` for `context`.
    pub(crate) fn opened(context: &'a FreenectContext<D>, handle: usize) -> (device: Self)
        ensures
            device.handle() == handle,
            device.owner() == *context,
    {
        FreenectDevice { context, inner: handle, marker: PhantomData }
    }

    fn into_handle(self) -> (h: usize)
        ensures
            h == self.handle(),
    {
        self.inner
    }

    /// Ends the device: hands back its handle and the call that closes it,
    /// and releases the context.
    pub fn close(self) -> (r: (usize, NativeCall))
        ensures
            r.0 == self.handle(),
            r.1 == NativeCall::CloseDevice,
    {
        (self.into_handle(), NativeCall::CloseDevice)
    }
}

} // verus!
