//! The callbacks that a device imported from raw handles is given.
use vstd::prelude::*;

verus! {

/// The handler that is told when an imported device is lost.
#[derive(Clone, Copy, Debug, PartialEq, Eq, Structural)]
pub enum DeviceLostCallback {
    /// The C API's default device-lost handler.
    DefaultHandler,
}

/// The error handlers that devices imported from raw handles are set up with.
pub struct HalInteropCallbacks;

impl HalInteropCallbacks {
    /// The device-lost handler of an imported device: the default one, since a
    /// device imported from raw handles has no descriptor that names another.
    pub fn default_device_lost() -> (r: DeviceLostCallback)
        ensures
            r == DeviceLostCallback::DefaultHandler,
    {
        DeviceLostCallback::DefaultHandler
    }
}

} // verus!
