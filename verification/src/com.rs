//! The handles that the platform gives out, as far as this crate has to know them.

use vstd::prelude::*;

verus! {

/// The types of the objects that a platform hands out.
///
/// None of them is ever looked into: a handle is only passed on to the call that needs it.
pub trait Platform: Sized {
    /// A Direct3D device.
    type Device;

    /// The immediate context of a Direct3D device.
    type Context;

    /// A DXGI device manager.
    type Manager;

    /// An object seen through its base interface.
    type Unknown;

    /// An attribute store.
    type Attributes;

    /// An activation object of a capture device.
    type Activate;

    /// A media source.
    type Source;

    /// A source reader.
    type Reader;

    /// A media type.
    type MediaType;

    /// A captured sample.
    type Sample;

    /// A sample's memory, in one piece.
    type Buffer;

    /// Why a call failed.
    type Error;
}

/// The stream index that stands for the first video stream of a source.
pub const FIRST_VIDEO_STREAM: u32 = 0xFFFF_FFFC;

/// The version of Media Foundation that is asked for.
pub const MEDIA_FOUNDATION_VERSION: u32 = 0x0002_0070;

/// The flag that starts all of Media Foundation, sockets included.
pub const FULL_STARTUP: u32 = 0;

/// The threading model that COM is initialized with.
#[derive(Clone, Copy, Debug, PartialEq, Eq, Structural)]
pub enum Apartment {
    /// Free threading: no message pump is needed.
    Multithreaded,
    /// One thread with a message pump.
    SingleThreaded,
}

/// Whether `hresult` reports success. There are several codes of success: initializing COM a second
/// time on a thread, for one, has its own.
#[verifier::allow_in_spec]
pub fn succeeded(hresult: i32) -> bool
    returns
        hresult >= 0,
{
    hresult >= 0
}

/// A COM pointer that its owner may move to the one thread that reads from it.
#[derive(Debug)]
pub struct SendCom<T>(pub T);

impl<T: Clone> Clone for SendCom<T> {
    fn clone(&self) -> (res: Self)
        ensures
            call_ensures(T::clone, (&self.0,), res.0),
    {
        SendCom(self.0.clone())
    }
}

impl<T> SendCom<T> {
    /// The wrapped pointer.
    pub fn as_ref(&self) -> (res: &T)
        ensures
            *res == self.0,
    {
        &self.0
    }
}

/// A code reports success exactly if it is not negative.
pub proof fn negative_codes_report_failure(hresult: i32)
    ensures
        succeeded(hresult) <==> !(hresult < 0),
{
}

} // verus!
