//! The producer on systems without Media Foundation.

use vstd::prelude::*;

use crate::error::CaptureError;
use crate::error::Failure;
use crate::media::MediaTrack;

verus! {

/// A camera that cannot be had here.
#[derive(Debug)]
pub struct WindowsMfProducer;

impl WindowsMfProducer {
    /// There is no camera to set up.
    pub fn new<E>() -> (res: Result<Self, CaptureError<E>>)
        ensures
            res == Err::<Self, _>(CaptureError::<E>::plain(Failure::NotOnThisPlatform)),
    {
        Err(CaptureError::plain(Failure::NotOnThisPlatform))
    }

    /// There are no tracks.
    pub fn tracks(&self) -> (res: Vec<MediaTrack>)
        ensures
            res@ == Seq::<MediaTrack>::empty(),
    {
        Vec::new()
    }

    /// There is nothing to read.
    pub fn start_reading<E>(&self) -> (res: Result<(), CaptureError<E>>)
        ensures
            res == Err::<(), _>(CaptureError::<E>::plain(Failure::NotOnThisPlatform)),
    {
        Err(CaptureError::plain(Failure::NotOnThisPlatform))
    }
}

} // verus!
