//! What can go wrong, and how each failure reads.

use vstd::prelude::*;

use crate::media::Profile;

verus! {

/// One place where capture, or the driver around it, gives up.
///
/// The variants that carry a [`Profile`] are worded differently for each of them.
#[derive(Debug, Clone, Copy, PartialEq, Eq, Structural)]
pub enum Failure {
    /// There is no Media Foundation on this system.
    NotOnThisPlatform,
    InitializeCom,
    StartMediaFoundation,
    CreateDevice,
    CreateDeviceContext,
    CreateDeviceManager,
    CastDevice,
    BindManager,
    CreateReaderAttributes,
    CastManager,
    SetReaderManager,
    EnableHardwareTransforms(Profile),
    CreateQueryAttributes(Profile),
    SetQueryType(Profile),
    EnumerateDevices,
    NullDeviceList,
    NoCaptureDevice,
    ActivateDevice(Profile),
    CreateSourceReader(Profile),
    CreateMediaType,
    SetMajorType,
    SetSubtype,
    SetOutputType,
    NoTrack(Profile),
    InitializeComOnReadThread,
    JoinReadThread,
    ReadSample,
    SampleTime,
    ConvertBuffer,
    LockBuffer,
    NullBuffer,
    UnlockBuffer,
    ReceiverDropped,
    InitializeProducer,
    OpenOutput,
    WriteOutput,
    ProducerEnded,
    JoinRouter,
}

impl Failure {
    /// How the failure reads.
    pub open spec fn text(self) -> Seq<char> {
        match self {
            Failure::NotOnThisPlatform => "WindowsMfProducer is only available on Windows"@,
            Failure::InitializeCom => "Failed to initialize COM (MTA)"@,
            Failure::StartMediaFoundation => "Failed to startup Media Foundation"@,
            Failure::CreateDevice => "Failed to create D3D11 device"@,
            Failure::CreateDeviceContext => "Failed to create D3D11 device context"@,
            Failure::CreateDeviceManager => "Failed to create DXGI device manager"@,
            Failure::CastDevice => "Failed to cast D3D11 device for DXGI manager binding"@,
            Failure::BindManager => "Failed to bind DXGI Manager"@,
            Failure::CreateReaderAttributes => "Failed to create source reader attributes"@,
            Failure::CastManager => "Failed to cast DXGI manager for source reader attributes"@,
            Failure::SetReaderManager => "Failed to set MF_SOURCE_READER_D3D_MANAGER"@,
            Failure::EnableHardwareTransforms(
                Profile::Hevc,
            ) => "Failed to enable hardware transforms on source reader"@,
            Failure::EnableHardwareTransforms(
                Profile::Timestamps,
            ) => "Failed to enable hardware transforms for source reader"@,
            Failure::CreateQueryAttributes(
                Profile::Hevc,
            ) => "Failed to create MF enumeration attributes"@,
            Failure::CreateQueryAttributes(
                Profile::Timestamps,
            ) => "Failed to create MF device enumeration attributes"@,
            Failure::SetQueryType(
                Profile::Hevc,
            ) => "Failed to configure video device enumeration attributes"@,
            Failure::SetQueryType(
                Profile::Timestamps,
            ) => "Failed to configure video capture device enumeration"@,
            Failure::EnumerateDevices => "Failed to enumerate local video capture devices"@,
            Failure::NullDeviceList => "MFEnumDeviceSources returned a null device list"@,
            Failure::NoCaptureDevice => "No local video capture devices found"@,
            Failure::ActivateDevice(
                Profile::Hevc,
            ) => "Failed to activate the first video capture device"@,
            Failure::ActivateDevice(
                Profile::Timestamps,
            ) => "Failed to activate first video capture device"@,
            Failure::CreateSourceReader(
                Profile::Hevc,
            ) => "Failed to create IMFSourceReader from the video capture device"@,
            Failure::CreateSourceReader(
                Profile::Timestamps,
            ) => "Failed to create IMFSourceReader from video capture device"@,
            Failure::CreateMediaType => "Failed to create HEVC IMFMediaType"@,
            Failure::SetMajorType => "Failed to set HEVC media type major type"@,
            Failure::SetSubtype => "Failed to set HEVC media type subtype"@,
            Failure::SetOutputType =>
                "Failed to configure HEVC output on source reader (camera/MF hardware HEVC encoder may not be available)"@,
            Failure::NoTrack(Profile::Hevc) => "WindowsMfProducer has no video track configured"@,
            Failure::NoTrack(Profile::Timestamps) => "WindowsMfProducer has no configured tracks"@,
            Failure::InitializeComOnReadThread => "Failed to initialize COM on MF read thread"@,
            Failure::JoinReadThread => "Windows MF blocking read thread join failure"@,
            Failure::ReadSample => "Failed to read sample from Media Foundation source reader"@,
            Failure::SampleTime => "Failed to read IMFSample sample time"@,
            Failure::ConvertBuffer => "Failed to convert IMFSample to contiguous buffer"@,
            Failure::LockBuffer => "Failed to lock IMFMediaBuffer"@,
            Failure::NullBuffer => "IMFMediaBuffer::Lock returned null data pointer"@,
            Failure::UnlockBuffer => "Failed to unlock IMFMediaBuffer"@,
            Failure::ReceiverDropped => "Media packet receiver dropped"@,
            Failure::InitializeProducer => "Failed to initialize Windows MF producer"@,
            Failure::OpenOutput => "Failed to initialize file consumer for output.h265"@,
            Failure::WriteOutput => "Failed writing packet payload to output.h265"@,
            Failure::ProducerEnded => "Producer exited before timeout with an error"@,
            Failure::JoinRouter => "Router task join failure"@,
        }
    }

    /// The message of this failure.
    pub fn message(&self) -> (res: &'static str)
        ensures
            res@ == self.text(),
    {
        match self {
            Failure::NotOnThisPlatform => "WindowsMfProducer is only available on Windows",
            Failure::InitializeCom => "Failed to initialize COM (MTA)",
            Failure::StartMediaFoundation => "Failed to startup Media Foundation",
            Failure::CreateDevice => "Failed to create D3D11 device",
            Failure::CreateDeviceContext => "Failed to create D3D11 device context",
            Failure::CreateDeviceManager => "Failed to create DXGI device manager",
            Failure::CastDevice => "Failed to cast D3D11 device for DXGI manager binding",
            Failure::BindManager => "Failed to bind DXGI Manager",
            Failure::CreateReaderAttributes => "Failed to create source reader attributes",
            Failure::CastManager => "Failed to cast DXGI manager for source reader attributes",
            Failure::SetReaderManager => "Failed to set MF_SOURCE_READER_D3D_MANAGER",
            Failure::EnableHardwareTransforms(profile) => match profile {
                Profile::Hevc => "Failed to enable hardware transforms on source reader",
                Profile::Timestamps => "Failed to enable hardware transforms for source reader",
            },
            Failure::CreateQueryAttributes(profile) => match profile {
                Profile::Hevc => "Failed to create MF enumeration attributes",
                Profile::Timestamps => "Failed to create MF device enumeration attributes",
            },
            Failure::SetQueryType(profile) => match profile {
                Profile::Hevc => "Failed to configure video device enumeration attributes",
                Profile::Timestamps => "Failed to configure video capture device enumeration",
            },
            Failure::EnumerateDevices => "Failed to enumerate local video capture devices",
            Failure::NullDeviceList => "MFEnumDeviceSources returned a null device list",
            Failure::NoCaptureDevice => "No local video capture devices found",
            Failure::ActivateDevice(profile) => match profile {
                Profile::Hevc => "Failed to activate the first video capture device",
                Profile::Timestamps => "Failed to activate first video capture device",
            },
            Failure::CreateSourceReader(profile) => match profile {
                Profile::Hevc => "Failed to create IMFSourceReader from the video capture device",
                Profile::Timestamps => "Failed to create IMFSourceReader from video capture device",
            },
            Failure::CreateMediaType => "Failed to create HEVC IMFMediaType",
            Failure::SetMajorType => "Failed to set HEVC media type major type",
            Failure::SetSubtype => "Failed to set HEVC media type subtype",
            Failure::SetOutputType =>
                "Failed to configure HEVC output on source reader (camera/MF hardware HEVC encoder may not be available)",
            Failure::NoTrack(profile) => match profile {
                Profile::Hevc => "WindowsMfProducer has no video track configured",
                Profile::Timestamps => "WindowsMfProducer has no configured tracks",
            },
            Failure::InitializeComOnReadThread => "Failed to initialize COM on MF read thread",
            Failure::JoinReadThread => "Windows MF blocking read thread join failure",
            Failure::ReadSample => "Failed to read sample from Media Foundation source reader",
            Failure::SampleTime => "Failed to read IMFSample sample time",
            Failure::ConvertBuffer => "Failed to convert IMFSample to contiguous buffer",
            Failure::LockBuffer => "Failed to lock IMFMediaBuffer",
            Failure::NullBuffer => "IMFMediaBuffer::Lock returned null data pointer",
            Failure::UnlockBuffer => "Failed to unlock IMFMediaBuffer",
            Failure::ReceiverDropped => "Media packet receiver dropped",
            Failure::InitializeProducer => "Failed to initialize Windows MF producer",
            Failure::OpenOutput => "Failed to initialize file consumer for output.h265",
            Failure::WriteOutput => "Failed writing packet payload to output.h265",
            Failure::ProducerEnded => "Producer exited before timeout with an error",
            Failure::JoinRouter => "Router task join failure",
        }
    }
}

/// A failure, with the error of the call that brought it about where there is one.
#[derive(Debug)]
pub struct CaptureError<E> {
    pub failure: Failure,
    pub cause: Option<E>,
}

impl<E> CaptureError<E> {
    /// The failure that a refused call brings about.
    #[verifier::allow_in_spec]
    pub fn caused(failure: Failure, cause: E) -> Self
        returns
            (CaptureError { failure, cause: Some(cause) }),
    {
        CaptureError { failure, cause: Some(cause) }
    }

    /// A failure that no refused call stands behind.
    #[verifier::allow_in_spec]
    pub fn plain(failure: Failure) -> Self
        returns
            (CaptureError::<E> { failure, cause: None }),
    {
        CaptureError { failure, cause: None }
    }
}

/// An error keeps the failure that it is made of, and the cause where it is given one.
pub proof fn errors_keep_what_they_are_made_of<E>(failure: Failure, cause: E)
    ensures
        CaptureError::caused(failure, cause).failure == failure,
        CaptureError::caused(failure, cause).cause == Some(cause),
        CaptureError::<E>::plain(failure).failure == failure,
        CaptureError::<E>::plain(failure).cause is None,
{
}

} // verus!
