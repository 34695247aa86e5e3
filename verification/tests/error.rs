use nezumi::error::{CaptureError, Failure};
use nezumi::media::Profile;

#[test]
fn failures_read_as_they_should() {
    let cases = [
        (Failure::NotOnThisPlatform, "WindowsMfProducer is only available on Windows"),
        (Failure::InitializeCom, "Failed to initialize COM (MTA)"),
        (Failure::StartMediaFoundation, "Failed to startup Media Foundation"),
        (Failure::CreateDevice, "Failed to create D3D11 device"),
        (Failure::CreateDeviceContext, "Failed to create D3D11 device context"),
        (Failure::CreateDeviceManager, "Failed to create DXGI device manager"),
        (Failure::CastDevice, "Failed to cast D3D11 device for DXGI manager binding"),
        (Failure::BindManager, "Failed to bind DXGI Manager"),
        (Failure::CreateReaderAttributes, "Failed to create source reader attributes"),
        (Failure::CastManager, "Failed to cast DXGI manager for source reader attributes"),
        (Failure::SetReaderManager, "Failed to set MF_SOURCE_READER_D3D_MANAGER"),
        (
            Failure::EnableHardwareTransforms(Profile::Hevc),
            "Failed to enable hardware transforms on source reader",
        ),
        (
            Failure::EnableHardwareTransforms(Profile::Timestamps),
            "Failed to enable hardware transforms for source reader",
        ),
        (
            Failure::CreateQueryAttributes(Profile::Hevc),
            "Failed to create MF enumeration attributes",
        ),
        (
            Failure::CreateQueryAttributes(Profile::Timestamps),
            "Failed to create MF device enumeration attributes",
        ),
        (
            Failure::SetQueryType(Profile::Hevc),
            "Failed to configure video device enumeration attributes",
        ),
        (
            Failure::SetQueryType(Profile::Timestamps),
            "Failed to configure video capture device enumeration",
        ),
        (Failure::EnumerateDevices, "Failed to enumerate local video capture devices"),
        (Failure::NullDeviceList, "MFEnumDeviceSources returned a null device list"),
        (Failure::NoCaptureDevice, "No local video capture devices found"),
        (
            Failure::ActivateDevice(Profile::Hevc),
            "Failed to activate the first video capture device",
        ),
        (
            Failure::ActivateDevice(Profile::Timestamps),
            "Failed to activate first video capture device",
        ),
        (
            Failure::CreateSourceReader(Profile::Hevc),
            "Failed to create IMFSourceReader from the video capture device",
        ),
        (
            Failure::CreateSourceReader(Profile::Timestamps),
            "Failed to create IMFSourceReader from video capture device",
        ),
        (Failure::CreateMediaType, "Failed to create HEVC IMFMediaType"),
        (Failure::SetMajorType, "Failed to set HEVC media type major type"),
        (Failure::SetSubtype, "Failed to set HEVC media type subtype"),
        (
            Failure::SetOutputType,
            "Failed to configure HEVC output on source reader (camera/MF hardware HEVC encoder may not be available)",
        ),
        (Failure::NoTrack(Profile::Hevc), "WindowsMfProducer has no video track configured"),
        (Failure::NoTrack(Profile::Timestamps), "WindowsMfProducer has no configured tracks"),
        (Failure::InitializeComOnReadThread, "Failed to initialize COM on MF read thread"),
        (Failure::JoinReadThread, "Windows MF blocking read thread join failure"),
        (Failure::ReadSample, "Failed to read sample from Media Foundation source reader"),
        (Failure::SampleTime, "Failed to read IMFSample sample time"),
        (Failure::ConvertBuffer, "Failed to convert IMFSample to contiguous buffer"),
        (Failure::LockBuffer, "Failed to lock IMFMediaBuffer"),
        (Failure::NullBuffer, "IMFMediaBuffer::Lock returned null data pointer"),
        (Failure::UnlockBuffer, "Failed to unlock IMFMediaBuffer"),
        (Failure::ReceiverDropped, "Media packet receiver dropped"),
        (Failure::InitializeProducer, "Failed to initialize Windows MF producer"),
        (Failure::OpenOutput, "Failed to initialize file consumer for output.h265"),
        (Failure::WriteOutput, "Failed writing packet payload to output.h265"),
        (Failure::ProducerEnded, "Producer exited before timeout with an error"),
        (Failure::JoinRouter, "Router task join failure"),
    ];
    for (failure, message) in cases {
        assert_eq!(failure.message(), message);
    }
}

#[test]
fn error_keeps_its_cause() {
    let caused = CaptureError::caused(Failure::LockBuffer, 7);
    assert_eq!((caused.failure, caused.cause), (Failure::LockBuffer, Some(7)));
    let plain: CaptureError<u8> = CaptureError::plain(Failure::NullBuffer);
    assert_eq!((plain.failure, plain.cause), (Failure::NullBuffer, None));
}
