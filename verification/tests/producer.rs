use nezumi::com::{Apartment, Platform};
use nezumi::error::{CaptureError, Failure};
use nezumi::graphics::{
    create_dxgi_device_manager, device_request, CreatedDevice, ManagerReply, ManagerStep,
};
use nezumi::media::{MediaTrack, Profile, TrackKind};
use nezumi::reader::{
    create_camera_source_reader, create_source_reader_attributes, force_hevc_output_on_reader,
    AttributesReply, AttributesStep, CameraReply, CameraStep, HevcReply, HevcStep,
};
use nezumi::reading::{read_loop, ReadReply, ReadStep};
use nezumi::unsupported;
use nezumi::windows_mf::{first_track, SetupReply, SetupStep, WindowsMfProducer};

struct Fake;

impl Platform for Fake {
    type Device = u32;
    type Context = u32;
    type Manager = u32;
    type Unknown = u32;
    type Attributes = u32;
    type Activate = u32;
    type Source = u32;
    type Reader = u32;
    type MediaType = u32;
    type Sample = u32;
    type Buffer = u32;
    type Error = &'static str;
}

type Step = SetupStep<Fake, WindowsMfProducer<Fake>>;

fn feed(profile: Profile, replies: Vec<SetupReply<Fake>>) -> Step {
    let mut step: Step = SetupStep::start();
    for reply in replies {
        step = WindowsMfProducer::new(profile, step, reply);
    }
    step
}

fn failed(step: Step) -> (Failure, Option<&'static str>) {
    match step {
        SetupStep::Finished(Err(CaptureError { failure, cause })) => (failure, cause),
        _ => panic!("setup has not failed"),
    }
}

fn error(failure: Failure) -> CaptureError<&'static str> {
    CaptureError { failure, cause: Some("refused") }
}

/// The replies to the first `count` calls, all of them good.
fn good(count: usize) -> Vec<SetupReply<Fake>> {
    let mut replies = vec![
        SetupReply::ComInitialized(Ok(())),
        SetupReply::MediaFoundationStarted(Ok(())),
        SetupReply::DeviceCreated(Ok(CreatedDevice { device: Some(1), context: Some(2) })),
        SetupReply::ManagerCreated(Ok(3)),
        SetupReply::AttributesCreated(Ok(4)),
        SetupReply::ReaderCreated(Ok(5)),
        SetupReply::HevcForced(Ok(())),
    ];
    replies.truncate(count);
    replies
}

fn good_but(count: usize, last: SetupReply<Fake>) -> Vec<SetupReply<Fake>> {
    let mut replies = good(count);
    replies.push(last);
    replies
}

type Made<T> = Result<T, CaptureError<&'static str>>;

/// A manager whose number tells the device that was bound to it.
fn made_manager(device: &u32) -> Made<u32> {
    let mut step: ManagerStep<Fake> = ManagerStep::start(device);
    loop {
        let reply: ManagerReply<Fake> = match step {
            ManagerStep::Finished(result) => return result,
            ManagerStep::CreateManager { device } => {
                ManagerReply::Created(Ok((Some(*device * 10), 7)))
            }
            ManagerStep::CastDevice { device, .. } => ManagerReply::Cast(Ok(*device)),
            ManagerStep::ResetDevice { ref manager, reset_token, ref unknown } => {
                assert_eq!((*manager, reset_token), (*unknown * 10, 7));
                ManagerReply::Reset(Ok(()))
            }
        };
        step = create_dxgi_device_manager(step, reply);
    }
}

/// Attributes whose number tells the manager that was set in them.
fn made_attributes(profile: Profile, manager: &u32) -> Made<u32> {
    let mut step: AttributesStep<Fake> = AttributesStep::start(profile, manager);
    loop {
        let reply: AttributesReply<Fake> = match step {
            AttributesStep::Finished(result) => return result,
            AttributesStep::CreateAttributes { manager, .. } => {
                AttributesReply::Created(Ok(Some(*manager * 10)))
            }
            AttributesStep::CastManager { manager, .. } => AttributesReply::Cast(Ok(*manager)),
            AttributesStep::SetManager { ref attributes, ref unknown } => {
                assert_eq!(*attributes, *unknown * 10);
                AttributesReply::ManagerSet(Ok(()))
            }
            AttributesStep::EnableTransforms { .. } => AttributesReply::TransformsEnabled(Ok(())),
        };
        step = create_source_reader_attributes(profile, step, reply);
    }
}

/// A reader whose number tells the attributes that it was made with.
fn made_reader(profile: Profile, attributes: &u32) -> Made<u32> {
    let mut step: CameraStep<Fake> = CameraStep::start(attributes);
    loop {
        let reply: CameraReply<Fake> = match step {
            CameraStep::Finished(result) => return result,
            CameraStep::ListDevices { .. } => CameraReply::Listed(Ok(vec![100, 200])),
            CameraStep::Activate { ref device, .. } => CameraReply::Activated(Ok(*device)),
            CameraStep::CreateReader { attributes, ref source } => {
                CameraReply::Created(Ok(*attributes * *source))
            }
        };
        step = create_camera_source_reader(profile, step, reply);
    }
}

fn made_hevc(reader: &u32) -> Made<()> {
    let mut step: HevcStep<Fake> = HevcStep::start(reader);
    loop {
        let reply: HevcReply<Fake> = match step {
            HevcStep::Finished(result) => return result,
            HevcStep::CreateType { .. } => HevcReply::Created(Ok(6)),
            HevcStep::SetMajorType { .. } => HevcReply::MajorTypeSet(Ok(())),
            HevcStep::SetSubtype { .. } => HevcReply::SubtypeSet(Ok(())),
            HevcStep::SetOutput { reader: given, .. } => {
                assert_eq!(given, reader);
                HevcReply::OutputSet(Ok(()))
            }
        };
        step = force_hevc_output_on_reader(step, reply);
    }
}

#[test]
fn setup_starts_with_com_and_media_foundation() {
    assert!(matches!(
        feed(Profile::Hevc, good(0)),
        SetupStep::InitializeCom { apartment: Apartment::Multithreaded }
    ));
    assert!(matches!(
        feed(Profile::Hevc, good(1)),
        SetupStep::StartMediaFoundation { version: 0x0002_0070, flags: 0 }
    ));
    match feed(Profile::Hevc, good(2)) {
        SetupStep::CreateDevice { request } => assert_eq!(request, device_request()),
        _ => panic!("a device is needed"),
    }
}

#[test]
fn handles_are_passed_on_to_the_calls_that_need_them() {
    assert!(matches!(
        feed(Profile::Hevc, good(3)),
        SetupStep::CreateManager { device: 1, context: 2 }
    ));
    assert!(matches!(
        feed(Profile::Hevc, good(4)),
        SetupStep::CreateAttributes { device: 1, context: 2, manager: 3 }
    ));
    assert!(matches!(
        feed(Profile::Hevc, good(5)),
        SetupStep::CreateReader { device: 1, context: 2, manager: 3, attributes: 4 }
    ));
    assert!(matches!(
        feed(Profile::Hevc, good(6)),
        SetupStep::ForceHevc { device: 1, context: 2, manager: 3, reader: 5 }
    ));
}

#[test]
fn hevc_producer_offers_one_hevc_track() {
    match feed(Profile::Hevc, good(7)) {
        SetupStep::Finished(Ok(producer)) => {
            let track = MediaTrack { id: 0, kind: TrackKind::Video, codec: 0x01 };
            assert_eq!(producer.tracks(), vec![track]);
            assert!(matches!(producer.start_reading(), Ok(read) if read == track));
            assert_eq!(*producer.source_reader().as_ref(), 5);
        }
        _ => panic!("the producer is set up"),
    }
}

#[test]
fn dropping_sets_the_stop_flag_for_good() {
    match feed(Profile::Hevc, good(7)) {
        SetupStep::Finished(Ok(mut producer)) => {
            assert!(!producer.stop_flag());
            producer.drop();
            assert!(producer.stop_flag());
            producer.drop();
            assert!(producer.stop_flag());
            assert_eq!(*producer.source_reader().as_ref(), 5);
            let step: ReadStep<&'static str> = ReadStep::CheckStopFlag;
            let step = read_loop(step, ReadReply::StopFlag(producer.stop_flag()));
            assert!(matches!(step, ReadStep::Finished(Ok(()))));
        }
        _ => panic!("the producer is set up"),
    }
}

#[test]
fn parts_are_made_for_each_other() {
    let profile = Profile::Hevc;
    let mut step: Step = SetupStep::start();
    loop {
        let reply: SetupReply<Fake> = match step {
            SetupStep::Finished(Ok(producer)) => {
                assert_eq!(*producer.source_reader().as_ref(), 10_000);
                return;
            }
            SetupStep::Finished(Err(_)) => panic!("every call is good"),
            SetupStep::InitializeCom { .. } => SetupReply::ComInitialized(Ok(())),
            SetupStep::StartMediaFoundation { .. } => SetupReply::MediaFoundationStarted(Ok(())),
            SetupStep::CreateDevice { .. } => SetupReply::DeviceCreated(Ok(CreatedDevice {
                device: Some(1),
                context: Some(2),
            })),
            SetupStep::CreateManager { ref device, .. } => {
                SetupReply::ManagerCreated(made_manager(device))
            }
            SetupStep::CreateAttributes { ref manager, .. } => {
                SetupReply::AttributesCreated(made_attributes(profile, manager))
            }
            SetupStep::CreateReader { ref attributes, .. } => {
                SetupReply::ReaderCreated(made_reader(profile, attributes))
            }
            SetupStep::ForceHevc { ref reader, .. } => SetupReply::HevcForced(made_hevc(reader)),
        };
        step = WindowsMfProducer::new(profile, step, reply);
    }
}

#[test]
fn timestamp_producer_is_ready_without_hevc() {
    match feed(Profile::Timestamps, good(6)) {
        SetupStep::Finished(Ok(producer)) => {
            let track = MediaTrack { id: 0, kind: TrackKind::Video, codec: 0 };
            assert_eq!(producer.tracks(), vec![track]);
            assert!(matches!(producer.start_reading(), Ok(read) if read == track));
        }
        _ => panic!("the producer is set up"),
    }
}

#[test]
fn setup_failures_are_told_apart() {
    let profile = Profile::Hevc;
    assert_eq!(
        failed(feed(profile, good_but(0, SetupReply::ComInitialized(Err("a"))))),
        (Failure::InitializeCom, Some("a"))
    );
    assert_eq!(
        failed(feed(profile, good_but(1, SetupReply::MediaFoundationStarted(Err("b"))))),
        (Failure::StartMediaFoundation, Some("b"))
    );
    assert_eq!(
        failed(feed(profile, good_but(2, SetupReply::DeviceCreated(Err("c"))))),
        (Failure::CreateDevice, Some("c"))
    );
    let without_context = CreatedDevice { device: Some(1), context: None };
    assert_eq!(
        failed(feed(profile, good_but(2, SetupReply::DeviceCreated(Ok(without_context))))),
        (Failure::CreateDeviceContext, None)
    );
}

#[test]
fn failures_of_the_parts_are_handed_on() {
    let profile = Profile::Hevc;
    let cases = vec![
        (3, SetupReply::ManagerCreated(Err(error(Failure::BindManager))), Failure::BindManager),
        (
            4,
            SetupReply::AttributesCreated(Err(error(Failure::CastManager))),
            Failure::CastManager,
        ),
        (
            5,
            SetupReply::ReaderCreated(Err(error(Failure::NoCaptureDevice))),
            Failure::NoCaptureDevice,
        ),
        (6, SetupReply::HevcForced(Err(error(Failure::SetOutputType))), Failure::SetOutputType),
    ];
    for (count, last, failure) in cases {
        assert_eq!(
            failed(feed(profile, good_but(count, last))),
            (failure, Some("refused"))
        );
    }
}

#[test]
fn result_of_setup_is_final() {
    let mut replies = good_but(0, SetupReply::ComInitialized(Err("a")));
    replies.extend(good(7));
    assert_eq!(failed(feed(Profile::Hevc, replies)), (Failure::InitializeCom, Some("a")));
}

#[test]
fn reading_needs_a_track() {
    let none: Vec<MediaTrack> = Vec::new();
    assert!(matches!(
        first_track::<&str>(Profile::Hevc, &none),
        Err(CaptureError { failure: Failure::NoTrack(Profile::Hevc), cause: None })
    ));
    let two = vec![
        MediaTrack { id: 8, kind: TrackKind::Audio, codec: 3 },
        MediaTrack { id: 9, kind: TrackKind::Video, codec: 1 },
    ];
    assert!(matches!(
        first_track::<&str>(Profile::Hevc, &two),
        Ok(MediaTrack { id: 8, kind: TrackKind::Audio, codec: 3 })
    ));
}

#[test]
fn other_systems_have_no_camera() {
    assert!(matches!(
        unsupported::WindowsMfProducer::new::<&str>(),
        Err(CaptureError { failure: Failure::NotOnThisPlatform, cause: None })
    ));
    let producer = unsupported::WindowsMfProducer;
    assert!(producer.tracks().is_empty());
    assert!(matches!(
        producer.start_reading::<&str>(),
        Err(CaptureError { failure: Failure::NotOnThisPlatform, cause: None })
    ));
}
