use nezumi::com::Platform;
use nezumi::error::{CaptureError, Failure};
use nezumi::media::Profile;
use nezumi::reader::{
    attribute_capacity, create_camera_source_reader, create_source_reader_attributes,
    force_hevc_output_on_reader, AttributesReply, AttributesStep, CameraReply, CameraStep,
    HevcReply, HevcStep,
};

struct Fake;

impl Platform for Fake {
    type Device = u32;
    type Context = u32;
    type Manager = u32;
    type Unknown = u32;
    type Attributes = u32;
    type Activate = u32;
    type Source = u32;
    type Reader = u32;
    type MediaType = u32;
    type Sample = u32;
    type Buffer = u32;
    type Error = &'static str;
}

type Failed = (Failure, Option<&'static str>);

const MANAGER: u32 = 2;

const ATTRIBUTES: u32 = 3;

const READER: u32 = 10;

fn feed_attributes(
    profile: Profile,
    replies: Vec<AttributesReply<Fake>>,
) -> AttributesStep<'static, Fake> {
    let mut step = AttributesStep::start(profile, &MANAGER);
    for reply in replies {
        step = create_source_reader_attributes(profile, step, reply);
    }
    step
}

fn attributes(profile: Profile, replies: Vec<AttributesReply<Fake>>) -> Result<u32, Failed> {
    match feed_attributes(profile, replies) {
        AttributesStep::Finished(result) => result.map_err(|e| (e.failure, e.cause)),
        _ => panic!("a call is pending"),
    }
}

fn feed_camera(profile: Profile, replies: Vec<CameraReply<Fake>>) -> CameraStep<'static, Fake> {
    let mut step = CameraStep::start(&ATTRIBUTES);
    for reply in replies {
        step = create_camera_source_reader(profile, step, reply);
    }
    step
}

fn camera(profile: Profile, replies: Vec<CameraReply<Fake>>) -> Result<u32, Failed> {
    match feed_camera(profile, replies) {
        CameraStep::Finished(result) => result.map_err(|e| (e.failure, e.cause)),
        _ => panic!("a call is pending"),
    }
}

fn feed_hevc(replies: Vec<HevcReply<Fake>>) -> HevcStep<'static, Fake> {
    let mut step = HevcStep::start(&READER);
    for reply in replies {
        step = force_hevc_output_on_reader(step, reply);
    }
    step
}

fn hevc(replies: Vec<HevcReply<Fake>>) -> Result<(), Failed> {
    match feed_hevc(replies) {
        HevcStep::Finished(result) => result.map_err(|e| (e.failure, e.cause)),
        _ => panic!("a call is pending"),
    }
}

#[test]
fn attribute_store_has_room_by_profile() {
    assert_eq!(attribute_capacity(Profile::Hevc), 4);
    assert_eq!(attribute_capacity(Profile::Timestamps), 2);
    assert!(matches!(
        feed_attributes(Profile::Hevc, vec![]),
        AttributesStep::CreateAttributes { manager: &MANAGER, capacity: 4 }
    ));
    assert!(matches!(
        feed_attributes(Profile::Timestamps, vec![]),
        AttributesStep::CreateAttributes { manager: &MANAGER, capacity: 2 }
    ));
}

#[test]
fn attributes_get_the_manager_and_hardware_transforms() {
    let step = feed_attributes(Profile::Hevc, vec![AttributesReply::Created(Ok(Some(3)))]);
    assert!(matches!(step, AttributesStep::CastManager { manager: &MANAGER, attributes: 3 }));
    let step = create_source_reader_attributes(Profile::Hevc, step, AttributesReply::Cast(Ok(4)));
    assert!(matches!(step, AttributesStep::SetManager { attributes: 3, unknown: 4 }));
    let step = create_source_reader_attributes(
        Profile::Hevc,
        step,
        AttributesReply::ManagerSet(Ok(())),
    );
    assert!(matches!(step, AttributesStep::EnableTransforms { attributes: 3, value: 1 }));
    let step = create_source_reader_attributes(
        Profile::Hevc,
        step,
        AttributesReply::TransformsEnabled(Ok(())),
    );
    assert!(matches!(step, AttributesStep::Finished(Ok(3))));
}

#[test]
fn attribute_failures_are_told_apart() {
    let profile = Profile::Hevc;
    assert_eq!(
        attributes(profile, vec![AttributesReply::Created(Err("a"))]),
        Err((Failure::CreateReaderAttributes, Some("a")))
    );
    assert_eq!(
        attributes(profile, vec![AttributesReply::Created(Ok(None))]),
        Err((Failure::CreateReaderAttributes, None))
    );
    assert_eq!(
        attributes(
            profile,
            vec![AttributesReply::Created(Ok(Some(3))), AttributesReply::Cast(Err("b"))]
        ),
        Err((Failure::CastManager, Some("b")))
    );
    assert_eq!(
        attributes(
            profile,
            vec![
                AttributesReply::Created(Ok(Some(3))),
                AttributesReply::Cast(Ok(4)),
                AttributesReply::ManagerSet(Err("c")),
            ]
        ),
        Err((Failure::SetReaderManager, Some("c")))
    );
    assert_eq!(
        attributes(
            profile,
            vec![
                AttributesReply::Created(Ok(Some(3))),
                AttributesReply::Cast(Ok(4)),
                AttributesReply::ManagerSet(Ok(())),
                AttributesReply::TransformsEnabled(Err("d")),
            ]
        ),
        Err((Failure::EnableHardwareTransforms(profile), Some("d")))
    );
}

#[test]
fn first_camera_is_taken() {
    let step = feed_camera(Profile::Hevc, vec![CameraReply::Listed(Ok(vec![8, 7]))]);
    assert!(matches!(step, CameraStep::Activate { attributes: &ATTRIBUTES, device: 8 }));
    let step = create_camera_source_reader(Profile::Hevc, step, CameraReply::Activated(Ok(9)));
    assert!(matches!(step, CameraStep::CreateReader { attributes: &ATTRIBUTES, source: 9 }));
    let reader = camera(
        Profile::Hevc,
        vec![
            CameraReply::Listed(Ok(vec![8, 7])),
            CameraReply::Activated(Ok(9)),
            CameraReply::Created(Ok(10)),
        ],
    );
    assert_eq!(reader, Ok(10));
}

#[test]
fn camera_failures_are_told_apart() {
    let profile = Profile::Timestamps;
    assert_eq!(
        camera(profile, vec![CameraReply::Listed(Ok(vec![]))]),
        Err((Failure::NoCaptureDevice, None))
    );
    let listed = CaptureError { failure: Failure::EnumerateDevices, cause: Some("a") };
    assert_eq!(
        camera(profile, vec![CameraReply::Listed(Err(listed))]),
        Err((Failure::EnumerateDevices, Some("a")))
    );
    assert_eq!(
        camera(
            profile,
            vec![CameraReply::Listed(Ok(vec![8])), CameraReply::Activated(Err("b"))]
        ),
        Err((Failure::ActivateDevice(profile), Some("b")))
    );
    assert_eq!(
        camera(
            profile,
            vec![
                CameraReply::Listed(Ok(vec![8])),
                CameraReply::Activated(Ok(9)),
                CameraReply::Created(Err("c")),
            ]
        ),
        Err((Failure::CreateSourceReader(profile), Some("c")))
    );
}

#[test]
fn hevc_is_set_on_one_media_type() {
    let step = feed_hevc(vec![
        HevcReply::Created(Ok(6)),
        HevcReply::MajorTypeSet(Ok(())),
        HevcReply::SubtypeSet(Ok(())),
    ]);
    assert!(matches!(
        step,
        HevcStep::SetOutput { reader: &READER, stream_index: 0xFFFF_FFFC, media_type: 6 }
    ));
    let step = force_hevc_output_on_reader(step, HevcReply::OutputSet(Ok(())));
    assert!(matches!(step, HevcStep::Finished(Ok(()))));
}

#[test]
fn hevc_failures_are_told_apart() {
    assert_eq!(
        hevc(vec![HevcReply::Created(Err("a"))]),
        Err((Failure::CreateMediaType, Some("a")))
    );
    assert_eq!(
        hevc(vec![HevcReply::Created(Ok(6)), HevcReply::MajorTypeSet(Err("b"))]),
        Err((Failure::SetMajorType, Some("b")))
    );
    assert_eq!(
        hevc(vec![
            HevcReply::Created(Ok(6)),
            HevcReply::MajorTypeSet(Ok(())),
            HevcReply::SubtypeSet(Err("c")),
        ]),
        Err((Failure::SetSubtype, Some("c")))
    );
    assert_eq!(
        hevc(vec![
            HevcReply::Created(Ok(6)),
            HevcReply::MajorTypeSet(Ok(())),
            HevcReply::SubtypeSet(Ok(())),
            HevcReply::OutputSet(Err("d")),
        ]),
        Err((Failure::SetOutputType, Some("d")))
    );
}
