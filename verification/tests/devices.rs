use nezumi::com::Platform;
use nezumi::devices::{
    collect_present, enumerate_video_capture_devices, DeviceList, DevicesReply, DevicesStep,
};
use nezumi::error::Failure;
use nezumi::media::Profile;

struct Fake;

impl Platform for Fake {
    type Device = u32;
    type Context = u32;
    type Manager = u32;
    type Unknown = u32;
    type Attributes = u32;
    type Activate = u32;
    type Source = u32;
    type Reader = u32;
    type MediaType = u32;
    type Sample = u32;
    type Buffer = u32;
    type Error = &'static str;
}

type Step = DevicesStep<Fake, Vec<u32>>;
type Reply = DevicesReply<Fake, Vec<Option<u32>>>;

fn feed(profile: Profile, replies: Vec<Reply>) -> Step {
    let mut step: Step = DevicesStep::start();
    for reply in replies {
        step = enumerate_video_capture_devices(profile, step, reply);
    }
    step
}

fn devices(
    profile: Profile,
    replies: Vec<Reply>,
) -> Result<Vec<u32>, (Failure, Option<&'static str>)> {
    match feed(profile, replies) {
        DevicesStep::Finished(result) => result.map_err(|e| (e.failure, e.cause)),
        _ => panic!("a call is pending"),
    }
}

fn enumerated(count: u32, is_null: bool) -> Vec<Reply> {
    vec![
        DevicesReply::QueryCreated(Ok(Some(1))),
        DevicesReply::QueryTypeSet(Ok(())),
        DevicesReply::Enumerated(Ok(DeviceList { count, is_null })),
    ]
}

#[test]
fn vacant_entries_are_left_out_and_order_is_kept() {
    assert_eq!(collect_present(vec![None, Some(5), None, Some(4), Some(9)]), vec![5, 4, 9]);
    assert_eq!(collect_present(vec![None::<u8>, None]), vec![]);
    assert_eq!(collect_present(Vec::<Option<u8>>::new()), vec![]);
}

#[test]
fn query_has_room_for_one_attribute() {
    assert!(matches!(feed(Profile::Hevc, vec![]), DevicesStep::CreateQuery { capacity: 1 }));
}

#[test]
fn query_is_restricted_before_devices_are_enumerated() {
    let step = feed(Profile::Hevc, vec![DevicesReply::QueryCreated(Ok(Some(4)))]);
    assert!(matches!(step, DevicesStep::SetQueryType { query: 4 }));
    let step = enumerate_video_capture_devices(
        Profile::Hevc,
        step,
        DevicesReply::QueryTypeSet(Ok(())),
    );
    assert!(matches!(step, DevicesStep::Enumerate { query: 4 }));
}

#[test]
fn cameras_are_listed() {
    let mut replies = enumerated(3, false);
    replies.push(DevicesReply::Copied(vec![Some(8), None, Some(7)]));
    replies.push(DevicesReply::Freed);
    assert_eq!(devices(Profile::Hevc, replies), Ok(vec![8, 7]));
}

#[test]
fn list_is_freed_before_it_is_returned() {
    let mut replies = enumerated(1, false);
    assert!(matches!(
        feed(Profile::Hevc, enumerated(1, false)),
        DevicesStep::CopyList { count: 1 }
    ));
    replies.push(DevicesReply::Copied(vec![Some(8)]));
    match feed(Profile::Hevc, replies) {
        DevicesStep::FreeList { devices } => assert_eq!(devices, vec![8]),
        _ => panic!("the list has to be freed"),
    }
}

#[test]
fn no_camera_is_an_empty_list_even_with_a_null_pointer() {
    assert_eq!(devices(Profile::Hevc, enumerated(0, true)), Ok(vec![]));
    assert_eq!(devices(Profile::Timestamps, enumerated(0, true)), Ok(vec![]));
}

#[test]
fn list_without_entries_is_freed_too() {
    match feed(Profile::Hevc, enumerated(0, false)) {
        DevicesStep::FreeList { devices } => assert!(devices.is_empty()),
        _ => panic!("the list has to be freed"),
    }
    let mut replies = enumerated(0, false);
    replies.push(DevicesReply::Freed);
    assert_eq!(devices(Profile::Hevc, replies), Ok(vec![]));
}

#[test]
fn null_list_of_cameras_is_an_error() {
    assert_eq!(
        devices(Profile::Hevc, enumerated(2, true)),
        Err((Failure::NullDeviceList, None))
    );
}

#[test]
fn device_failures_are_told_apart() {
    let profile = Profile::Timestamps;
    assert_eq!(
        devices(profile, vec![DevicesReply::QueryCreated(Err("a"))]),
        Err((Failure::CreateQueryAttributes(profile), Some("a")))
    );
    assert_eq!(
        devices(profile, vec![DevicesReply::QueryCreated(Ok(None))]),
        Err((Failure::CreateQueryAttributes(profile), None))
    );
    assert_eq!(
        devices(
            profile,
            vec![DevicesReply::QueryCreated(Ok(Some(1))), DevicesReply::QueryTypeSet(Err("b"))]
        ),
        Err((Failure::SetQueryType(profile), Some("b")))
    );
    assert_eq!(
        devices(
            profile,
            vec![
                DevicesReply::QueryCreated(Ok(Some(1))),
                DevicesReply::QueryTypeSet(Ok(())),
                DevicesReply::Enumerated(Err("c")),
            ]
        ),
        Err((Failure::EnumerateDevices, Some("c")))
    );
}

#[test]
fn no_more_entries_are_taken_than_were_enumerated() {
    let mut replies = enumerated(2, false);
    replies.push(DevicesReply::Copied(vec![None, Some(5), Some(4)]));
    replies.push(DevicesReply::Freed);
    assert_eq!(devices(Profile::Hevc, replies), Ok(vec![5]));
    let mut replies = enumerated(9, false);
    replies.push(DevicesReply::Copied(vec![Some(6), None, Some(7)]));
    replies.push(DevicesReply::Freed);
    assert_eq!(devices(Profile::Hevc, replies), Ok(vec![6, 7]));
}
