use bytes::Bytes;
use nezumi::com::Platform;
use nezumi::error::{CaptureError, Failure};
use nezumi::media::{MediaPacket, MediaTrack, TrackKind};
use nezumi::sample::{
    presentation_time, read_sample_packet, sample_is_keyframe, sample_time_hns, sample_to_bytes,
    read_request, BufferReply, BufferStep, LockedBuffer, PacketReply, PacketStep, ReadOutcome,
    ReadRequest,
};

struct Fake;

impl Platform for Fake {
    type Device = u32;
    type Context = u32;
    type Manager = u32;
    type Unknown = u32;
    type Attributes = u32;
    type Activate = u32;
    type Source = u32;
    type Reader = u32;
    type MediaType = u32;
    type Sample = u32;
    type Buffer = u32;
    type Error = &'static str;
}

type Failed = (Failure, Option<&'static str>);

const TRACK: MediaTrack = MediaTrack { id: 12, kind: TrackKind::Video, codec: 0x01 };

const READER: u32 = 10;

const SAMPLE: u32 = 1;

fn locked<'d>(is_null: bool, max_len: u32, current_len: u32) -> BufferReply<Fake, &'d [u8]> {
    BufferReply::Locked(Ok(LockedBuffer { is_null, max_len, current_len }))
}

fn feed_buffer(replies: Vec<BufferReply<Fake, &[u8]>>) -> BufferStep<'static, Fake, Bytes> {
    let mut step = BufferStep::start(&SAMPLE);
    for reply in replies {
        step = sample_to_bytes(step, reply);
    }
    step
}

fn buffer(replies: Vec<BufferReply<Fake, &[u8]>>) -> Result<Vec<u8>, Failed> {
    match feed_buffer(replies) {
        BufferStep::Finished(Ok(payload)) => Ok(payload.to_vec()),
        BufferStep::Finished(Err(e)) => Err((e.failure, e.cause)),
        _ => panic!("a call is pending"),
    }
}

fn feed_packet(replies: Vec<PacketReply<Fake>>) -> PacketStep<'static, Fake> {
    let mut step = PacketStep::start(&READER);
    for reply in replies {
        step = read_sample_packet(&TRACK, step, reply);
    }
    step
}

fn packet(replies: Vec<PacketReply<Fake>>) -> Result<Option<MediaPacket>, Failed> {
    match feed_packet(replies) {
        PacketStep::Finished(result) => result.map_err(|e| (e.failure, e.cause)),
        _ => panic!("a call is pending"),
    }
}

fn read(sample: Option<u32>, timestamp_hns: i64) -> PacketReply<Fake> {
    PacketReply::Read(Ok(ReadOutcome { sample, timestamp_hns }))
}

#[test]
fn times_before_zero_count_as_zero() {
    assert_eq!(presentation_time(-1), 0);
    assert_eq!(presentation_time(i64::MIN), 0);
    assert_eq!(presentation_time(0), 0);
    assert_eq!(presentation_time(333_333), 333_333);
    assert_eq!(presentation_time(i64::MAX), 9_223_372_036_854_775_807);
}

#[test]
fn presentation_times_are_in_the_order_of_the_samples() {
    assert!(presentation_time(-7) <= presentation_time(-3));
    assert!(presentation_time(-7) <= presentation_time(4));
    assert_eq!(presentation_time(90) - presentation_time(40), 50);
}

#[test]
fn sample_time_is_read_or_fails() {
    assert!(matches!(sample_time_hns::<&str>(Ok(42)), Ok(42)));
    assert!(matches!(sample_time_hns::<&str>(Ok(-42)), Ok(0)));
    assert!(matches!(
        sample_time_hns(Err("unset")),
        Err(CaptureError { failure: Failure::SampleTime, cause: Some("unset") })
    ));
}

#[test]
fn keyframes_say_so() {
    assert!(sample_is_keyframe::<&str>(Ok(1)));
    assert!(sample_is_keyframe::<&str>(Ok(7)));
    assert!(!sample_is_keyframe::<&str>(Ok(0)));
    assert!(!sample_is_keyframe(Err("unset")));
}

#[test]
fn locked_bytes_are_copied() {
    let bytes = [9u8, 8, 7];
    let copied = buffer(vec![
        BufferReply::Converted(Ok(2)),
        locked(false, 3, 3),
        BufferReply::Shown(&bytes),
        BufferReply::Unlocked(Ok(())),
    ]);
    assert_eq!(copied, Ok(vec![9, 8, 7]));
}

#[test]
fn current_length_counts_and_not_the_room() {
    let step = feed_buffer(vec![BufferReply::Converted(Ok(2)), locked(false, 4, 2)]);
    assert!(matches!(step, BufferStep::Copy { buffer: 2, len: 2 }));
    let bytes = [1u8, 2, 3, 4];
    let copied = buffer(vec![
        BufferReply::Converted(Ok(2)),
        locked(false, 4, 2),
        BufferReply::Shown(&bytes),
        BufferReply::Unlocked(Ok(())),
    ]);
    assert_eq!(copied, Ok(vec![1, 2]));
}

#[test]
fn no_more_is_copied_than_is_shown() {
    let bytes = [5u8, 6];
    let copied = buffer(vec![
        BufferReply::Converted(Ok(2)),
        locked(false, 8, 8),
        BufferReply::Shown(&bytes),
        BufferReply::Unlocked(Ok(())),
    ]);
    assert_eq!(copied, Ok(vec![5, 6]));
}

#[test]
fn empty_buffer_gives_an_empty_payload() {
    for is_null in [true, false] {
        let copied = buffer(vec![
            BufferReply::Converted(Ok(2)),
            locked(is_null, 16, 0),
            BufferReply::Unlocked(Ok(())),
        ]);
        assert_eq!(copied, Ok(vec![]));
    }
}

#[test]
fn given_sample_is_the_one_whose_buffer_is_locked() {
    assert!(matches!(feed_buffer(vec![]), BufferStep::Convert { sample: &SAMPLE }));
    let step = feed_buffer(vec![BufferReply::Converted(Ok(2))]);
    assert!(matches!(step, BufferStep::Lock { buffer: 2 }));
}

#[test]
fn buffer_is_unlocked_before_the_null_pointer_is_reported() {
    let step = feed_buffer(vec![BufferReply::Converted(Ok(2)), locked(true, 4, 4)]);
    assert!(matches!(step, BufferStep::Unlock { buffer: 2, copied: None }));
    let unlocked: [Result<(), &'static str>; 2] = [Ok(()), Err("ignored")];
    for outcome in unlocked {
        let copied = buffer(vec![
            BufferReply::Converted(Ok(2)),
            locked(true, 4, 4),
            BufferReply::Unlocked(outcome),
        ]);
        assert_eq!(copied, Err((Failure::NullBuffer, None)));
    }
}

#[test]
fn buffer_failures_are_told_apart() {
    assert_eq!(
        buffer(vec![BufferReply::Converted(Err("a"))]),
        Err((Failure::ConvertBuffer, Some("a")))
    );
    assert_eq!(
        buffer(vec![BufferReply::Converted(Ok(2)), BufferReply::Locked(Err("b"))]),
        Err((Failure::LockBuffer, Some("b")))
    );
    let bytes = [1u8];
    assert_eq!(
        buffer(vec![
            BufferReply::Converted(Ok(2)),
            locked(false, 1, 1),
            BufferReply::Shown(&bytes),
            BufferReply::Unlocked(Err("c")),
        ]),
        Err((Failure::UnlockBuffer, Some("c")))
    );
}

#[test]
fn next_sample_of_the_first_video_stream_is_asked_for() {
    assert_eq!(read_request(), ReadRequest { stream_index: 0xFFFF_FFFC, control_flags: 0 });
    match feed_packet(vec![]) {
        PacketStep::ReadSample { reader, request } => {
            assert_eq!(*reader, READER);
            assert_eq!(request, read_request());
        }
        _ => panic!("a sample is needed"),
    }
}

#[test]
fn packet_is_made_of_a_sample() {
    let made = packet(vec![
        read(Some(5), 100),
        PacketReply::Time(Ok(200)),
        PacketReply::Payload(Ok(Bytes::from_static(b"frame"))),
        PacketReply::CleanPoint(Ok(1)),
    ]);
    match made {
        Ok(Some(packet)) => {
            assert_eq!(packet.track_id, 12);
            assert_eq!(packet.pts, 200);
            assert!(packet.is_keyframe);
            assert_eq!(packet.payload_bytes(), b"frame");
        }
        _ => panic!("there is a packet"),
    }
}

#[test]
fn reader_time_stands_in_for_a_missing_sample_time() {
    for (timestamp_hns, pts) in [(100, 100), (-100, 0)] {
        let made = packet(vec![
            read(Some(5), timestamp_hns),
            PacketReply::Time(Err("unset")),
            PacketReply::Payload(Ok(Bytes::new())),
            PacketReply::CleanPoint(Err("unset")),
        ]);
        match made {
            Ok(Some(packet)) => {
                assert_eq!(packet.pts, pts);
                assert!(!packet.is_keyframe);
                assert!(packet.payload_bytes().is_empty());
            }
            _ => panic!("there is a packet"),
        }
    }
}

#[test]
fn no_sample_is_no_packet() {
    assert!(matches!(packet(vec![read(None, 100)]), Ok(None)));
}

#[test]
fn packet_failures_are_told_apart() {
    assert!(matches!(
        packet(vec![PacketReply::Read(Err("a"))]),
        Err((Failure::ReadSample, Some("a")))
    ));
    let error = CaptureError { failure: Failure::LockBuffer, cause: Some("b") };
    assert!(matches!(
        packet(vec![read(Some(5), 0), PacketReply::Time(Ok(0)), PacketReply::Payload(Err(error))]),
        Err((Failure::LockBuffer, Some("b")))
    ));
}

#[test]
fn packet_carries_the_bytes_of_the_sample_that_was_read() {
    let memory = [3u8, 1, 4, 1, 5];
    let mut step = feed_packet(vec![read(Some(SAMPLE), 7), PacketReply::Time(Ok(7))]);
    let payload = match step {
        PacketStep::CopyPayload { sample, .. } => {
            assert_eq!(sample, SAMPLE);
            match feed_buffer(vec![
                BufferReply::Converted(Ok(2)),
                locked(false, 5, 3),
                BufferReply::Shown(&memory),
                BufferReply::Unlocked(Ok(())),
            ]) {
                BufferStep::Finished(result) => result,
                _ => panic!("a call is pending"),
            }
        }
        _ => panic!("the payload is needed"),
    };
    step = read_sample_packet(&TRACK, step, PacketReply::Payload(payload));
    match read_sample_packet(&TRACK, step, PacketReply::CleanPoint(Ok(0))) {
        PacketStep::Finished(Ok(Some(packet))) => {
            assert_eq!(packet.payload_bytes(), [3u8, 1, 4]);
            assert_eq!(packet.track_id, TRACK.id);
        }
        _ => panic!("there is a packet"),
    }
}
