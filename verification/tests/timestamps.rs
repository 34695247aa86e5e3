use bytes::Bytes;
use nezumi::error::{CaptureError, Failure};
use nezumi::media::{MediaTrack, TrackKind};
use nezumi::sample::{read_request, ReadRequest};
use nezumi::timestamps::{after_send, timestamp_loop, TimestampReply, TimestampStep};

const TRACK: MediaTrack = MediaTrack { id: 2, kind: TrackKind::Video, codec: 6 };

type Step = TimestampStep<Bytes, &'static str>;

fn step(pending: Step, reply: TimestampReply<&'static str>) -> Step {
    timestamp_loop(&TRACK, pending, reply)
}

#[test]
fn arrival_becomes_an_empty_keyframe() {
    match step(TimestampStep::start(), TimestampReply::Sample(Ok(Some(50)))) {
        TimestampStep::Send(packet) => {
            assert_eq!(packet.track_id, 2);
            assert_eq!(packet.pts, 50);
            assert_eq!(packet.codec, 6);
            assert!(packet.is_keyframe);
            assert!(packet.payload.is_empty());
        }
        _ => panic!("the packet has to be sent"),
    }
}

#[test]
fn arrival_before_zero_counts_as_zero() {
    match step(TimestampStep::start(), TimestampReply::Sample(Ok(Some(-50)))) {
        TimestampStep::Send(packet) => assert_eq!(packet.pts, 0),
        _ => panic!("the packet has to be sent"),
    }
}

#[test]
fn tick_without_a_sample_asks_again() {
    assert!(matches!(
        step(TimestampStep::start(), TimestampReply::Sample(Ok(None))),
        TimestampStep::ReadSample { request: ReadRequest { stream_index: 0xFFFF_FFFC, .. } }
    ));
}

#[test]
fn first_video_stream_is_asked_for_without_flags() {
    match Step::start() {
        TimestampStep::ReadSample { request } => {
            assert_eq!(request, read_request());
            assert_eq!(request.stream_index, 0xFFFF_FFFC);
            assert_eq!(request.control_flags, 0);
        }
        _ => panic!("a sample is needed"),
    }
}

#[test]
fn arrivals_go_out_in_order() {
    let mut pending: Step = TimestampStep::start();
    let mut sent = Vec::new();
    for hns in [5, 3, 8] {
        pending = match step(pending, TimestampReply::Sample(Ok(Some(hns)))) {
            TimestampStep::Send(packet) => {
                sent.push(packet.pts);
                after_send(true)
            }
            _ => panic!("the packet has to be sent"),
        };
    }
    assert_eq!(sent, vec![5, 3, 8]);
}

#[test]
fn dropped_receiver_is_an_error() {
    let pending = step(TimestampStep::start(), TimestampReply::Sample(Ok(Some(1))));
    assert!(matches!(
        step(pending, TimestampReply::Sent(false)),
        TimestampStep::Finished(Err(CaptureError {
            failure: Failure::ReceiverDropped,
            cause: None,
        }))
    ));
    assert!(matches!(
        after_send::<Bytes, &str>(false),
        TimestampStep::Finished(Err(CaptureError {
            failure: Failure::ReceiverDropped,
            cause: None,
        }))
    ));
}

#[test]
fn unreadable_sample_is_an_error() {
    assert!(matches!(
        step(TimestampStep::start(), TimestampReply::Sample(Err("a"))),
        TimestampStep::Finished(Err(CaptureError {
            failure: Failure::ReadSample,
            cause: Some("a"),
        }))
    ));
}
