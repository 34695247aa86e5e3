use bytes::Bytes;
use nezumi::com::Apartment;
use nezumi::error::{CaptureError, Failure};
use nezumi::media::MediaPacket;
use nezumi::reading::{after_send, join_read_thread, read_loop, ReadReply, ReadStep};

type Step = ReadStep<&'static str>;
type Reply = ReadReply<&'static str>;

fn packet(pts: u64) -> MediaPacket {
    MediaPacket { track_id: 0, pts, is_keyframe: false, payload: Bytes::new() }
}

fn feed(replies: Vec<Reply>) -> Step {
    let mut step: Step = ReadStep::start();
    for reply in replies {
        step = read_loop(step, reply);
    }
    step
}

fn wanted() -> Vec<Reply> {
    vec![
        ReadReply::ComInitialized(Ok(())),
        ReadReply::StopFlag(false),
        ReadReply::ReceiverClosed(false),
    ]
}

#[test]
fn read_thread_initializes_com_for_free_threading() {
    assert!(matches!(
        feed(vec![]),
        ReadStep::InitializeCom { apartment: Apartment::Multithreaded }
    ));
}

#[test]
fn com_failure_on_the_read_thread_ends_reading() {
    assert!(matches!(
        feed(vec![ReadReply::ComInitialized(Err("a"))]),
        ReadStep::Finished(Err(CaptureError {
            failure: Failure::InitializeComOnReadThread,
            cause: Some("a"),
        }))
    ));
}

#[test]
fn stop_flag_is_looked_at_first() {
    assert!(matches!(feed(vec![ReadReply::ComInitialized(Ok(()))]), ReadStep::CheckStopFlag));
    assert!(matches!(
        feed(vec![ReadReply::ComInitialized(Ok(())), ReadReply::StopFlag(true)]),
        ReadStep::Finished(Ok(()))
    ));
}

#[test]
fn closed_receiver_is_a_normal_end() {
    assert!(matches!(
        feed(vec![
            ReadReply::ComInitialized(Ok(())),
            ReadReply::StopFlag(false),
            ReadReply::ReceiverClosed(true),
        ]),
        ReadStep::Finished(Ok(()))
    ));
    let mut replies = wanted();
    replies.push(ReadReply::Packet(Ok(Some(packet(1)))));
    replies.push(ReadReply::Sent(false));
    assert!(matches!(feed(replies), ReadStep::Finished(Ok(()))));
}

#[test]
fn packets_go_out_in_the_order_they_were_read() {
    let mut step = feed(wanted());
    let mut sent = Vec::new();
    for pts in [30, 10, 20] {
        step = read_loop(step, ReadReply::Packet(Ok(Some(packet(pts)))));
        step = match step {
            ReadStep::Send(packet) => {
                sent.push(packet.pts);
                after_send(true)
            }
            _ => panic!("the packet has to be sent"),
        };
        step = read_loop(step, ReadReply::StopFlag(false));
        step = read_loop(step, ReadReply::ReceiverClosed(false));
    }
    assert_eq!(sent, vec![30, 10, 20]);
}

#[test]
fn missing_sample_leads_back_to_the_stop_flag() {
    let mut replies = wanted();
    replies.push(ReadReply::Packet(Ok(None)));
    assert!(matches!(feed(replies), ReadStep::CheckStopFlag));
}

#[test]
fn read_failure_ends_reading_with_its_error() {
    let mut replies = wanted();
    let error = CaptureError { failure: Failure::ReadSample, cause: Some("b") };
    replies.push(ReadReply::Packet(Err(error)));
    replies.push(ReadReply::StopFlag(true));
    assert!(matches!(
        feed(replies),
        ReadStep::Finished(Err(CaptureError { failure: Failure::ReadSample, cause: Some("b") }))
    ));
}

#[test]
fn dropped_producer_is_asked_for_one_more_sample_at_most() {
    let mut step = feed(wanted());
    let mut asked = 0;
    for _ in 0..10 {
        step = match step {
            ReadStep::ReadPacket => {
                asked += 1;
                read_loop(step, ReadReply::Packet(Ok(None)))
            }
            _ => read_loop(step, ReadReply::StopFlag(true)),
        };
    }
    assert_eq!(asked, 1);
    assert!(matches!(step, ReadStep::Finished(Ok(()))));
}

#[test]
fn set_stop_flag_lets_one_more_packet_go_out_at_most() {
    let mut step = feed(wanted());
    let mut sent = 0;
    for pts in 0..10 {
        step = match step {
            ReadStep::ReadPacket => read_loop(step, ReadReply::Packet(Ok(Some(packet(pts))))),
            ReadStep::Send(_) => {
                sent += 1;
                after_send(true)
            }
            _ => read_loop(step, ReadReply::StopFlag(true)),
        };
    }
    assert_eq!(sent, 1);
    assert!(matches!(step, ReadStep::Finished(Ok(()))));
}

#[test]
fn only_the_packet_whose_send_failed_is_missing() {
    let mut step = feed(wanted());
    let mut sent = Vec::new();
    for (pts, goes_out) in [(1, true), (2, true), (3, false)] {
        step = match read_loop(step, ReadReply::Packet(Ok(Some(packet(pts))))) {
            ReadStep::Send(packet) => {
                if goes_out {
                    sent.push(packet.pts);
                }
                after_send(goes_out)
            }
            _ => panic!("the packet has to be sent"),
        };
        step = read_loop(step, ReadReply::StopFlag(false));
        step = read_loop(step, ReadReply::ReceiverClosed(false));
    }
    assert_eq!(sent, vec![1, 2]);
    assert!(matches!(step, ReadStep::Finished(Ok(()))));
}

#[test]
fn hand_over_leads_where_the_loop_leads() {
    assert!(matches!(after_send::<&str>(true), ReadStep::CheckStopFlag));
    assert!(matches!(after_send::<&str>(false), ReadStep::Finished(Ok(()))));
}

#[test]
fn joined_thread_hands_its_result_on() {
    assert!(matches!(join_read_thread::<&str>(Ok(Ok(()))), Ok(())));
    let error = CaptureError { failure: Failure::ReadSample, cause: Some("b") };
    assert!(matches!(
        join_read_thread(Ok(Err(error))),
        Err(CaptureError { failure: Failure::ReadSample, cause: Some("b") })
    ));
    assert!(matches!(
        join_read_thread(Err("panicked")),
        Err(CaptureError { failure: Failure::JoinReadThread, cause: Some("panicked") })
    ));
}
