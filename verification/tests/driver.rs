use bytes::Bytes;
use nezumi::driver::{
    after_write, drive, output_options, output_path, route, shutdown_notice, DriverReply,
    DriverStep, RouterReply, RouterStep, Timed,
};
use nezumi::error::{CaptureError, Failure};
use nezumi::media::MediaPacket;
use nezumi::reading::{after_send, read_loop, ReadReply, ReadStep};

type Failed = (Failure, Option<&'static str>);

fn packet(payload: &'static [u8]) -> MediaPacket {
    MediaPacket {
        track_id: 0,
        pts: 0,
        is_keyframe: false,
        payload: Bytes::from_static(payload),
    }
}

fn feed(replies: Vec<DriverReply<&'static str>>) -> DriverStep<&'static str> {
    let mut step = DriverStep::CreateProducer;
    for reply in replies {
        step = drive(step, reply);
    }
    step
}

fn result(replies: Vec<DriverReply<&'static str>>) -> Result<(), Failed> {
    match feed(replies) {
        DriverStep::Finished(result) => result.map_err(|e| (e.failure, e.cause)),
        _ => panic!("something is left to do"),
    }
}

fn running() -> Vec<DriverReply<&'static str>> {
    vec![DriverReply::ProducerCreated(Ok(())), DriverReply::OutputOpened(Ok(()))]
}

fn joining() -> Vec<DriverReply<&'static str>> {
    let mut replies = running();
    replies.push(DriverReply::ProducerRan(Timed::TimedOut));
    replies.push(DriverReply::Announced);
    replies.push(DriverReply::ProducerDropped);
    replies
}

#[test]
fn output_is_appended_to() {
    let options = output_options();
    assert!(options.create && options.append && options.write);
    assert_eq!(output_path(), "output.h265");
}

#[test]
fn payloads_are_written_in_the_order_received() {
    let mut step: RouterStep<&'static str> = RouterStep::Receive;
    let mut file: Vec<u8> = Vec::new();
    for payload in [&b"one"[..], &b""[..], &b"two"[..]] {
        step = route(step, RouterReply::Received(Some(packet(payload))));
        step = match step {
            RouterStep::Write(packet) => {
                file.extend_from_slice(packet.payload_bytes());
                after_write(Ok(()))
            }
            _ => panic!("the packet has to be written"),
        };
    }
    step = route(step, RouterReply::Received(None));
    assert!(matches!(step, RouterStep::Finished(Ok(()))));
    assert_eq!(file, b"onetwo".to_vec());
}

#[test]
fn frames_that_are_read_end_up_in_the_file_in_order() {
    let mut channel = Vec::new();
    let mut reading: ReadStep<&'static str> = ReadStep::start();
    reading = read_loop(reading, ReadReply::ComInitialized(Ok(())));
    for payload in [&b"a"[..], &b"bc"[..], &b"def"[..]] {
        reading = read_loop(reading, ReadReply::StopFlag(false));
        reading = read_loop(reading, ReadReply::ReceiverClosed(false));
        reading = read_loop(reading, ReadReply::Packet(Ok(Some(packet(payload)))));
        reading = match reading {
            ReadStep::Send(packet) => {
                channel.push(packet);
                after_send(true)
            }
            _ => panic!("the packet has to be sent"),
        };
    }
    let mut file: Vec<u8> = Vec::new();
    let mut step: RouterStep<&'static str> = RouterStep::Receive;
    for packet in channel {
        step = match route(step, RouterReply::Received(Some(packet))) {
            RouterStep::Write(packet) => {
                file.extend_from_slice(packet.payload_bytes());
                after_write(Ok(()))
            }
            _ => panic!("the packet has to be written"),
        };
    }
    assert!(matches!(step, RouterStep::Receive));
    assert_eq!(file, b"abcdef".to_vec());
}

#[test]
fn write_failure_ends_the_router() {
    let step = route(RouterStep::Receive, RouterReply::Received(Some(packet(b"one"))));
    assert!(matches!(
        route(step, RouterReply::Written(Err("full"))),
        RouterStep::Finished(Err(CaptureError {
            failure: Failure::WriteOutput,
            cause: Some("full"),
        }))
    ));
    assert!(matches!(
        after_write(Err("full")),
        RouterStep::Finished(Err(CaptureError {
            failure: Failure::WriteOutput,
            cause: Some("full"),
        }))
    ));
}

#[test]
fn failed_write_leaves_whole_payloads_and_a_beginning() {
    let mut file: Vec<u8> = Vec::new();
    let mut step: RouterStep<&'static str> = RouterStep::Receive;
    for (payload, written) in [(&b"one"[..], 3), (&b"two"[..], 2), (&b"six"[..], 3)] {
        step = match route(step, RouterReply::Received(Some(packet(payload)))) {
            RouterStep::Write(packet) => {
                let bytes = packet.payload_bytes();
                file.extend_from_slice(&bytes[..written]);
                after_write(if written == bytes.len() { Ok(()) } else { Err("full") })
            }
            step => step,
        };
    }
    assert_eq!(file, b"onetw".to_vec());
    assert!(matches!(
        step,
        RouterStep::Finished(Err(CaptureError { failure: Failure::WriteOutput, .. }))
    ));
}

#[test]
fn producer_is_read_for_ten_seconds() {
    assert!(matches!(feed(running()), DriverStep::RunProducer { seconds: 10 }));
}

#[test]
fn running_out_of_time_is_announced() {
    let mut replies = running();
    replies.push(DriverReply::ProducerRan(Timed::TimedOut));
    assert!(matches!(feed(replies), DriverStep::Announce));
    assert_eq!(
        shutdown_notice(),
        "INFO: Nezumi Driver shutting down. H.265 dump complete."
    );
}

#[test]
fn producer_that_ends_in_time_is_not_announced() {
    let mut replies = running();
    replies.push(DriverReply::ProducerRan(Timed::Done(Ok(()))));
    assert!(matches!(feed(replies), DriverStep::DropProducer));
}

#[test]
fn router_gets_two_seconds_after_the_producer_is_dropped() {
    assert!(matches!(feed(joining()), DriverStep::JoinRouter { seconds: 2 }));
    let mut replies = joining();
    replies.push(DriverReply::RouterJoined(Timed::TimedOut));
    assert_eq!(result(replies), Ok(()));
}

#[test]
fn router_result_is_the_driver_result() {
    let mut replies = joining();
    replies.push(DriverReply::RouterJoined(Timed::Done(Ok(Ok(())))));
    assert_eq!(result(replies), Ok(()));
    let mut replies = joining();
    let error = CaptureError { failure: Failure::WriteOutput, cause: Some("full") };
    replies.push(DriverReply::RouterJoined(Timed::Done(Ok(Err(error)))));
    assert_eq!(result(replies), Err((Failure::WriteOutput, Some("full"))));
}

#[test]
fn driver_failures_are_told_apart() {
    assert_eq!(
        result(vec![DriverReply::ProducerCreated(Err("a"))]),
        Err((Failure::InitializeProducer, Some("a")))
    );
    assert_eq!(
        result(vec![DriverReply::ProducerCreated(Ok(())), DriverReply::OutputOpened(Err("b"))]),
        Err((Failure::OpenOutput, Some("b")))
    );
    let mut replies = running();
    replies.push(DriverReply::ProducerRan(Timed::Done(Err("c"))));
    assert_eq!(result(replies), Err((Failure::ProducerEnded, Some("c"))));
    let mut replies = joining();
    replies.push(DriverReply::RouterJoined(Timed::Done(Err("d"))));
    assert_eq!(result(replies), Err((Failure::JoinRouter, Some("d"))));
}
