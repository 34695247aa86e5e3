use nezumi::error::{CaptureError, Failure};
use nezumi::media::{MediaTrack, Profile, TrackKind};
use nezumi::worker::{begin_reading, BeginReply, BeginStep};

const TRACK: MediaTrack = MediaTrack { id: 3, kind: TrackKind::Video, codec: 1 };

type Step = BeginStep<&'static str>;
type Reply = BeginReply<&'static str>;

fn feed(replies: Vec<Reply>) -> Step {
    let mut step: Step = BeginStep::Idle;
    for reply in replies {
        step = begin_reading(step, reply);
    }
    step
}

fn reading() -> Vec<Reply> {
    vec![BeginReply::Called, BeginReply::Track(Ok(TRACK)), BeginReply::Started]
}

#[test]
fn first_call_starts_a_thread_for_the_track() {
    assert!(matches!(feed(vec![]), BeginStep::Idle));
    assert!(matches!(feed(vec![BeginReply::Called]), BeginStep::FindTrack));
    match feed(vec![BeginReply::Called, BeginReply::Track(Ok(TRACK))]) {
        BeginStep::StartWorker { track } => assert_eq!(track, TRACK),
        _ => panic!("the read thread has to be started"),
    }
    assert!(matches!(feed(reading()), BeginStep::JoinWorker));
}

#[test]
fn call_that_was_given_up_is_ended_before_a_new_thread_is_started() {
    let mut replies = reading();
    replies.push(BeginReply::Called);
    let mut step = feed(replies);
    assert!(matches!(step, BeginStep::StopEarlier));
    step = begin_reading(step, BeginReply::StopFlagSet);
    assert!(matches!(step, BeginStep::JoinEarlier));
    step = begin_reading(step, BeginReply::EarlierEnded);
    assert!(matches!(step, BeginStep::FindTrack));
}

#[test]
fn waiting_for_the_earlier_thread_can_be_given_up_too() {
    let mut replies = reading();
    replies.extend([BeginReply::Called, BeginReply::StopFlagSet, BeginReply::Called]);
    assert!(matches!(feed(replies), BeginStep::StopEarlier));
}

#[test]
fn at_most_one_thread_runs() {
    let mut step: Step = BeginStep::Idle;
    let mut running = 0;
    let mut started = 0;
    for round in 0..40 {
        let reply = match step {
            _ if round % 7 == 0 => BeginReply::Called,
            BeginStep::Idle | BeginStep::Finished(_) => BeginReply::Called,
            BeginStep::Dropped => panic!("the producer is there"),
            BeginStep::StopEarlier => BeginReply::StopFlagSet,
            BeginStep::JoinEarlier => {
                running -= 1;
                BeginReply::EarlierEnded
            }
            BeginStep::FindTrack => BeginReply::Track(Ok(TRACK)),
            BeginStep::StartWorker { .. } => {
                running += 1;
                started += 1;
                BeginReply::Started
            }
            BeginStep::JoinWorker => BeginReply::Called,
        };
        assert!(running == 0 || running == 1);
        step = begin_reading(step, reply);
    }
    assert!(started > 1);
}

#[test]
fn call_without_a_track_starts_no_thread() {
    let error = CaptureError { failure: Failure::NoTrack(Profile::Hevc), cause: None };
    assert!(matches!(
        feed(vec![BeginReply::Called, BeginReply::Track(Err(error)), BeginReply::Started]),
        BeginStep::Finished(Err(CaptureError {
            failure: Failure::NoTrack(Profile::Hevc),
            cause: None,
        }))
    ));
}

#[test]
fn result_of_the_thread_is_the_result_of_the_call() {
    let mut replies = reading();
    replies.push(BeginReply::Joined(Ok(Ok(()))));
    assert!(matches!(feed(replies), BeginStep::Finished(Ok(()))));
    let mut replies = reading();
    let error = CaptureError { failure: Failure::ReadSample, cause: Some("a") };
    replies.push(BeginReply::Joined(Ok(Err(error))));
    assert!(matches!(
        feed(replies),
        BeginStep::Finished(Err(CaptureError { failure: Failure::ReadSample, cause: Some("a") }))
    ));
    let mut replies = reading();
    replies.push(BeginReply::Joined(Err("panicked")));
    assert!(matches!(
        feed(replies),
        BeginStep::Finished(Err(CaptureError {
            failure: Failure::JoinReadThread,
            cause: Some("panicked"),
        }))
    ));
}

#[test]
fn finished_call_leaves_no_thread_behind() {
    let mut replies = reading();
    replies.push(BeginReply::Joined(Ok(Ok(()))));
    replies.push(BeginReply::Called);
    assert!(matches!(feed(replies), BeginStep::FindTrack));
}

#[test]
fn nothing_is_started_once_the_producer_is_gone() {
    for mut replies in [vec![], vec![BeginReply::Called], reading()] {
        replies.push(BeginReply::ProducerDropped);
        replies.extend(reading());
        assert!(matches!(feed(replies), BeginStep::Dropped));
    }
}
