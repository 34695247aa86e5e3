//! The loop that sends on when frames arrive, and nothing of what they show.

use bytes::Bytes;
use vstd::prelude::*;

use crate::error::CaptureError;
use crate::error::Failure;
use crate::machine::run;
use crate::machine::times;
use crate::machine::Machine;
use crate::media::MediaTrack;
use crate::payload::bytes_content;
use crate::sample::presentation_time;
use crate::sample::read_request;
use crate::sample::ReadRequest;

verus! {

/// That a frame has arrived. `B` is what holds the payload.
#[derive(Debug)]
pub struct TimestampPacket<B> {
    pub track_id: u32,
    /// The presentation time, in units of 100 ns.
    pub pts: u64,
    pub codec: u8,
    pub is_keyframe: bool,
    pub payload: B,
}

impl View for TimestampPacket<Bytes> {
    type V = TimestampPacket<Seq<u8>>;

    open spec fn view(&self) -> TimestampPacket<Seq<u8>> {
        TimestampPacket {
            track_id: self.track_id,
            pts: self.pts,
            codec: self.codec,
            is_keyframe: self.is_keyframe,
            payload: bytes_content(self.payload),
        }
    }
}

/// The next thing that the loop does. `B` is what holds a packet's payload.
pub enum TimestampStep<B, E> {
    /// Ask the reader for what `request` says.
    ReadSample { request: ReadRequest },
    /// Send a packet on.
    Send(TimestampPacket<B>),
    /// There is nothing left to do.
    Finished(Result<(), CaptureError<E>>),
}

/// What the loop found.
pub enum TimestampReply<E> {
    /// When the sample arrived, in units of 100 ns. A live source has no sample at times.
    Sample(Result<Option<i64>, E>),
    /// Whether the packet went out: it does not where the receiver is gone.
    Sent(bool),
}

impl<B, E> TimestampStep<B, E> {
    /// The first thing that the loop does, and what it comes back to.
    #[verifier::allow_in_spec]
    pub fn start() -> Self
        returns
            (TimestampStep::<B, E>::ReadSample { request: read_request() }),
    {
        TimestampStep::ReadSample { request: read_request() }
    }
}

impl<E> View for TimestampStep<Bytes, E> {
    type V = TimestampStep<Seq<u8>, E>;

    open spec fn view(&self) -> TimestampStep<Seq<u8>, E> {
        match *self {
            TimestampStep::ReadSample { request } => TimestampStep::ReadSample { request },
            TimestampStep::Send(packet) => TimestampStep::Send(packet@),
            TimestampStep::Finished(result) => TimestampStep::Finished(result),
        }
    }
}

/// What is sent on for a frame that arrived at `timestamp_hns`. Every frame counts as a keyframe.
pub open spec fn timestamp_packet(track: MediaTrack, timestamp_hns: i64) -> TimestampPacket<
    Seq<u8>,
> {
    TimestampPacket {
        track_id: track.id,
        pts: presentation_time(timestamp_hns),
        codec: track.codec,
        is_keyframe: true,
        payload: Seq::empty(),
    }
}

impl<E> Machine for TimestampStep<Seq<u8>, E> {
    type Setting = MediaTrack;

    type Reply = TimestampReply<E>;

    /// A reply to another step than the pending one changes nothing.
    open spec fn after(self, track: MediaTrack, reply: TimestampReply<E>) -> Self {
        match (self, reply) {
            (TimestampStep::ReadSample { .. }, TimestampReply::Sample(Ok(Some(timestamp_hns)))) =>
                TimestampStep::Send(timestamp_packet(track, timestamp_hns)),
            (TimestampStep::ReadSample { .. }, TimestampReply::Sample(Ok(None))) =>
                TimestampStep::start(),
            (TimestampStep::ReadSample { .. }, TimestampReply::Sample(Err(cause))) =>
                TimestampStep::Finished(Err(CaptureError::caused(Failure::ReadSample, cause))),
            (TimestampStep::Send(_), TimestampReply::Sent(sent)) => after_send(sent),
            _ => self,
        }
    }

    open spec fn is_finished(self) -> bool {
        self is Finished
    }

    proof fn result_stands(self, track: MediaTrack, reply: TimestampReply<E>) {
    }
}

/// What comes after a packet that was handed over to be sent, whichever it was.
#[verifier::allow_in_spec]
pub fn after_send<B, E>(sent: bool) -> TimestampStep<B, E>
    returns
        (if sent {
            TimestampStep::<B, E>::start()
        } else {
            TimestampStep::<B, E>::Finished(
                Err(CaptureError::<E>::plain(Failure::ReceiverDropped)),
            )
        }),
{
    if sent {
        TimestampStep::start()
    } else {
        TimestampStep::Finished(Err(CaptureError::plain(Failure::ReceiverDropped)))
    }
}

/// Takes what the pending step found and gives the next one. Where there was no sample, the next
/// one is asked for.
pub fn timestamp_loop<E>(
    track: &MediaTrack,
    step: TimestampStep<Bytes, E>,
    reply: TimestampReply<E>,
) -> (next: TimestampStep<Bytes, E>)
    ensures
        next@ == step@.after(*track, reply),
{
    match (step, reply) {
        (TimestampStep::ReadSample { .. }, TimestampReply::Sample(outcome)) => match outcome {
            Ok(Some(timestamp_hns)) => TimestampStep::Send(
                TimestampPacket {
                    track_id: track.id,
                    pts: presentation_time(timestamp_hns),
                    codec: track.codec,
                    is_keyframe: true,
                    payload: Bytes::new(),
                },
            ),
            Ok(None) => TimestampStep::start(),
            Err(cause) => TimestampStep::Finished(
                Err(CaptureError::caused(Failure::ReadSample, cause)),
            ),
        },
        (TimestampStep::Send(_), TimestampReply::Sent(sent)) => after_send(sent),
        (step, _) => step,
    }
}

/// The times at which samples have arrived, in order.
pub open spec fn arrivals<E>(track: MediaTrack, replies: Seq<TimestampReply<E>>) -> Seq<i64>
    decreases replies.len(),
{
    if replies.len() == 0 {
        Seq::empty()
    } else {
        let before = arrivals(track, replies.drop_last());
        match (
            run(TimestampStep::<Seq<u8>, E>::start(), track, replies.drop_last()),
            replies.last(),
        ) {
            (TimestampStep::ReadSample { .. }, TimestampReply::Sample(Ok(Some(timestamp_hns)))) =>
                before.push(timestamp_hns),
            _ => before,
        }
    }
}

/// The packets that have gone out, in order.
pub open spec fn timestamps_sent<E>(
    track: MediaTrack,
    replies: Seq<TimestampReply<E>>,
) -> Seq<TimestampPacket<Seq<u8>>>
    decreases replies.len(),
{
    if replies.len() == 0 {
        Seq::empty()
    } else {
        let before = timestamps_sent(track, replies.drop_last());
        match (
            run(TimestampStep::<Seq<u8>, E>::start(), track, replies.drop_last()),
            replies.last(),
        ) {
            (TimestampStep::Send(packet), TimestampReply::Sent(true)) => before.push(packet),
            _ => before,
        }
    }
}

/// Whether `reply` says that the pending packet did not go out.
pub open spec fn fails_to_send<E>() -> spec_fn(
    TimestampStep<Seq<u8>, E>,
    TimestampReply<E>,
) -> bool {
    |step: TimestampStep<Seq<u8>, E>, reply: TimestampReply<E>|
        step is Send && reply == TimestampReply::<E>::Sent(false)
}

/// Each arrival is sent on once, in order. Only the last one can be missing: it is about to be
/// sent, or it was handed over after the receiver was gone, which ends the loop with that error.
pub proof fn arrivals_are_sent_once_and_in_order<E>(
    track: MediaTrack,
    replies: Seq<TimestampReply<E>>,
)
    ensures
        ({
            let start = TimestampStep::<Seq<u8>, E>::start();
            let reached = run(start, track, replies);
            let packets = arrivals(track, replies).map_values(
                |hns: i64| timestamp_packet(track, hns),
            );
            let sent = timestamps_sent(track, replies);
            let failed = times(start, track, replies, fails_to_send());
            let dropped = CaptureError::<E>::plain(Failure::ReceiverDropped);
            &&& failed <= 1
            &&& failed == 1 ==> {
                &&& reached == TimestampStep::<Seq<u8>, E>::Finished(Err(dropped))
                &&& packets.len() > 0
                &&& sent == packets.drop_last()
            }
            &&& failed == 0 ==> match reached {
                TimestampStep::Send(packet) => packets == sent.push(packet),
                _ => packets == sent,
            }
        }),
    decreases replies.len(),
{
    let packet_at = |hns: i64| timestamp_packet(track, hns);
    if replies.len() > 0 {
        let before = replies.drop_last();
        arrivals_are_sent_once_and_in_order::<E>(track, before);
        match (run(TimestampStep::<Seq<u8>, E>::start(), track, before), replies.last()) {
            (TimestampStep::ReadSample { .. }, TimestampReply::Sample(Ok(Some(hns)))) => {
                assert(arrivals(track, replies).map_values(packet_at) =~= arrivals(
                    track,
                    before,
                ).map_values(packet_at).push(timestamp_packet(track, hns)));
            },
            (TimestampStep::Send(packet), _) => {
                assert(timestamps_sent(track, before).push(packet).drop_last() =~= timestamps_sent(
                    track,
                    before,
                ));
            },
            _ => {},
        }
    }
}

/// The reader is only ever asked for the next sample of its first video stream, with no control
/// flags.
pub proof fn first_video_stream_is_asked_for<E>(track: MediaTrack, replies: Seq<TimestampReply<E>>)
    ensures
        run(TimestampStep::<Seq<u8>, E>::start(), track, replies) matches TimestampStep::ReadSample {
            request,
        } ==> request == read_request(),
    decreases replies.len(),
{
    if replies.len() > 0 {
        first_video_stream_is_asked_for::<E>(track, replies.drop_last());
    }
}

/// The loop never ends well: it goes on until a sample cannot be read or the receiver is gone.
pub proof fn timestamps_end_with_an_error_only<E>(
    track: MediaTrack,
    replies: Seq<TimestampReply<E>>,
)
    ensures
        run(TimestampStep::<Seq<u8>, E>::start(), track, replies) matches TimestampStep::Finished(
            result,
        ) ==> (result matches Err(error) && (error.failure == Failure::ReadSample || error
            == CaptureError::<E>::plain(Failure::ReceiverDropped))),
    decreases replies.len(),
{
    if replies.len() > 0 {
        timestamps_end_with_an_error_only::<E>(track, replies.drop_last());
    }
}

/// A frame that arrived is sent on with its own time, however late, and at zero where that lies
/// before zero. The packet bears the id and the codec of the track, counts as a keyframe and carries
/// nothing.
pub proof fn arrival_is_sent_with_its_own_time<E>(
    track: MediaTrack,
    request: ReadRequest,
    hns: i64,
)
    ensures
        (TimestampStep::ReadSample::<Seq<u8>, E> { request }).after(
            track,
            TimestampReply::Sample(Ok(Some(hns))),
        ) matches TimestampStep::Send(packet) && (0 <= hns ==> packet.pts as int == hns as int) && (
        hns < 0 ==> packet.pts == 0) && packet.track_id == track.id && packet.codec == track.codec
            && packet.is_keyframe && packet.payload.len() == 0,
{
}

/// Whatever happens, each packet that goes out belongs to one arrival, the one with the same number,
/// and bears its time, or zero where that lies before zero. So frames that arrive one after the
/// other are presented in that order, and from zero on at the same distances.
pub proof fn presentation_follows_arrival<E>(
    track: MediaTrack,
    replies: Seq<TimestampReply<E>>,
    j: int,
    k: int,
)
    requires
        0 <= j < timestamps_sent(track, replies).len(),
        0 <= k < timestamps_sent(track, replies).len(),
    ensures
        ({
            let sent = timestamps_sent(track, replies);
            let arrived = arrivals(track, replies);
            &&& sent.len() <= arrived.len()
            &&& 0 <= arrived[k] ==> sent[k].pts as int == arrived[k] as int
            &&& arrived[k] < 0 ==> sent[k].pts == 0
            &&& sent[k].track_id == track.id
            &&& sent[k].codec == track.codec
            &&& sent[k].is_keyframe
            &&& sent[k].payload.len() == 0
            &&& arrived[j] <= arrived[k] ==> sent[j].pts <= sent[k].pts
            &&& 0 <= arrived[j] && 0 <= arrived[k] ==> sent[k].pts - sent[j].pts == arrived[k]
                - arrived[j]
        }),
{
    arrivals_are_sent_once_and_in_order::<E>(track, replies);
    let packets = arrivals(track, replies).map_values(|hns: i64| timestamp_packet(track, hns));
    let sent = timestamps_sent(track, replies);
    assert(sent[j] == packets[j]);
    assert(sent[k] == packets[k]);
    arrival_is_sent_with_its_own_time::<E>(track, read_request(), arrivals(track, replies)[j]);
    arrival_is_sent_with_its_own_time::<E>(track, read_request(), arrivals(track, replies)[k]);
}

/// A frame that did not arrive is waited for again. A sample that cannot be read, and a receiver that
/// is gone, end the loop with an error of their own; a packet that went out is followed by the next
/// request, which is always the same. A reply to another step than the pending one leads nowhere.
pub proof fn timestamp_loop_goes_on_until_it_cannot<E>(
    track: MediaTrack,
    step: TimestampStep<Seq<u8>, E>,
    reply: TimestampReply<E>,
)
    ensures
        TimestampStep::<Seq<u8>, E>::start() matches TimestampStep::ReadSample { request }
            && request.stream_index == 0xFFFF_FFFC && request.control_flags == 0,
        step is ReadSample ==> {
            &&& reply matches TimestampReply::Sample(Ok(None)) ==> step.after(track, reply)
                == TimestampStep::<Seq<u8>, E>::start()
            &&& reply matches TimestampReply::Sample(Err(cause)) ==> (step.after(track, reply)
                matches TimestampStep::Finished(Err(error)) && error.failure == Failure::ReadSample
                && error.cause == Some(cause))
            &&& reply !is Sample ==> step.after(track, reply) == step
        },
        step is Send ==> {
            &&& reply matches TimestampReply::Sent(true) ==> step.after(track, reply)
                == TimestampStep::<Seq<u8>, E>::start()
            &&& reply matches TimestampReply::Sent(false) ==> (step.after(track, reply)
                matches TimestampStep::Finished(Err(error)) && error.failure
                == Failure::ReceiverDropped && error.cause is None)
            &&& reply !is Sent ==> step.after(track, reply) == step
        },
        step is Finished ==> step.after(track, reply) == step,
        after_send::<Bytes, E>(true) == TimestampStep::<Bytes, E>::start(),
        after_send::<Bytes, E>(false) matches TimestampStep::Finished(Err(error)) && error.failure
            == Failure::ReceiverDropped && error.cause is None,
{
}

/// What is said of a packet is said of its own fields, and of the bytes that it holds.
pub proof fn timestamp_packets_say_what_they_hold<E>(
    packet: TimestampPacket<Bytes>,
    step: TimestampStep<Bytes, E>,
)
    ensures
        packet@.track_id == packet.track_id,
        packet@.pts == packet.pts,
        packet@.codec == packet.codec,
        packet@.is_keyframe == packet.is_keyframe,
        packet@.payload == bytes_content(packet.payload),
        step matches TimestampStep::ReadSample { request } ==> step@ == (
        TimestampStep::ReadSample::<Seq<u8>, E> { request }),
        step matches TimestampStep::Send(held) ==> step@ == TimestampStep::<Seq<u8>, E>::Send(held@),
        step matches TimestampStep::Finished(result) ==> step@ == TimestampStep::<
            Seq<u8>,
            E,
        >::Finished(result),
{
}

} // verus!
