//! From a sample of the source reader to a packet.

use bytes::Bytes;
use vstd::prelude::*;
use vstd::slice::slice_subrange;

use crate::com::Platform;
use crate::com::FIRST_VIDEO_STREAM;
use crate::error::CaptureError;
use crate::error::Failure;
use crate::machine::lemma_arrived;
use crate::machine::run;
use crate::machine::times;
use crate::machine::Machine;
use crate::media::MediaPacket;
use crate::media::MediaTrack;
use crate::payload::bytes_content;

verus! {

/// A time in units of 100 ns as a presentation time: a time before zero counts as zero.
pub open spec fn spec_presentation_time(hns: i64) -> u64 {
    if hns < 0 {
        0
    } else {
        hns as u64
    }
}

/// A time in units of 100 ns as a presentation time: a time before zero counts as zero.
#[verifier::when_used_as_spec(spec_presentation_time)]
pub fn presentation_time(hns: i64) -> (res: u64)
    ensures
        res == spec_presentation_time(hns),
{
    if hns < 0 {
        0
    } else {
        hns as u64
    }
}

/// A later sample never gets an earlier presentation time, and from zero on the times are kept
/// exactly.
pub proof fn presentation_times_keep_order(earlier: i64, later: i64)
    requires
        earlier <= later,
    ensures
        presentation_time(earlier) <= presentation_time(later),
        0 <= earlier ==> presentation_time(later) - presentation_time(earlier) == later - earlier,
{
}

/// The presentation time that a sample states of itself.
pub open spec fn time_outcome<E>(outcome: Result<i64, E>) -> Result<u64, CaptureError<E>> {
    match outcome {
        Ok(hns) => Ok(presentation_time(hns)),
        Err(cause) => Err(CaptureError::caused(Failure::SampleTime, cause)),
    }
}

/// Takes what the call for a sample's time came back with.
pub fn sample_time_hns<E>(outcome: Result<i64, E>) -> (res: Result<u64, CaptureError<E>>)
    ensures
        res == time_outcome(outcome),
{
    match outcome {
        Ok(hns) => Ok(presentation_time(hns)),
        Err(cause) => Err(CaptureError::caused(Failure::SampleTime, cause)),
    }
}

/// Whether a sample says that decoding can start with it.
pub open spec fn is_clean_point<E>(outcome: Result<u32, E>) -> bool {
    outcome matches Ok(value) && value != 0
}

/// Takes what the call for a sample's clean point attribute came back with. A sample without the
/// attribute is no keyframe.
pub fn sample_is_keyframe<E>(outcome: Result<u32, E>) -> (res: bool)
    ensures
        res == is_clean_point(outcome),
{
    match outcome {
        Ok(value) => value != 0,
        Err(_) => false,
    }
}

/// What locking a buffer gives: whether the pointer to its bytes is null, how many bytes there is
/// room for, and how many of them the buffer holds.
#[derive(Clone, Copy, Debug, PartialEq, Eq, Structural)]
pub struct LockedBuffer {
    pub is_null: bool,
    pub max_len: u32,
    pub current_len: u32,
}

/// The next call that copies a sample's bytes, with what it needs. `B` is what holds the copy.
pub enum BufferStep<'a, P: Platform, B> {
    /// Get the bytes of `sample` in one piece.
    Convert { sample: &'a P::Sample },
    /// Lock `buffer`.
    Lock { buffer: P::Buffer },
    /// Show the first `len` bytes behind the pointer that the lock gave.
    Copy { buffer: P::Buffer, len: u32 },
    /// Unlock `buffer`. There is no copy where the lock gave a null pointer for some bytes.
    Unlock { buffer: P::Buffer, copied: Option<B> },
    /// There is nothing left to do.
    Finished(Result<B, CaptureError<P::Error>>),
}

/// What a call that copies a sample's bytes came back with. `D` is what shows the locked bytes.
pub enum BufferReply<P: Platform, D> {
    Converted(Result<P::Buffer, P::Error>),
    Locked(Result<LockedBuffer, P::Error>),
    Shown(D),
    Unlocked(Result<(), P::Error>),
}

impl<'a, P: Platform, B> BufferStep<'a, P, B> {
    /// The first call.
    #[verifier::allow_in_spec]
    pub fn start(sample: &'a P::Sample) -> Self
        returns
            (Self::Convert { sample }),
    {
        BufferStep::Convert { sample }
    }
}

impl<'a, P: Platform> View for BufferStep<'a, P, Bytes> {
    type V = BufferStep<'a, P, Seq<u8>>;

    open spec fn view(&self) -> BufferStep<'a, P, Seq<u8>> {
        match *self {
            BufferStep::Convert { sample } => BufferStep::Convert { sample },
            BufferStep::Lock { buffer } => BufferStep::Lock { buffer },
            BufferStep::Copy { buffer, len } => BufferStep::Copy { buffer, len },
            BufferStep::Unlock { buffer, copied } => BufferStep::Unlock {
                buffer,
                copied: match copied {
                    Some(payload) => Some(bytes_content(payload)),
                    None => None,
                },
            },
            BufferStep::Finished(Ok(payload)) => BufferStep::Finished(Ok(bytes_content(payload))),
            BufferStep::Finished(Err(error)) => BufferStep::Finished(Err(error)),
        }
    }
}

impl<'d, P: Platform> View for BufferReply<P, &'d [u8]> {
    type V = BufferReply<P, Seq<u8>>;

    open spec fn view(&self) -> BufferReply<P, Seq<u8>> {
        match *self {
            BufferReply::Converted(outcome) => BufferReply::Converted(outcome),
            BufferReply::Locked(outcome) => BufferReply::Locked(outcome),
            BufferReply::Shown(data) => BufferReply::Shown(data@),
            BufferReply::Unlocked(outcome) => BufferReply::Unlocked(outcome),
        }
    }
}

/// The first `len` of the bytes in `data`, or all of them where there are fewer.
pub open spec fn first_bytes(data: Seq<u8>, len: u32) -> Seq<u8> {
    if len <= data.len() {
        data.take(len as int)
    } else {
        data
    }
}

impl<'a, P: Platform> Machine for BufferStep<'a, P, Seq<u8>> {
    type Setting = ();

    type Reply = BufferReply<P, Seq<u8>>;

    /// A reply to another call than the pending one changes nothing.
    open spec fn after(self, setting: (), reply: BufferReply<P, Seq<u8>>) -> Self {
        match (self, reply) {
            (BufferStep::Convert { .. }, BufferReply::Converted(Ok(buffer))) => BufferStep::Lock {
                buffer,
            },
            (BufferStep::Convert { .. }, BufferReply::Converted(Err(cause))) =>
                BufferStep::Finished(Err(CaptureError::caused(Failure::ConvertBuffer, cause))),
            (BufferStep::Lock { buffer }, BufferReply::Locked(Ok(locked))) => if locked.current_len
                == 0 {
                BufferStep::Unlock { buffer, copied: Some(Seq::empty()) }
            } else if locked.is_null {
                BufferStep::Unlock { buffer, copied: None }
            } else {
                BufferStep::Copy { buffer, len: locked.current_len }
            },
            (BufferStep::Lock { .. }, BufferReply::Locked(Err(cause))) => BufferStep::Finished(
                Err(CaptureError::caused(Failure::LockBuffer, cause)),
            ),
            (BufferStep::Copy { buffer, len }, BufferReply::Shown(data)) => BufferStep::Unlock {
                buffer,
                copied: Some(first_bytes(data, len)),
            },
            (BufferStep::Unlock { copied: None, .. }, BufferReply::Unlocked(_)) =>
                BufferStep::Finished(Err(CaptureError::plain(Failure::NullBuffer))),
            (BufferStep::Unlock { copied: Some(data), .. }, BufferReply::Unlocked(Ok(()))) =>
                BufferStep::Finished(Ok(data)),
            (BufferStep::Unlock { copied: Some(_), .. }, BufferReply::Unlocked(Err(cause))) =>
                BufferStep::Finished(Err(CaptureError::caused(Failure::UnlockBuffer, cause))),
            _ => self,
        }
    }

    open spec fn is_finished(self) -> bool {
        self is Finished
    }

    proof fn result_stands(self, setting: (), reply: BufferReply<P, Seq<u8>>) {
    }
}

/// Copies the first `len` of the bytes in `data`, or all of them where there are fewer.
fn copy_first_bytes(data: &[u8], len: u32) -> (res: Bytes)
    ensures
        bytes_content(res) == first_bytes(data@, len),
{
    if len as usize <= data.len() {
        Bytes::copy_from_slice(slice_subrange(data, 0, len as usize))
    } else {
        Bytes::copy_from_slice(data)
    }
}

/// Takes the reply to the pending call and gives the next one. The bytes are copied while the
/// buffer is locked, as many of them as it holds.
pub fn sample_to_bytes<'a, P: Platform>(
    step: BufferStep<'a, P, Bytes>,
    reply: BufferReply<P, &[u8]>,
) -> (next: BufferStep<'a, P, Bytes>)
    ensures
        next@ == step@.after((), reply@),
{
    match (step, reply) {
        (BufferStep::Convert { .. }, BufferReply::Converted(outcome)) => match outcome {
            Ok(buffer) => BufferStep::Lock { buffer },
            Err(cause) => BufferStep::Finished(
                Err(CaptureError::caused(Failure::ConvertBuffer, cause)),
            ),
        },
        (BufferStep::Lock { buffer }, BufferReply::Locked(outcome)) => match outcome {
            Ok(locked) => if locked.current_len == 0 {
                BufferStep::Unlock { buffer, copied: Some(Bytes::new()) }
            } else if locked.is_null {
                BufferStep::Unlock { buffer, copied: None }
            } else {
                BufferStep::Copy { buffer, len: locked.current_len }
            },
            Err(cause) => BufferStep::Finished(
                Err(CaptureError::caused(Failure::LockBuffer, cause)),
            ),
        },
        (BufferStep::Copy { buffer, len }, BufferReply::Shown(data)) => BufferStep::Unlock {
            buffer,
            copied: Some(copy_first_bytes(data, len)),
        },
        (BufferStep::Unlock { copied, .. }, BufferReply::Unlocked(outcome)) => match copied {
            None => BufferStep::Finished(Err(CaptureError::plain(Failure::NullBuffer))),
            Some(payload) => match outcome {
                Ok(()) => BufferStep::Finished(Ok(payload)),
                Err(cause) => BufferStep::Finished(
                    Err(CaptureError::caused(Failure::UnlockBuffer, cause)),
                ),
            },
        },
        (step, _) => step,
    }
}

/// The copy that is made of a locked buffer whose memory begins with `data`: none where a null
/// pointer should lead to bytes.
pub open spec fn copy_of(locked: LockedBuffer, data: Seq<u8>) -> Option<Seq<u8>> {
    if locked.current_len == 0 {
        Some(Seq::empty())
    } else if locked.is_null {
        None
    } else {
        Some(first_bytes(data, locked.current_len))
    }
}

/// The bytes of a sample, if each of the calls succeeds; else the first failure.
pub open spec fn buffer_outcome<P: Platform>(
    converted: Result<P::Buffer, P::Error>,
    locked: Result<LockedBuffer, P::Error>,
    data: Seq<u8>,
    unlocked: Result<(), P::Error>,
) -> Result<Seq<u8>, CaptureError<P::Error>> {
    match (converted, locked) {
        (Err(cause), _) => Err(CaptureError::caused(Failure::ConvertBuffer, cause)),
        (Ok(_), Err(cause)) => Err(CaptureError::caused(Failure::LockBuffer, cause)),
        (Ok(_), Ok(locked)) => match (copy_of(locked, data), unlocked) {
            (None, _) => Err(CaptureError::plain(Failure::NullBuffer)),
            (Some(_), Err(cause)) => Err(CaptureError::caused(Failure::UnlockBuffer, cause)),
            (Some(copy), Ok(())) => Ok(copy),
        },
    }
}

/// Whatever the calls come back with, the bytes or the first failure is returned.
pub proof fn bytes_are_copied_or_first_failure_returned<'a, P: Platform>(
    sample: &'a P::Sample,
    converted: Result<P::Buffer, P::Error>,
    locked: Result<LockedBuffer, P::Error>,
    data: Seq<u8>,
    unlocked: Result<(), P::Error>,
)
    ensures
        run(
            BufferStep::<P, Seq<u8>>::start(sample),
            (),
            seq![
                BufferReply::Converted(converted),
                BufferReply::Locked(locked),
                BufferReply::Shown(data),
                BufferReply::Unlocked(unlocked),
            ],
        ) == BufferStep::<P, Seq<u8>>::Finished(
            buffer_outcome::<P>(converted, locked, data, unlocked),
        ),
{
    reveal_with_fuel(run, 5);
}

/// What is copied of a buffer is as many bytes as it holds, not as many as it has room for, the
/// first of those behind the pointer.
pub proof fn current_length_is_copied(locked: LockedBuffer, data: Seq<u8>)
    requires
        !locked.is_null,
        locked.current_len <= data.len(),
    ensures
        copy_of(locked, data) == Some(data.take(locked.current_len as int)),
{
    assert(data.take(0) =~= Seq::empty());
}

/// Whether `reply` says that the pending call has locked the buffer.
pub open spec fn locks<'a, P: Platform>() -> spec_fn(
    BufferStep<'a, P, Seq<u8>>,
    BufferReply<P, Seq<u8>>,
) -> bool {
    |step: BufferStep<'a, P, Seq<u8>>, reply: BufferReply<P, Seq<u8>>|
        step is Lock && reply matches BufferReply::Locked(Ok(_))
}

/// Whether `reply` says that the pending call has been made to unlock the buffer.
pub open spec fn unlocks<'a, P: Platform>() -> spec_fn(
    BufferStep<'a, P, Seq<u8>>,
    BufferReply<P, Seq<u8>>,
) -> bool {
    |step: BufferStep<'a, P, Seq<u8>>, reply: BufferReply<P, Seq<u8>>|
        step is Unlock && reply is Unlocked
}

/// Each lock is paired with one unlock, on success and on failure: at any time as many unlocks
/// have been made as locks have succeeded, but for the one that is still held. Bytes are only
/// looked at while the lock is held, and there is no result, and no second lock, before the unlock.
pub proof fn each_lock_is_unlocked_once<'a, P: Platform>(
    sample: &'a P::Sample,
    replies: Seq<BufferReply<P, Seq<u8>>>,
)
    ensures
        ({
            let start = BufferStep::<P, Seq<u8>>::start(sample);
            let reached = run(start, (), replies);
            let locked = times(start, (), replies, locks());
            let unlocked = times(start, (), replies, unlocks());
            &&& locked == unlocked + if reached is Copy || reached is Unlock {
                1nat
            } else {
                0nat
            }
            &&& locked <= 1
            &&& reached is Finished ==> locked == unlocked
            &&& (reached is Convert || reached is Lock) ==> locked == 0
        }),
    decreases replies.len(),
{
    if replies.len() > 0 {
        each_lock_is_unlocked_once::<P>(sample, replies.drop_last());
    }
}

/// What is converted is the given sample. The buffer that is locked, looked at and unlocked is the
/// one that it gave.
pub proof fn buffer_of_the_sample_is_used<'a, P: Platform>(
    sample: &'a P::Sample,
    replies: Seq<BufferReply<P, Seq<u8>>>,
)
    ensures
        ({
            let reached = run(BufferStep::<P, Seq<u8>>::start(sample), (), replies);
            let held = match reached {
                BufferStep::Lock { buffer } => Some(buffer),
                BufferStep::Copy { buffer, .. } => Some(buffer),
                BufferStep::Unlock { buffer, .. } => Some(buffer),
                _ => None,
            };
            &&& reached matches BufferStep::Convert { sample: given } ==> given == sample
            &&& held matches Some(buffer) ==> replies.contains(BufferReply::Converted(Ok(buffer)))
        }),
    decreases replies.len(),
{
    if replies.len() > 0 {
        buffer_of_the_sample_is_used::<P>(sample, replies.drop_last());
        lemma_arrived(replies);
    }
}

/// Whether `data` is the copy of a buffer that was locked on the way: as many of the bytes that were
/// shown as the buffer held.
pub open spec fn is_copy_of_locked_bytes<P: Platform>(
    replies: Seq<BufferReply<P, Seq<u8>>>,
    data: Seq<u8>,
) -> bool {
    exists|locked: LockedBuffer, shown: Seq<u8>|
        {
            &&& #[trigger] copy_of(locked, shown) == Some(data)
            &&& replies.contains(BufferReply::Locked(Ok(locked)))
            &&& locked.current_len != 0 ==> replies.contains(BufferReply::Shown(shown))
        }
}

/// Whatever arrives and in whatever order, bytes that are returned are a copy of what the locked
/// buffer held.
pub proof fn returned_bytes_were_locked<'a, P: Platform>(
    sample: &'a P::Sample,
    replies: Seq<BufferReply<P, Seq<u8>>>,
)
    ensures
        run(BufferStep::<P, Seq<u8>>::start(sample), (), replies) matches BufferStep::Finished(
            Ok(data),
        ) ==> is_copy_of_locked_bytes(replies, data),
{
    bytes_so_far::<P>(sample, replies);
}

/// Whether one of `replies` brought a lock that leads to `len` bytes.
spec fn leads_to_bytes<P: Platform>(replies: Seq<BufferReply<P, Seq<u8>>>, len: u32) -> bool {
    exists|locked: LockedBuffer|
        {
            &&& #[trigger] replies.contains(BufferReply::Locked(Ok(locked)))
            &&& locked.current_len == len
            &&& !locked.is_null
            &&& len != 0
        }
}

/// What is known of the bytes on the way.
proof fn bytes_so_far<'a, P: Platform>(
    sample: &'a P::Sample,
    replies: Seq<BufferReply<P, Seq<u8>>>,
)
    ensures
        match run(BufferStep::<P, Seq<u8>>::start(sample), (), replies) {
            BufferStep::Copy { len, .. } => leads_to_bytes(replies, len),
            BufferStep::Unlock { copied: Some(data), .. } => is_copy_of_locked_bytes(replies, data),
            BufferStep::Finished(Ok(data)) => is_copy_of_locked_bytes(replies, data),
            _ => true,
        },
    decreases replies.len(),
{
    if replies.len() > 0 {
        let before = replies.drop_last();
        bytes_so_far::<P>(sample, before);
        lemma_arrived(replies);
        match (run(BufferStep::<P, Seq<u8>>::start(sample), (), before), replies.last()) {
            (BufferStep::Lock { .. }, BufferReply::Locked(Ok(locked))) => {
                assert(replies.contains(BufferReply::Locked(Ok(locked))));
                assert(copy_of(locked, Seq::empty()) == Some(Seq::<u8>::empty())
                    || locked.current_len != 0);
            },
            (BufferStep::Copy { len, .. }, reply) => {
                let locked = choose|locked: LockedBuffer|
                    {
                        &&& #[trigger] before.contains(BufferReply::Locked(Ok(locked)))
                        &&& locked.current_len == len
                        &&& !locked.is_null
                        &&& len != 0
                    };
                assert(replies.contains(BufferReply::Locked(Ok(locked))));
                if let BufferReply::Shown(shown) = reply {
                    assert(copy_of(locked, shown) == Some(first_bytes(shown, len)));
                }
            },
            (BufferStep::Unlock { copied: Some(data), .. }, _) => {
                copy_stays(replies, data);
            },
            (BufferStep::Finished(Ok(data)), _) => {
                copy_stays(replies, data);
            },
            _ => {},
        }
    }
}

/// One more reply takes nothing back.
proof fn copy_stays<P: Platform>(replies: Seq<BufferReply<P, Seq<u8>>>, data: Seq<u8>)
    requires
        replies.len() > 0,
        is_copy_of_locked_bytes(replies.drop_last(), data),
    ensures
        is_copy_of_locked_bytes(replies, data),
{
    let before = replies.drop_last();
    lemma_arrived(replies);
    let (locked, shown) = choose|locked: LockedBuffer, shown: Seq<u8>|
        {
            &&& #[trigger] copy_of(locked, shown) == Some(data)
            &&& before.contains(BufferReply::Locked(Ok(locked)))
            &&& locked.current_len != 0 ==> before.contains(BufferReply::Shown(shown))
        };
    assert(copy_of(locked, shown) == Some(data));
    assert(replies.contains(BufferReply::Locked(Ok(locked))));
}

/// What a source reader is asked for.
#[derive(Clone, Copy, Debug, PartialEq, Eq, Structural)]
pub struct ReadRequest {
    pub stream_index: u32,
    pub control_flags: u32,
}

/// The next sample of the first video stream, without any special treatment.
#[verifier::allow_in_spec]
pub fn read_request() -> ReadRequest
    returns
        (ReadRequest { stream_index: FIRST_VIDEO_STREAM, control_flags: 0 }),
{
    ReadRequest { stream_index: FIRST_VIDEO_STREAM, control_flags: 0 }
}

/// What the call for the next sample came back with.
pub struct ReadOutcome<P: Platform> {
    /// The sample. A live source has none at times, and the call still succeeds.
    pub sample: Option<P::Sample>,
    /// When the reader got the sample, in units of 100 ns.
    pub timestamp_hns: i64,
}

/// The next call that makes a packet, with what it needs.
pub enum PacketStep<'a, P: Platform> {
    /// Ask `reader` for what `request` says.
    ReadSample { reader: &'a P::Reader, request: ReadRequest },
    /// Ask `sample` for its time.
    GetTime { sample: P::Sample, timestamp_hns: i64 },
    /// Copy the bytes of `sample`.
    CopyPayload { sample: P::Sample, pts: u64 },
    /// Ask `sample` for its clean point attribute.
    GetCleanPoint { sample: P::Sample, pts: u64, payload: Bytes },
    /// There is nothing left to do. There is no packet where there was no sample.
    Finished(Result<Option<MediaPacket>, CaptureError<P::Error>>),
}

/// What a call that makes a packet came back with.
pub enum PacketReply<P: Platform> {
    Read(Result<ReadOutcome<P>, P::Error>),
    Time(Result<i64, P::Error>),
    Payload(Result<Bytes, CaptureError<P::Error>>),
    CleanPoint(Result<u32, P::Error>),
}

/// The presentation time of a sample: its own where it has one, else that of the reader.
pub open spec fn sample_pts<E>(time: Result<i64, E>, timestamp_hns: i64) -> u64 {
    match time {
        Ok(hns) => presentation_time(hns),
        Err(_) => presentation_time(timestamp_hns),
    }
}

impl<'a, P: Platform> PacketStep<'a, P> {
    /// The first call.
    #[verifier::allow_in_spec]
    pub fn start(reader: &'a P::Reader) -> Self
        returns
            (Self::ReadSample { reader, request: read_request() }),
    {
        PacketStep::ReadSample { reader, request: read_request() }
    }
}

impl<'a, P: Platform> Machine for PacketStep<'a, P> {
    type Setting = MediaTrack;

    type Reply = PacketReply<P>;

    /// A reply to another call than the pending one changes nothing.
    open spec fn after(self, track: MediaTrack, reply: PacketReply<P>) -> Self {
        match (self, reply) {
            (
                PacketStep::ReadSample { .. },
                PacketReply::Read(Ok(ReadOutcome { sample: Some(sample), timestamp_hns })),
            ) => PacketStep::GetTime { sample, timestamp_hns },
            (PacketStep::ReadSample { .. }, PacketReply::Read(Ok(ReadOutcome { sample: None, .. }))) =>
                PacketStep::Finished(Ok(None)),
            (PacketStep::ReadSample { .. }, PacketReply::Read(Err(cause))) => PacketStep::Finished(
                Err(CaptureError::caused(Failure::ReadSample, cause)),
            ),
            (PacketStep::GetTime { sample, timestamp_hns }, PacketReply::Time(time)) =>
                PacketStep::CopyPayload { sample, pts: sample_pts(time, timestamp_hns) },
            (PacketStep::CopyPayload { sample, pts }, PacketReply::Payload(Ok(payload))) =>
                PacketStep::GetCleanPoint { sample, pts, payload },
            (PacketStep::CopyPayload { .. }, PacketReply::Payload(Err(error))) =>
                PacketStep::Finished(Err(error)),
            (
                PacketStep::GetCleanPoint { pts, payload, .. },
                PacketReply::CleanPoint(clean_point),
            ) => PacketStep::Finished(
                Ok(
                    Some(
                        MediaPacket {
                            track_id: track.id,
                            pts,
                            is_keyframe: is_clean_point(clean_point),
                            payload,
                        },
                    ),
                ),
            ),
            _ => self,
        }
    }

    open spec fn is_finished(self) -> bool {
        self is Finished
    }

    proof fn result_stands(self, track: MediaTrack, reply: PacketReply<P>) {
    }
}

/// Takes the reply to the pending call and gives the next one.
pub fn read_sample_packet<'a, P: Platform>(
    track: &MediaTrack,
    step: PacketStep<'a, P>,
    reply: PacketReply<P>,
) -> (next: PacketStep<'a, P>)
    ensures
        next == step.after(*track, reply),
{
    match (step, reply) {
        (PacketStep::ReadSample { .. }, PacketReply::Read(outcome)) => match outcome {
            Ok(read) => match read.sample {
                Some(sample) => PacketStep::GetTime { sample, timestamp_hns: read.timestamp_hns },
                None => PacketStep::Finished(Ok(None)),
            },
            Err(cause) => PacketStep::Finished(
                Err(CaptureError::caused(Failure::ReadSample, cause)),
            ),
        },
        (PacketStep::GetTime { sample, timestamp_hns }, PacketReply::Time(outcome)) => {
            let pts: u64 = match sample_time_hns(outcome) {
                Ok(pts) => pts,
                Err(_) => presentation_time(timestamp_hns),
            };
            PacketStep::CopyPayload { sample, pts }
        },
        (PacketStep::CopyPayload { sample, pts }, PacketReply::Payload(outcome)) => match outcome {
            Ok(payload) => PacketStep::GetCleanPoint { sample, pts, payload },
            Err(error) => PacketStep::Finished(Err(error)),
        },
        (PacketStep::GetCleanPoint { pts, payload, .. }, PacketReply::CleanPoint(outcome)) => {
            let is_keyframe = sample_is_keyframe(outcome);
            PacketStep::Finished(
                Ok(Some(MediaPacket { track_id: track.id, pts, is_keyframe, payload })),
            )
        },
        (step, _) => step,
    }
}

/// The packet of a sample, if there is a sample and its bytes can be copied. Neither a missing
/// time nor a missing clean point attribute stands in the way.
pub open spec fn packet_outcome<P: Platform>(
    track: MediaTrack,
    read: Result<ReadOutcome<P>, P::Error>,
    time: Result<i64, P::Error>,
    payload: Result<Bytes, CaptureError<P::Error>>,
    clean_point: Result<u32, P::Error>,
) -> Result<Option<MediaPacket>, CaptureError<P::Error>> {
    match (read, payload) {
        (Err(cause), _) => Err(CaptureError::caused(Failure::ReadSample, cause)),
        (Ok(ReadOutcome { sample: None, .. }), _) => Ok(None),
        (Ok(ReadOutcome { sample: Some(_), .. }), Err(error)) => Err(error),
        (Ok(ReadOutcome { sample: Some(_), timestamp_hns }), Ok(payload)) => Ok(
            Some(
                MediaPacket {
                    track_id: track.id,
                    pts: sample_pts(time, timestamp_hns),
                    is_keyframe: is_clean_point(clean_point),
                    payload,
                },
            ),
        ),
    }
}

/// Whatever the four calls come back with, the packet, its absence or the first failure that
/// counts is returned.
pub proof fn packet_is_made_or_first_failure_returned<'a, P: Platform>(
    reader: &'a P::Reader,
    track: MediaTrack,
    read: Result<ReadOutcome<P>, P::Error>,
    time: Result<i64, P::Error>,
    payload: Result<Bytes, CaptureError<P::Error>>,
    clean_point: Result<u32, P::Error>,
)
    ensures
        run(
            PacketStep::<P>::start(reader),
            track,
            seq![
                PacketReply::Read(read),
                PacketReply::Time(time),
                PacketReply::Payload(payload),
                PacketReply::CleanPoint(clean_point),
            ],
        ) == PacketStep::<P>::Finished(
            packet_outcome::<P>(track, read, time, payload, clean_point),
        ),
{
    reveal_with_fuel(run, 5);
}

/// Whatever arrives and in whatever order, a packet bears the id of the track it was read for.
pub proof fn packets_bear_the_track_id<'a, P: Platform>(
    reader: &'a P::Reader,
    track: MediaTrack,
    replies: Seq<PacketReply<P>>,
)
    ensures
        run(PacketStep::<P>::start(reader), track, replies) matches PacketStep::Finished(
            Ok(Some(packet)),
        ) ==> packet.track_id == track.id,
    decreases replies.len(),
{
    if replies.len() > 0 {
        packets_bear_the_track_id::<P>(reader, track, replies.drop_last());
    }
}

/// Whether `reply` says that the pending call has asked a reader for a sample.
pub open spec fn reads<'a, P: Platform>() -> spec_fn(PacketStep<'a, P>, PacketReply<P>) -> bool {
    |step: PacketStep<'a, P>, reply: PacketReply<P>| step is ReadSample && reply is Read
}

/// For one packet the given reader is asked once, for the next sample of its first video stream
/// and with no control flags. What is asked for its time, its bytes and its clean point is the
/// sample that the reader gave.
pub proof fn reader_is_asked_once_for_a_packet<'a, P: Platform>(
    reader: &'a P::Reader,
    track: MediaTrack,
    replies: Seq<PacketReply<P>>,
)
    ensures
        ({
            let start = PacketStep::<P>::start(reader);
            let reached = run(start, track, replies);
            let asked = match reached {
                PacketStep::GetTime { sample, .. } => Some(sample),
                PacketStep::CopyPayload { sample, .. } => Some(sample),
                PacketStep::GetCleanPoint { sample, .. } => Some(sample),
                _ => None,
            };
            &&& times(start, track, replies, reads()) == if reached is ReadSample {
                0nat
            } else {
                1nat
            }
            &&& reached matches PacketStep::ReadSample { reader: given, request } ==> {
                &&& given == reader
                &&& request.stream_index == FIRST_VIDEO_STREAM
                &&& request.control_flags == 0
            }
            &&& asked matches Some(sample) ==> gives_sample(replies, sample)
        }),
    decreases replies.len(),
{
    if replies.len() > 0 {
        let before = replies.drop_last();
        reader_is_asked_once_for_a_packet::<P>(reader, track, before);
        lemma_given_stays_given(replies);
        assert(replies[replies.len() - 1] == replies.last());
    }
}

/// Whether one of `replies` brought `sample`.
pub open spec fn gives_sample<P: Platform>(
    replies: Seq<PacketReply<P>>,
    sample: P::Sample,
) -> bool {
    exists|i: int|
        0 <= i < replies.len() && (#[trigger] replies[i] matches PacketReply::Read(Ok(read))
            && read.sample == Some(sample))
}

/// One more reply takes no sample back.
pub(crate) proof fn lemma_given_stays_given<P: Platform>(replies: Seq<PacketReply<P>>)
    requires
        replies.len() > 0,
    ensures
        forall|sample: P::Sample|
            gives_sample(replies.drop_last(), sample) ==> #[trigger] gives_sample(replies, sample),
{
    let before = replies.drop_last();
    assert forall|sample: P::Sample| gives_sample(before, sample) implies #[trigger] gives_sample(
        replies,
        sample,
    ) by {
        let i = choose|i: int|
            0 <= i < before.len() && (#[trigger] before[i] matches PacketReply::Read(Ok(read))
                && read.sample == Some(sample));
        assert(replies[i] == before[i]);
    }
}

/// From zero on a presentation time is the time itself, however late, and before zero it is zero.
pub proof fn presentation_time_is_the_time_itself(hns: i64)
    ensures
        0 <= hns ==> presentation_time(hns) as int == hns as int,
        hns < 0 ==> presentation_time(hns) == 0,
{
}

/// A sample that states its time is presented then, or at zero where that lies before zero. One that
/// does not is a failure that keeps its cause.
pub proof fn stated_time_is_kept<E>(hns: i64, cause: E)
    ensures
        time_outcome::<E>(Ok(hns)) matches Ok(pts) && (0 <= hns ==> pts as int == hns as int) && (hns
            < 0 ==> pts == 0),
        time_outcome::<E>(Err(cause)) matches Err(error) && error.failure == Failure::SampleTime
            && error.cause == Some(cause),
{
}

/// The clean point attribute makes a keyframe exactly if it is there and not zero.
pub proof fn clean_point_is_a_number_other_than_zero<E>(value: u32, cause: E)
    ensures
        is_clean_point::<E>(Ok(value)) <==> value != 0,
        !is_clean_point::<E>(Err(cause)),
{
}

/// Of a sample whose bytes were copied there is always a packet. It bears the id of the track and
/// carries the bytes. Its time is the one that the sample states, or else the one at which the reader
/// got it, and zero where that lies before zero. It is a keyframe exactly if the clean point
/// attribute was read as a number other than zero.
pub proof fn packet_says_what_the_sample_says<'a, P: Platform>(
    reader: &'a P::Reader,
    track: MediaTrack,
    sample: P::Sample,
    timestamp_hns: i64,
    time: Result<i64, P::Error>,
    payload: Bytes,
    clean_point: Result<u32, P::Error>,
)
    ensures
        run(
            PacketStep::<P>::start(reader),
            track,
            seq![
                PacketReply::Read(Ok(ReadOutcome { sample: Some(sample), timestamp_hns })),
                PacketReply::Time(time),
                PacketReply::Payload(Ok(payload)),
                PacketReply::CleanPoint(clean_point),
            ],
        ) matches PacketStep::Finished(Ok(Some(packet))) && ({
            let hns: int = match time {
                Ok(stated) => stated as int,
                Err(_) => timestamp_hns as int,
            };
            &&& packet.track_id == track.id
            &&& packet.payload == payload
            &&& 0 <= hns ==> packet.pts as int == hns
            &&& hns < 0 ==> packet.pts == 0
            &&& packet.is_keyframe <==> (clean_point matches Ok(value) && value != 0)
        }),
{
    reveal_with_fuel(run, 5);
}

/// Where the reader has no sample there is no packet, and that is no failure. Where reading or
/// copying fails there is no packet either, whatever else arrives: the failure of the read keeps its
/// cause, and that of the copy is returned as it is.
pub proof fn packet_takes_a_sample_and_its_bytes<'a, P: Platform>(
    reader: &'a P::Reader,
    track: MediaTrack,
    sample: P::Sample,
    timestamp_hns: i64,
    time: Result<i64, P::Error>,
    cause: P::Error,
    met: CaptureError<P::Error>,
)
    ensures
        run(
            PacketStep::<P>::start(reader),
            track,
            seq![PacketReply::Read(Ok(ReadOutcome { sample: None, timestamp_hns }))],
        ) == PacketStep::<P>::Finished(Ok(None)),
        run(
            PacketStep::<P>::start(reader),
            track,
            seq![PacketReply::Read(Err(cause))],
        ) matches PacketStep::Finished(Err(error)) && error.failure == Failure::ReadSample
            && error.cause == Some(cause),
        run(
            PacketStep::<P>::start(reader),
            track,
            seq![
                PacketReply::Read(Ok(ReadOutcome { sample: Some(sample), timestamp_hns })),
                PacketReply::Time(time),
                PacketReply::Payload(Err(met)),
            ],
        ) == PacketStep::<P>::Finished(Err(met)),
{
    reveal_with_fuel(run, 4);
}

/// Whatever arrives and in whatever order, a packet is a keyframe exactly if the reply that the call
/// for its sample's clean point attribute got is a number other than zero. The time and the payload
/// are those that were at hand by then.
pub proof fn packet_is_a_keyframe_by_its_clean_point<'a, P: Platform>(
    reader: &'a P::Reader,
    track: MediaTrack,
    replies: Seq<PacketReply<P>>,
    packet: MediaPacket,
)
    requires
        run(PacketStep::<P>::start(reader), track, replies) == PacketStep::<P>::Finished(
            Ok(Some(packet)),
        ),
    ensures
        exists|i: int|
            {
                &&& 0 <= i < replies.len()
                &&& run(
                    PacketStep::<P>::start(reader),
                    track,
                    replies.take(i),
                ) matches PacketStep::GetCleanPoint { pts, payload, .. }
                &&& packet.pts == pts
                &&& packet.payload == payload
                &&& packet.track_id == track.id
                &&& #[trigger] replies[i] matches PacketReply::CleanPoint(outcome)
                &&& packet.is_keyframe <==> (outcome matches Ok(value) && value != 0)
            },
    decreases replies.len(),
{
    let start = PacketStep::<P>::start(reader);
    let before = replies.drop_last();
    if run(start, track, before) is Finished {
        packet_is_a_keyframe_by_its_clean_point::<P>(reader, track, before, packet);
        let i = choose|i: int|
            {
                &&& 0 <= i < before.len()
                &&& run(start, track, before.take(i)) matches PacketStep::GetCleanPoint {
                    pts,
                    payload,
                    ..
                }
                &&& packet.pts == pts
                &&& packet.payload == payload
                &&& packet.track_id == track.id
                &&& #[trigger] before[i] matches PacketReply::CleanPoint(outcome)
                &&& packet.is_keyframe <==> (outcome matches Ok(value) && value != 0)
            };
        assert(before.take(i) =~= replies.take(i));
        assert(replies[i] == before[i]);
    } else {
        assert(replies.take(replies.len() - 1) =~= before);
        assert(replies[replies.len() - 1] == replies.last());
    }
}

/// The sample that the reader gave goes through all the calls unchanged, and so do the time and the
/// bytes once they are there. A reply to another call than the pending one leads nowhere.
pub proof fn packet_calls_hand_on_what_they_got<'a, P: Platform>(
    track: MediaTrack,
    given: &'a P::Reader,
    step: PacketStep<'a, P>,
    reply: PacketReply<P>,
)
    ensures
        PacketStep::<P>::start(given) matches PacketStep::ReadSample { reader, request } && reader
            == given && request.stream_index == 0xFFFF_FFFC && request.control_flags == 0,
        step is ReadSample ==> {
            &&& reply matches PacketReply::Read(Ok(read)) ==> (read.sample matches Some(sample)
                ==> step.after(track, reply) == (PacketStep::GetTime::<P> {
                sample,
                timestamp_hns: read.timestamp_hns,
            }))
            &&& reply !is Read ==> step.after(track, reply) == step
        },
        step matches PacketStep::GetTime { sample, timestamp_hns } ==> {
            &&& reply matches PacketReply::Time(Ok(hns)) ==> {
                &&& 0 <= hns ==> step.after(track, reply) == (PacketStep::CopyPayload::<P> {
                    sample,
                    pts: hns as u64,
                })
                &&& hns < 0 ==> step.after(track, reply) == (PacketStep::CopyPayload::<P> {
                    sample,
                    pts: 0,
                })
            }
            &&& reply matches PacketReply::Time(Err(_)) ==> {
                &&& 0 <= timestamp_hns ==> step.after(track, reply) == (
                PacketStep::CopyPayload::<P> { sample, pts: timestamp_hns as u64 })
                &&& timestamp_hns < 0 ==> step.after(track, reply) == (PacketStep::CopyPayload::<
                    P,
                > { sample, pts: 0 })
            }
            &&& reply !is Time ==> step.after(track, reply) == step
        },
        step matches PacketStep::CopyPayload { sample, pts } ==> {
            &&& reply matches PacketReply::Payload(Ok(payload)) ==> step.after(track, reply) == (
            PacketStep::GetCleanPoint::<P> { sample, pts, payload })
            &&& reply !is Payload ==> step.after(track, reply) == step
        },
        step matches PacketStep::GetCleanPoint { pts, payload, .. } ==> {
            &&& reply matches PacketReply::CleanPoint(outcome) ==> (step.after(track, reply)
                matches PacketStep::Finished(Ok(Some(packet))) && packet.track_id == track.id
                && packet.pts == pts && packet.payload == payload && (packet.is_keyframe <==> (outcome
                matches Ok(value) && value != 0)))
            &&& reply !is CleanPoint ==> step.after(track, reply) == step
        },
        step is Finished ==> step.after(track, reply) == step,
{
}

/// Where the conversion, the lock and the unlock are good and the lock leads to as many bytes as the
/// buffer holds, these bytes are returned, however many they are and however much room there is.
pub proof fn all_bytes_of_the_buffer_are_returned<'a, P: Platform>(
    sample: &'a P::Sample,
    buffer: P::Buffer,
    locked: LockedBuffer,
    shown: Seq<u8>,
)
    requires
        !locked.is_null || locked.current_len == 0,
        locked.current_len <= shown.len(),
    ensures
        run(
            BufferStep::<P, Seq<u8>>::start(sample),
            (),
            seq![
                BufferReply::Converted(Ok(buffer)),
                BufferReply::Locked(Ok(locked)),
                BufferReply::Shown(shown),
                BufferReply::Unlocked(Ok(())),
            ],
        ) matches BufferStep::Finished(Ok(data)) && data.len() == locked.current_len && (forall|
            i: int,
        | 0 <= i < data.len() ==> #[trigger] data[i] == shown[i]),
{
    reveal_with_fuel(run, 5);
}

/// Bytes are returned only if the conversion, the lock and the unlock are good. Else the failure
/// names the first of them that is not, with its cause; a null pointer that should lead to bytes
/// comes before a failing unlock and has no cause.
pub proof fn bytes_take_three_good_calls<'a, P: Platform>(
    sample: &'a P::Sample,
    converted: Result<P::Buffer, P::Error>,
    locked: Result<LockedBuffer, P::Error>,
    shown: Seq<u8>,
    unlocked: Result<(), P::Error>,
    error: CaptureError<P::Error>,
)
    ensures
        ({
            let reached = run(
                BufferStep::<P, Seq<u8>>::start(sample),
                (),
                seq![
                    BufferReply::Converted(converted),
                    BufferReply::Locked(locked),
                    BufferReply::Shown(shown),
                    BufferReply::Unlocked(unlocked),
                ],
            );
            &&& (reached matches BufferStep::Finished(Ok(_))) <==> {
                &&& converted is Ok
                &&& locked matches Ok(held)
                &&& !held.is_null || held.current_len == 0
                &&& unlocked is Ok
            }
            &&& reached == BufferStep::<P, Seq<u8>>::Finished(Err(error)) <==> match (
                converted,
                locked,
            ) {
                (Err(cause), _) => error.failure == Failure::ConvertBuffer && error.cause == Some(
                    cause,
                ),
                (Ok(_), Err(cause)) => error.failure == Failure::LockBuffer && error.cause == Some(
                    cause,
                ),
                (Ok(_), Ok(held)) => if held.is_null && held.current_len != 0 {
                    error.failure == Failure::NullBuffer && error.cause is None
                } else {
                    unlocked matches Err(cause) && error.failure == Failure::UnlockBuffer
                        && error.cause == Some(cause)
                },
            }
        }),
{
    reveal_with_fuel(run, 5);
}

/// Whatever arrives and in whatever order, a null pointer is reported only where a lock gave one,
/// together with a length other than zero.
pub proof fn null_pointer_is_reported_for_what_it_is<'a, P: Platform>(
    sample: &'a P::Sample,
    replies: Seq<BufferReply<P, Seq<u8>>>,
)
    ensures
        run(BufferStep::<P, Seq<u8>>::start(sample), (), replies) matches BufferStep::Finished(
            Err(error),
        ) && error.failure == Failure::NullBuffer ==> exists|i: int|
            0 <= i < replies.len() && (#[trigger] replies[i] matches BufferReply::Locked(Ok(locked))
                && locked.is_null && locked.current_len != 0),
        run(BufferStep::<P, Seq<u8>>::start(sample), (), replies) matches BufferStep::Unlock {
            copied: None,
            ..
        } ==> exists|i: int|
            0 <= i < replies.len() && (#[trigger] replies[i] matches BufferReply::Locked(Ok(locked))
                && locked.is_null && locked.current_len != 0),
    decreases replies.len(),
{
    if replies.len() > 0 {
        let before = replies.drop_last();
        null_pointer_is_reported_for_what_it_is::<P>(sample, before);
        assert(replies[replies.len() - 1] == replies.last());
        if exists|i: int|
            0 <= i < before.len() && (#[trigger] before[i] matches BufferReply::Locked(Ok(locked))
                && locked.is_null && locked.current_len != 0) {
            let i = choose|i: int|
                0 <= i < before.len() && (#[trigger] before[i] matches BufferReply::Locked(
                    Ok(locked),
                ) && locked.is_null && locked.current_len != 0);
            assert(replies[i] == before[i]);
        }
    }
}

/// One buffer goes through all the calls. As many bytes are looked at as it holds, and the copy is of
/// the bytes that were shown, byte for byte. A reply to another call than the pending one leads
/// nowhere.
pub proof fn buffer_calls_hand_on_what_they_got<'a, P: Platform>(
    step: BufferStep<'a, P, Seq<u8>>,
    reply: BufferReply<P, Seq<u8>>,
)
    ensures
        step is Convert ==> {
            &&& reply matches BufferReply::Converted(Ok(buffer)) ==> step.after((), reply) == (
            BufferStep::Lock::<P, Seq<u8>> { buffer })
            &&& reply !is Converted ==> step.after((), reply) == step
        },
        step matches BufferStep::Lock { buffer } ==> {
            &&& reply matches BufferReply::Locked(Ok(locked)) ==> {
                &&& locked.current_len == 0 ==> (step.after((), reply) matches BufferStep::Unlock {
                    buffer: held,
                    copied: Some(data),
                } && held == buffer && data.len() == 0)
                &&& locked.current_len != 0 && locked.is_null ==> (step.after((), reply)
                    matches BufferStep::Unlock { buffer: held, copied: None } && held == buffer)
                &&& locked.current_len != 0 && !locked.is_null ==> (step.after((), reply)
                    matches BufferStep::Copy { buffer: held, len } && held == buffer && len
                    == locked.current_len)
            }
            &&& reply !is Locked ==> step.after((), reply) == step
        },
        step matches BufferStep::Copy { buffer, len } ==> {
            &&& reply matches BufferReply::Shown(shown) ==> (step.after((), reply)
                matches BufferStep::Unlock { buffer: held, copied: Some(data) } && held == buffer && (
            len <= shown.len() ==> data.len() == len) && (shown.len() < len ==> data.len()
                == shown.len()) && (forall|i: int|
                0 <= i < data.len() ==> #[trigger] data[i] == shown[i]))
            &&& reply !is Shown ==> step.after((), reply) == step
        },
        step matches BufferStep::Unlock { copied: Some(data), .. } ==> (reply
            matches BufferReply::Unlocked(Ok(_)) ==> step.after((), reply) == BufferStep::<
            P,
            Seq<u8>,
        >::Finished(Ok(data))),
        step is Unlock && reply !is Unlocked ==> step.after((), reply) == step,
        step is Finished ==> step.after((), reply) == step,
{
}

/// What is said of a copy of bytes is said of the bytes that it holds, and of nothing else.
pub proof fn copied_bytes_are_what_is_held<'a, P: Platform>(
    step: BufferStep<'a, P, Bytes>,
    reply: BufferReply<P, &[u8]>,
)
    ensures
        step matches BufferStep::Convert { sample } ==> step@ == (BufferStep::Convert::<
            P,
            Seq<u8>,
        > { sample }),
        step matches BufferStep::Lock { buffer } ==> step@ == (BufferStep::Lock::<P, Seq<u8>> {
            buffer,
        }),
        step matches BufferStep::Copy { buffer, len } ==> step@ == (BufferStep::Copy::<P, Seq<u8>> {
            buffer,
            len,
        }),
        step matches BufferStep::Unlock { buffer, copied: None } ==> step@ == (BufferStep::Unlock::<
            P,
            Seq<u8>,
        > { buffer, copied: None }),
        step matches BufferStep::Unlock { buffer, copied: Some(payload) } ==> step@ == (
        BufferStep::Unlock::<P, Seq<u8>> { buffer, copied: Some(bytes_content(payload)) }),
        step matches BufferStep::Finished(Ok(payload)) ==> step@ == BufferStep::<
            P,
            Seq<u8>,
        >::Finished(Ok(bytes_content(payload))),
        step matches BufferStep::Finished(Err(error)) ==> step@ == BufferStep::<
            P,
            Seq<u8>,
        >::Finished(Err(error)),
        reply matches BufferReply::Converted(outcome) ==> reply@ == BufferReply::<
            P,
            Seq<u8>,
        >::Converted(outcome),
        reply matches BufferReply::Locked(outcome) ==> reply@ == BufferReply::<P, Seq<u8>>::Locked(
            outcome,
        ),
        reply matches BufferReply::Shown(data) ==> reply@ == BufferReply::<P, Seq<u8>>::Shown(data@),
        reply matches BufferReply::Unlocked(outcome) ==> reply@ == BufferReply::<
            P,
            Seq<u8>,
        >::Unlocked(outcome),
{
}

} // verus!
