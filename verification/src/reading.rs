//! The loop that reads packets and sends them on.

use vstd::prelude::*;

use crate::com::Apartment;
use crate::error::CaptureError;
use crate::error::Failure;
use crate::machine::lemma_arrived;
use crate::machine::run;
use crate::machine::times;
use crate::machine::Machine;
use crate::media::MediaPacket;

verus! {

/// The next thing that the read thread does.
pub enum ReadStep<E> {
    /// Initialize COM on the read thread.
    InitializeCom { apartment: Apartment },
    /// Look whether the producer has been dropped.
    CheckStopFlag,
    /// Look whether the receiver of the packets is gone.
    CheckReceiver,
    /// Read a sample and make a packet of it.
    ReadPacket,
    /// Send a packet on.
    Send(MediaPacket),
    /// There is nothing left to do.
    Finished(Result<(), CaptureError<E>>),
}

/// What the read thread found.
pub enum ReadReply<E> {
    ComInitialized(Result<(), E>),
    /// Whether the producer has been dropped.
    StopFlag(bool),
    /// Whether the receiver is gone.
    ReceiverClosed(bool),
    /// The packet, if there was a sample.
    Packet(Result<Option<MediaPacket>, CaptureError<E>>),
    /// Whether the packet went out: it does not where the receiver is gone.
    Sent(bool),
}

impl<E> ReadStep<E> {
    /// The first thing that the read thread does.
    #[verifier::allow_in_spec]
    pub fn start() -> Self
        returns
            (ReadStep::<E>::InitializeCom { apartment: Apartment::Multithreaded }),
    {
        ReadStep::InitializeCom { apartment: Apartment::Multithreaded }
    }
}

impl<E> Machine for ReadStep<E> {
    type Setting = ();

    type Reply = ReadReply<E>;

    /// A reply to another step than the pending one changes nothing.
    open spec fn after(self, setting: (), reply: ReadReply<E>) -> Self {
        match (self, reply) {
            (ReadStep::InitializeCom { .. }, ReadReply::ComInitialized(Ok(()))) =>
                ReadStep::CheckStopFlag,
            (ReadStep::InitializeCom { .. }, ReadReply::ComInitialized(Err(cause))) =>
                ReadStep::Finished(
                Err(CaptureError::caused(Failure::InitializeComOnReadThread, cause)),
            ),
            (ReadStep::CheckStopFlag, ReadReply::StopFlag(false)) => ReadStep::CheckReceiver,
            (ReadStep::CheckStopFlag, ReadReply::StopFlag(true)) => ReadStep::Finished(Ok(())),
            (ReadStep::CheckReceiver, ReadReply::ReceiverClosed(false)) => ReadStep::ReadPacket,
            (ReadStep::CheckReceiver, ReadReply::ReceiverClosed(true)) => ReadStep::Finished(
                Ok(()),
            ),
            (ReadStep::ReadPacket, ReadReply::Packet(Ok(Some(packet)))) => ReadStep::Send(packet),
            (ReadStep::ReadPacket, ReadReply::Packet(Ok(None))) => ReadStep::CheckStopFlag,
            (ReadStep::ReadPacket, ReadReply::Packet(Err(error))) => ReadStep::Finished(
                Err(error),
            ),
            (ReadStep::Send(_), ReadReply::Sent(sent)) => after_send(sent),
            _ => self,
        }
    }

    open spec fn is_finished(self) -> bool {
        self is Finished
    }

    proof fn result_stands(self, setting: (), reply: ReadReply<E>) {
    }
}

/// What comes after a packet that was handed over to be sent, whichever it was. A receiver that is
/// gone is a normal end.
#[verifier::allow_in_spec]
pub fn after_send<E>(sent: bool) -> ReadStep<E>
    returns
        (if sent {
            ReadStep::<E>::CheckStopFlag
        } else {
            ReadStep::<E>::Finished(Ok(()))
        }),
{
    if sent {
        ReadStep::CheckStopFlag
    } else {
        ReadStep::Finished(Ok(()))
    }
}

/// Takes what the pending step found and gives the next one.
pub fn read_loop<E>(step: ReadStep<E>, reply: ReadReply<E>) -> (next: ReadStep<E>)
    ensures
        next == step.after((), reply),
{
    match (step, reply) {
        (ReadStep::InitializeCom { .. }, ReadReply::ComInitialized(outcome)) => match outcome {
            Ok(()) => ReadStep::CheckStopFlag,
            Err(cause) => ReadStep::Finished(
                Err(CaptureError::caused(Failure::InitializeComOnReadThread, cause)),
            ),
        },
        (ReadStep::CheckStopFlag, ReadReply::StopFlag(stopped)) => if stopped {
            ReadStep::Finished(Ok(()))
        } else {
            ReadStep::CheckReceiver
        },
        (ReadStep::CheckReceiver, ReadReply::ReceiverClosed(closed)) => if closed {
            ReadStep::Finished(Ok(()))
        } else {
            ReadStep::ReadPacket
        },
        (ReadStep::ReadPacket, ReadReply::Packet(outcome)) => match outcome {
            Ok(Some(packet)) => ReadStep::Send(packet),
            Ok(None) => ReadStep::CheckStopFlag,
            Err(error) => ReadStep::Finished(Err(error)),
        },
        (ReadStep::Send(_), ReadReply::Sent(sent)) => after_send(sent),
        (step, _) => step,
    }
}

/// What reading comes to once the read thread has ended, by returning or not.
pub open spec fn joined_outcome<E>(joined: Result<Result<(), CaptureError<E>>, E>) -> Result<
    (),
    CaptureError<E>,
> {
    match joined {
        Ok(result) => result,
        Err(cause) => Err(CaptureError::caused(Failure::JoinReadThread, cause)),
    }
}

/// Takes what waiting for the read thread came back with.
pub fn join_read_thread<E>(joined: Result<Result<(), CaptureError<E>>, E>) -> (res: Result<
    (),
    CaptureError<E>,
>)
    ensures
        res == joined_outcome(joined),
{
    match joined {
        Ok(result) => result,
        Err(cause) => Err(CaptureError::caused(Failure::JoinReadThread, cause)),
    }
}

/// The packets that have been read, in order.
pub open spec fn packets_read<E>(replies: Seq<ReadReply<E>>) -> Seq<MediaPacket>
    decreases replies.len(),
{
    if replies.len() == 0 {
        Seq::empty()
    } else {
        let before = packets_read(replies.drop_last());
        match (run(ReadStep::<E>::start(), (), replies.drop_last()), replies.last()) {
            (ReadStep::ReadPacket, ReadReply::Packet(Ok(Some(packet)))) => before.push(packet),
            _ => before,
        }
    }
}

/// The packets that have gone out, in order.
pub open spec fn packets_sent<E>(replies: Seq<ReadReply<E>>) -> Seq<MediaPacket>
    decreases replies.len(),
{
    if replies.len() == 0 {
        Seq::empty()
    } else {
        let before = packets_sent(replies.drop_last());
        match (run(ReadStep::<E>::start(), (), replies.drop_last()), replies.last()) {
            (ReadStep::Send(packet), ReadReply::Sent(true)) => before.push(packet),
            _ => before,
        }
    }
}

/// Whether `reply` says that the pending packet did not go out.
pub open spec fn fails_to_send<E>() -> spec_fn(ReadStep<E>, ReadReply<E>) -> bool {
    |step: ReadStep<E>, reply: ReadReply<E>| step is Send && reply == ReadReply::<E>::Sent(false)
}

/// The packets that go out are those that were read, once each and in the order in which they
/// were read. Only the last one can be missing: it is about to be sent, or it was handed over after
/// the receiver was gone, which happens at most once and ends reading well.
pub proof fn packets_are_sent_once_and_in_order<E>(replies: Seq<ReadReply<E>>)
    ensures
        ({
            let start = ReadStep::<E>::start();
            let reached = run(start, (), replies);
            let read = packets_read(replies);
            let sent = packets_sent(replies);
            let failed = times(start, (), replies, fails_to_send());
            &&& failed <= 1
            &&& failed == 1 ==> {
                &&& reached == ReadStep::<E>::Finished(Ok(()))
                &&& read.len() > 0
                &&& sent == read.drop_last()
            }
            &&& failed == 0 ==> match reached {
                ReadStep::Send(packet) => read == sent.push(packet),
                _ => read == sent,
            }
        }),
    decreases replies.len(),
{
    if replies.len() > 0 {
        let before = replies.drop_last();
        packets_are_sent_once_and_in_order::<E>(before);
        match run(ReadStep::<E>::start(), (), before) {
            ReadStep::Send(packet) => {
                assert(packets_sent(before).push(packet).drop_last() =~= packets_sent(before));
            },
            _ => {},
        }
    }
}

/// Reading ends well when the producer has been dropped or the receiver is gone, and on no other
/// account.
pub proof fn reading_ends_well_on_shutdown_only<E>(replies: Seq<ReadReply<E>>, reply: ReadReply<E>)
    requires
        !run(ReadStep::<E>::start(), (), replies).is_finished(),
    ensures
        ({
            let pending = run(ReadStep::<E>::start(), (), replies);
            run(ReadStep::<E>::start(), (), replies.push(reply)) == ReadStep::<E>::Finished(Ok(()))
                <==> {
                ||| pending is CheckStopFlag && reply == ReadReply::<E>::StopFlag(true)
                ||| pending is CheckReceiver && reply == ReadReply::<E>::ReceiverClosed(true)
                ||| pending is Send && reply == ReadReply::<E>::Sent(false)
            }
        }),
{
    assert(replies.push(reply).drop_last() =~= replies);
}

/// Reading ends with an error when COM cannot be initialized or a sample cannot be read, and then
/// with that error.
pub proof fn reading_fails_with_the_error_met<E>(
    replies: Seq<ReadReply<E>>,
    reply: ReadReply<E>,
    error: CaptureError<E>,
)
    requires
        !run(ReadStep::<E>::start(), (), replies).is_finished(),
    ensures
        ({
            let pending = run(ReadStep::<E>::start(), (), replies);
            run(ReadStep::<E>::start(), (), replies.push(reply)) == ReadStep::<E>::Finished(
                Err(error),
            ) <==> {
                ||| pending is ReadPacket && reply == ReadReply::<E>::Packet(Err(error))
                ||| pending is InitializeCom && (reply matches ReadReply::ComInitialized(
                    Err(cause),
                ) && error == CaptureError::caused(Failure::InitializeComOnReadThread, cause))
            }
        }),
{
    assert(replies.push(reply).drop_last() =~= replies);
}

/// A sample is only asked for right after the producer was found to be there, and then the
/// receiver.
pub proof fn samples_are_asked_for_while_wanted<E>(
    replies: Seq<ReadReply<E>>,
    reply: ReadReply<E>,
)
    ensures
        ({
            let before = run(ReadStep::<E>::start(), (), replies);
            let reached = run(ReadStep::<E>::start(), (), replies.push(reply));
            &&& reached is ReadPacket && before !is ReadPacket ==> before is CheckReceiver && reply
                == ReadReply::<E>::ReceiverClosed(false)
            &&& reached is CheckReceiver && before !is CheckReceiver ==> before is CheckStopFlag
                && reply == ReadReply::<E>::StopFlag(false)
        }),
{
    assert(replies.push(reply).drop_last() =~= replies);
}

/// The read thread does nothing before COM has been initialized on it.
pub proof fn com_is_initialized_before_reading<E>(replies: Seq<ReadReply<E>>)
    ensures
        match run(ReadStep::<E>::start(), (), replies) {
            ReadStep::InitializeCom { .. } | ReadStep::Finished(Err(_)) => true,
            _ => replies.contains(ReadReply::ComInitialized(Ok(()))),
        },
    decreases replies.len(),
{
    if replies.len() > 0 {
        com_is_initialized_before_reading::<E>(replies.drop_last());
        lemma_arrived(replies);
        match replies.last() {
            ReadReply::ComInitialized(Ok(done)) => {
                assert(done == ());
            },
            _ => {},
        }
    }
}

/// Whether `reply` says that the pending step has asked for a sample.
pub open spec fn asks_for_sample<E>() -> spec_fn(ReadStep<E>, ReadReply<E>) -> bool {
    |step: ReadStep<E>, reply: ReadReply<E>| step is ReadPacket && reply is Packet
}

/// Whether `reply` says that the pending step has handed a packet over to be sent.
pub open spec fn hands_over_packet<E>() -> spec_fn(ReadStep<E>, ReadReply<E>) -> bool {
    |step: ReadStep<E>, reply: ReadReply<E>| step is Send && reply is Sent
}

/// Whether `reply` is a reply to `step`.
pub open spec fn answers<E>(step: ReadStep<E>, reply: ReadReply<E>) -> bool {
    match step {
        ReadStep::InitializeCom { .. } => reply is ComInitialized,
        ReadStep::CheckStopFlag => reply is StopFlag,
        ReadStep::CheckReceiver => reply is ReceiverClosed,
        ReadStep::ReadPacket => reply is Packet,
        ReadStep::Send(_) => reply is Sent,
        ReadStep::Finished(_) => false,
    }
}

/// How many replies the read thread still needs at most once the stop flag is set.
pub open spec fn steps_to_the_end<E>(step: ReadStep<E>) -> nat {
    match step {
        ReadStep::CheckReceiver => 4,
        ReadStep::ReadPacket => 3,
        ReadStep::InitializeCom { .. } | ReadStep::Send(_) => 2,
        ReadStep::CheckStopFlag => 1,
        ReadStep::Finished(_) => 0,
    }
}

/// Once the stop flag is set, whatever the read thread is at, it asks for at most one more sample
/// and hands over at most one more packet.
pub proof fn stop_flag_bounds_reading<E>(pending: ReadStep<E>, replies: Seq<ReadReply<E>>)
    requires
        !replies.contains(ReadReply::StopFlag(false)),
    ensures
        times(pending, (), replies, asks_for_sample()) <= 1,
        times(pending, (), replies, hands_over_packet()) <= 1,
{
    stop_flag_bounds_so_far(pending, replies);
}

/// How much has been read and handed over so far since the stop flag was set.
proof fn stop_flag_bounds_so_far<E>(pending: ReadStep<E>, replies: Seq<ReadReply<E>>)
    requires
        !replies.contains(ReadReply::StopFlag(false)),
    ensures
        ({
            let reached = run(pending, (), replies);
            let asked = times(pending, (), replies, asks_for_sample());
            let handed = times(pending, (), replies, hands_over_packet());
            &&& asked <= 1
            &&& handed <= 1
            &&& (reached is CheckReceiver || reached is ReadPacket || reached is InitializeCom) ==> {
                &&& asked == 0
                &&& handed == 0
            }
            &&& reached is Send ==> handed == 0
        }),
    decreases replies.len(),
{
    if replies.len() > 0 {
        lemma_arrived(replies);
        stop_flag_bounds_so_far(pending, replies.drop_last());
    }
}

/// Once the stop flag is set, the read thread ends after a few more replies: at most as many as
/// [`steps_to_the_end`] counts.
pub proof fn stop_flag_ends_reading<E>(pending: ReadStep<E>, replies: Seq<ReadReply<E>>)
    requires
        !replies.contains(ReadReply::StopFlag(false)),
        forall|i: int|
            0 <= i < replies.len() ==> answers(
                #[trigger] run(pending, (), replies.take(i)),
                replies[i],
            ),
    ensures
        replies.len() + steps_to_the_end(run(pending, (), replies)) <= steps_to_the_end(pending),
    decreases replies.len(),
{
    if replies.len() > 0 {
        let before = replies.drop_last();
        lemma_arrived(replies);
        assert forall|i: int| 0 <= i < before.len() implies answers(
            #[trigger] run(pending, (), before.take(i)),
            before[i],
        ) by {
            assert(before.take(i) =~= replies.take(i));
            assert(answers(run(pending, (), replies.take(i)), replies[i]));
        }
        stop_flag_ends_reading(pending, before);
        assert(replies.take(replies.len() - 1) =~= before);
        assert(answers(run(pending, (), replies.take(replies.len() - 1)), replies.last()));
    }
}

/// The first check that sees the stop flag ends reading well: nothing is read or handed over after
/// it.
pub proof fn check_of_a_set_stop_flag_ends_well<E>(more: Seq<ReadReply<E>>)
    ensures
        ({
            let pending = ReadStep::<E>::CheckStopFlag;
            let replies = seq![ReadReply::<E>::StopFlag(true)] + more;
            &&& run(pending, (), replies) == ReadStep::<E>::Finished(Ok(()))
            &&& times(pending, (), replies, asks_for_sample()) == 0
            &&& times(pending, (), replies, hands_over_packet()) == 0
        }),
    decreases more.len(),
{
    let replies = seq![ReadReply::<E>::StopFlag(true)] + more;
    if more.len() > 0 {
        check_of_a_set_stop_flag_ends_well::<E>(more.drop_last());
        assert(replies.drop_last() =~= seq![ReadReply::<E>::StopFlag(true)] + more.drop_last());
    } else {
        assert(replies.drop_last() =~= Seq::empty());
        assert(replies.last() == ReadReply::<E>::StopFlag(true));
        reveal_with_fuel(run, 2);
        reveal_with_fuel(times, 2);
    }
}

/// Reading only ends with an error if COM cannot be initialized or a sample cannot be read, whatever
/// the read thread is at.
pub proof fn reading_fails_on_calls_only<E>(
    pending: ReadStep<E>,
    replies: Seq<ReadReply<E>>,
    error: CaptureError<E>,
)
    requires
        pending !is Finished,
        run(pending, (), replies) == ReadStep::<E>::Finished(Err(error)),
    ensures
        replies.contains(ReadReply::Packet(Err(error))) || (error.failure
            == Failure::InitializeComOnReadThread && (error.cause matches Some(cause)
            && replies.contains(ReadReply::ComInitialized(Err(cause))))),
    decreases replies.len(),
{
    if replies.len() > 0 {
        lemma_arrived(replies);
        let before = replies.drop_last();
        if run(pending, (), before) == ReadStep::<E>::Finished(Err(error)) {
            reading_fails_on_calls_only(pending, before, error);
        }
    }
}

/// The packet that is sent on is the one that was read, as it was read. A sample that is missing, and
/// a packet that went out, lead back to the stop flag; an error of reading is returned as it is, and
/// that of COM keeps its cause. A reply to another step than the pending one leads nowhere.
pub proof fn read_loop_hands_on_what_it_got<E>(step: ReadStep<E>, reply: ReadReply<E>)
    ensures
        ReadStep::<E>::start() matches ReadStep::InitializeCom { apartment } && apartment
            == Apartment::Multithreaded,
        step is InitializeCom ==> {
            &&& reply matches ReadReply::ComInitialized(Ok(_)) ==> step.after((), reply)
                is CheckStopFlag
            &&& reply matches ReadReply::ComInitialized(Err(cause)) ==> (step.after((), reply)
                matches ReadStep::Finished(Err(error)) && error.failure
                == Failure::InitializeComOnReadThread && error.cause == Some(cause))
            &&& reply !is ComInitialized ==> step.after((), reply) == step
        },
        step is CheckStopFlag ==> {
            &&& reply == ReadReply::<E>::StopFlag(false) ==> step.after((), reply) is CheckReceiver
            &&& reply == ReadReply::<E>::StopFlag(true) ==> step.after((), reply) == ReadStep::<
                E,
            >::Finished(Ok(()))
            &&& reply !is StopFlag ==> step.after((), reply) == step
        },
        step is CheckReceiver ==> {
            &&& reply == ReadReply::<E>::ReceiverClosed(false) ==> step.after((), reply)
                is ReadPacket
            &&& reply == ReadReply::<E>::ReceiverClosed(true) ==> step.after((), reply)
                == ReadStep::<E>::Finished(Ok(()))
            &&& reply !is ReceiverClosed ==> step.after((), reply) == step
        },
        step is ReadPacket ==> {
            &&& reply matches ReadReply::Packet(Ok(Some(packet))) ==> step.after((), reply)
                == ReadStep::<E>::Send(packet)
            &&& reply matches ReadReply::Packet(Ok(None)) ==> step.after((), reply) is CheckStopFlag
            &&& reply matches ReadReply::Packet(Err(error)) ==> step.after((), reply)
                == ReadStep::<E>::Finished(Err(error))
            &&& reply !is Packet ==> step.after((), reply) == step
        },
        step is Send ==> {
            &&& reply == ReadReply::<E>::Sent(true) ==> step.after((), reply) is CheckStopFlag
            &&& reply == ReadReply::<E>::Sent(false) ==> step.after((), reply) == ReadStep::<
                E,
            >::Finished(Ok(()))
            &&& reply !is Sent ==> step.after((), reply) == step
        },
        step is Finished ==> step.after((), reply) == step,
        after_send::<E>(true) is CheckStopFlag,
        after_send::<E>(false) == ReadStep::<E>::Finished(Ok(())),
{
}

/// What a read thread returned is handed on as it is. Where it could not be joined, the failure says
/// so and keeps its cause.
pub proof fn thread_result_is_handed_on<E>(result: Result<(), CaptureError<E>>, cause: E)
    ensures
        joined_outcome::<E>(Ok(result)) == result,
        joined_outcome::<E>(Err(cause)) matches Err(error) && error.failure
            == Failure::JoinReadThread && error.cause == Some(cause),
{
}

} // verus!
