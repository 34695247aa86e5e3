//! The driver: it reads from a camera for a while and appends what it gets to a file.

use vstd::prelude::*;

use crate::error::CaptureError;
use crate::error::Failure;
use crate::machine::run;
use crate::machine::times;
use crate::machine::Machine;
use crate::media::MediaPacket;
use crate::payload::bytes_content;
use crate::reading::packets_are_sent_once_and_in_order;
use crate::reading::packets_read;
use crate::reading::packets_sent;
use crate::reading::ReadReply;

verus! {

/// How long the producer is read from, in seconds.
pub const CAPTURE_SECONDS: u64 = 10;

/// How long the router is waited for once the producer is gone, in seconds.
pub const ROUTER_SECONDS: u64 = 2;

/// How the output file is opened.
#[derive(Clone, Copy, Debug, PartialEq, Eq, Structural)]
pub struct OutputOptions {
    /// Whether a missing file is created.
    pub create: bool,
    /// Whether what is written goes behind what is there.
    pub append: bool,
    pub write: bool,
}

/// How the output file is opened: what it holds is kept.
#[verifier::allow_in_spec]
pub fn output_options() -> OutputOptions
    returns
        (OutputOptions { create: true, append: true, write: true }),
{
    OutputOptions { create: true, append: true, write: true }
}

/// The name of the output file.
pub fn output_path() -> (res: &'static str)
    ensures
        res@ == "output.h265"@,
{
    "output.h265"
}

/// What is said when the time for reading is up.
pub fn shutdown_notice() -> (res: &'static str)
    ensures
        res@ == "INFO: Nezumi Driver shutting down. H.265 dump complete."@,
{
    "INFO: Nezumi Driver shutting down. H.265 dump complete."
}

/// What became of something that only so much time was given to.
pub enum Timed<T> {
    Done(T),
    TimedOut,
}

/// The next thing that the router does.
pub enum RouterStep<E> {
    /// Wait for a packet.
    Receive,
    /// Write the packet's payload to the output.
    Write(MediaPacket),
    /// There is nothing left to do.
    Finished(Result<(), CaptureError<E>>),
}

/// What the router found.
pub enum RouterReply<E> {
    /// The packet, or none once every sender is gone.
    Received(Option<MediaPacket>),
    Written(Result<(), E>),
}

impl<E> Machine for RouterStep<E> {
    type Setting = ();

    type Reply = RouterReply<E>;

    /// A reply to another step than the pending one changes nothing.
    open spec fn after(self, setting: (), reply: RouterReply<E>) -> Self {
        match (self, reply) {
            (RouterStep::Receive, RouterReply::Received(Some(packet))) => RouterStep::Write(packet),
            (RouterStep::Receive, RouterReply::Received(None)) => RouterStep::Finished(Ok(())),
            (RouterStep::Write(_), RouterReply::Written(outcome)) => after_write(outcome),
            _ => self,
        }
    }

    open spec fn is_finished(self) -> bool {
        self is Finished
    }

    proof fn result_stands(self, setting: (), reply: RouterReply<E>) {
    }
}

/// What comes after a packet that was handed over to be written, whichever it was.
#[verifier::allow_in_spec]
pub fn after_write<E>(outcome: Result<(), E>) -> RouterStep<E>
    returns
        (match outcome {
            Ok(()) => RouterStep::<E>::Receive,
            Err(cause) => RouterStep::<E>::Finished(
                Err(CaptureError::caused(Failure::WriteOutput, cause)),
            ),
        }),
{
    match outcome {
        Ok(()) => RouterStep::Receive,
        Err(cause) => RouterStep::Finished(Err(CaptureError::caused(Failure::WriteOutput, cause))),
    }
}

/// Takes what the pending step found and gives the next one.
pub fn route<E>(step: RouterStep<E>, reply: RouterReply<E>) -> (next: RouterStep<E>)
    ensures
        next == step.after((), reply),
{
    match (step, reply) {
        (RouterStep::Receive, RouterReply::Received(received)) => match received {
            Some(packet) => RouterStep::Write(packet),
            None => RouterStep::Finished(Ok(())),
        },
        (RouterStep::Write(_), RouterReply::Written(outcome)) => after_write(outcome),
        (step, _) => step,
    }
}

/// The payloads of `packets`, one behind the other.
pub open spec fn dump(packets: Seq<MediaPacket>) -> Seq<u8> {
    packets.map_values(|packet: MediaPacket| packet@.payload).flatten()
}

/// The packets that have been received, in order.
pub open spec fn packets_received<E>(replies: Seq<RouterReply<E>>) -> Seq<MediaPacket>
    decreases replies.len(),
{
    if replies.len() == 0 {
        Seq::empty()
    } else {
        let before = packets_received(replies.drop_last());
        match (run(RouterStep::<E>::Receive, (), replies.drop_last()), replies.last()) {
            (RouterStep::Receive, RouterReply::Received(Some(packet))) => before.push(packet),
            _ => before,
        }
    }
}

/// The payloads that were written whole, one behind the other. Where a write failed, the file can
/// hold the beginning of one more payload: see [`file_may_hold`].
pub open spec fn output<E>(replies: Seq<RouterReply<E>>) -> Seq<u8>
    decreases replies.len(),
{
    if replies.len() == 0 {
        Seq::empty()
    } else {
        let before = output(replies.drop_last());
        match (run(RouterStep::<E>::Receive, (), replies.drop_last()), replies.last()) {
            (RouterStep::Write(packet), RouterReply::Written(Ok(()))) => before
                + packet@.payload,
            _ => before,
        }
    }
}

/// One more packet is its payload behind the others.
proof fn dump_one_more(packets: Seq<MediaPacket>, packet: MediaPacket)
    ensures
        dump(packets.push(packet)) == dump(packets) + packet@.payload,
{
    let payload = |packet: MediaPacket| packet@.payload;
    assert(packets.push(packet).map_values(payload) =~= packets.map_values(payload).push(
        packet@.payload,
    ));
    packets.map_values(payload).lemma_flatten_push(packet@.payload);
}

/// What was written whole is the payloads of the packets that were received, each once and in the
/// order in which they came. Only the last one can be missing: it is about to be written, or
/// writing it failed.
pub proof fn output_is_the_payloads_received<E>(replies: Seq<RouterReply<E>>)
    ensures
        ({
            let reached = run(RouterStep::<E>::Receive, (), replies);
            let received = packets_received(replies);
            match reached {
                RouterStep::Receive | RouterStep::Finished(Ok(())) => output(replies) == dump(
                    received,
                ),
                RouterStep::Write(packet) => {
                    &&& received.len() > 0
                    &&& received.last() == packet
                    &&& output(replies) == dump(received.drop_last())
                },
                RouterStep::Finished(Err(error)) => {
                    &&& received.len() > 0
                    &&& error.failure == Failure::WriteOutput
                    &&& output(replies) == dump(received.drop_last())
                },
            }
        }),
    decreases replies.len(),
{
    if replies.len() == 0 {
        assert(dump(Seq::empty()) =~= Seq::empty()) by {
            assert(Seq::<MediaPacket>::empty().map_values(
                |packet: MediaPacket| packet@.payload,
            ).len() == 0);
        }
    } else {
        let before = replies.drop_last();
        let received = packets_received(before);
        output_is_the_payloads_received::<E>(before);
        match (run(RouterStep::<E>::Receive, (), before), replies.last()) {
            (RouterStep::Receive, RouterReply::Received(Some(packet))) => {
                assert(received.push(packet).drop_last() =~= received);
            },
            (RouterStep::Write(packet), RouterReply::Written(Ok(()))) => {
                dump_one_more(received.drop_last(), packet);
                assert(received.drop_last().push(packet) =~= received);
            },
            _ => {},
        }
    }
}

/// Whether a write of `payload` that came back with `outcome` can have put `added` into the file: a
/// write that succeeded has handed over the whole payload, one that failed may have stopped
/// anywhere. When what was handed over reaches the disk is up to the file's writer.
pub open spec fn write_may_add<E>(
    payload: Seq<u8>,
    outcome: Result<(), E>,
    added: Seq<u8>,
) -> bool {
    match outcome {
        Ok(()) => added == payload,
        Err(_) => added.is_prefix_of(payload),
    }
}

/// Whether `appended` can be what the file holds behind what it held before, once the writes in
/// `replies` have come back.
pub open spec fn file_may_hold<E>(replies: Seq<RouterReply<E>>, appended: Seq<u8>) -> bool
    decreases replies.len(),
{
    if replies.len() == 0 {
        appended.len() == 0
    } else {
        let before = replies.drop_last();
        match (run(RouterStep::<E>::Receive, (), before), replies.last()) {
            (RouterStep::Write(packet), RouterReply::Written(outcome)) => exists|n: int|
                0 <= n <= appended.len() && file_may_hold(before, #[trigger] appended.take(n))
                    && write_may_add(packet@.payload, outcome, appended.skip(n)),
            _ => file_may_hold(before, appended),
        }
    }
}

/// The file holds the payloads that were written whole and, where a write failed, behind them some
/// beginning of the payload whose write failed, which is that of the packet received last. Nothing
/// is written after that.
pub proof fn file_holds_whole_payloads_and_the_beginning_of_a_failed_one<E>(
    replies: Seq<RouterReply<E>>,
    appended: Seq<u8>,
)
    requires
        file_may_hold(replies, appended),
    ensures
        match run(RouterStep::<E>::Receive, (), replies) {
            RouterStep::Finished(Err(_)) => {
                let whole = output(replies);
                &&& packets_received(replies).len() > 0
                &&& whole.is_prefix_of(appended)
                &&& appended.skip(whole.len() as int).is_prefix_of(
                    packets_received(replies).last()@.payload,
                )
            },
            _ => appended == output(replies),
        },
    decreases replies.len(),
{
    if replies.len() == 0 {
        assert(appended =~= Seq::empty());
    } else {
        let before = replies.drop_last();
        match (run(RouterStep::<E>::Receive, (), before), replies.last()) {
            (RouterStep::Write(packet), RouterReply::Written(outcome)) => {
                let n = choose|n: int|
                    0 <= n <= appended.len() && file_may_hold(before, #[trigger] appended.take(n))
                        && write_may_add(packet@.payload, outcome, appended.skip(n));
                file_holds_whole_payloads_and_the_beginning_of_a_failed_one::<E>(
                    before,
                    appended.take(n),
                );
                output_is_the_payloads_received::<E>(before);
                assert(appended =~= appended.take(n) + appended.skip(n));
            },
            _ => {
                file_holds_whole_payloads_and_the_beginning_of_a_failed_one::<E>(before, appended);
            },
        }
    }
}

/// From the camera to the file: where the router has received some of the packets that were sent,
/// from the first on, what was written whole is the payloads of as many of the packets that were
/// read, from the first on and in the order in which they were read. At most the packet received
/// last is missing.
pub proof fn output_is_the_payloads_read<E, F>(
    reader: Seq<ReadReply<E>>,
    router: Seq<RouterReply<F>>,
)
    requires
        packets_received(router).is_prefix_of(packets_sent(reader)),
    ensures
        ({
            let received = packets_received(router).len() as int;
            let written = match run(RouterStep::<F>::Receive, (), router) {
                RouterStep::Receive | RouterStep::Finished(Ok(())) => received,
                RouterStep::Write(_) | RouterStep::Finished(Err(_)) => received - 1,
            };
            &&& 0 <= written <= packets_read(reader).len()
            &&& output(router) == dump(packets_read(reader).take(written))
        }),
{
    output_is_the_payloads_received::<F>(router);
    packets_are_sent_once_and_in_order::<E>(reader);
    let received = packets_received(router);
    let read = packets_read(reader);
    assert(received =~= read.take(received.len() as int));
    if received.len() > 0 {
        assert(received.drop_last() =~= read.take(received.len() - 1));
    }
}

/// The next thing that the driver does.
pub enum DriverStep<E> {
    /// Set the producer up.
    CreateProducer,
    /// Open the output file with `options`.
    OpenOutput { options: OutputOptions },
    /// Start the router, and read from the producer for at most `seconds`.
    RunProducer { seconds: u64 },
    /// Say that the time for reading is up.
    Announce,
    /// Drop the producer, so that reading stops.
    DropProducer,
    /// Wait for the router for at most `seconds`.
    JoinRouter { seconds: u64 },
    /// There is nothing left to do.
    Finished(Result<(), CaptureError<E>>),
}

/// What the driver found.
pub enum DriverReply<E> {
    ProducerCreated(Result<(), E>),
    OutputOpened(Result<(), E>),
    ProducerRan(Timed<Result<(), E>>),
    Announced,
    ProducerDropped,
    /// What waiting for the router's task came back with: whether it could be joined, and what it
    /// returned.
    RouterJoined(Timed<Result<Result<(), CaptureError<E>>, E>>),
}

impl<E> Machine for DriverStep<E> {
    type Setting = ();

    type Reply = DriverReply<E>;

    /// A reply to another step than the pending one changes nothing.
    open spec fn after(self, setting: (), reply: DriverReply<E>) -> Self {
        match (self, reply) {
            (DriverStep::CreateProducer, DriverReply::ProducerCreated(Ok(()))) =>
                DriverStep::OpenOutput { options: output_options() },
            (DriverStep::CreateProducer, DriverReply::ProducerCreated(Err(cause))) =>
                DriverStep::Finished(Err(CaptureError::caused(Failure::InitializeProducer, cause))),
            (DriverStep::OpenOutput { .. }, DriverReply::OutputOpened(Ok(()))) =>
                DriverStep::RunProducer { seconds: CAPTURE_SECONDS },
            (DriverStep::OpenOutput { .. }, DriverReply::OutputOpened(Err(cause))) =>
                DriverStep::Finished(Err(CaptureError::caused(Failure::OpenOutput, cause))),
            (DriverStep::RunProducer { .. }, DriverReply::ProducerRan(Timed::TimedOut)) =>
                DriverStep::Announce,
            (DriverStep::RunProducer { .. }, DriverReply::ProducerRan(Timed::Done(Ok(())))) =>
                DriverStep::DropProducer,
            (DriverStep::RunProducer { .. }, DriverReply::ProducerRan(Timed::Done(Err(cause)))) =>
                DriverStep::Finished(Err(CaptureError::caused(Failure::ProducerEnded, cause))),
            (DriverStep::Announce, DriverReply::Announced) => DriverStep::DropProducer,
            (DriverStep::DropProducer, DriverReply::ProducerDropped) => DriverStep::JoinRouter {
                seconds: ROUTER_SECONDS,
            },
            (DriverStep::JoinRouter { .. }, DriverReply::RouterJoined(Timed::TimedOut)) =>
                DriverStep::Finished(Ok(())),
            (DriverStep::JoinRouter { .. }, DriverReply::RouterJoined(Timed::Done(Ok(result)))) =>
                DriverStep::Finished(result),
            (DriverStep::JoinRouter { .. }, DriverReply::RouterJoined(Timed::Done(Err(cause)))) =>
                DriverStep::Finished(Err(CaptureError::caused(Failure::JoinRouter, cause))),
            _ => self,
        }
    }

    open spec fn is_finished(self) -> bool {
        self is Finished
    }

    proof fn result_stands(self, setting: (), reply: DriverReply<E>) {
    }
}

/// Takes what the pending step found and gives the next one.
pub fn drive<E>(step: DriverStep<E>, reply: DriverReply<E>) -> (next: DriverStep<E>)
    ensures
        next == step.after((), reply),
{
    match (step, reply) {
        (DriverStep::CreateProducer, DriverReply::ProducerCreated(outcome)) => match outcome {
            Ok(()) => DriverStep::OpenOutput { options: output_options() },
            Err(cause) => DriverStep::Finished(
                Err(CaptureError::caused(Failure::InitializeProducer, cause)),
            ),
        },
        (DriverStep::OpenOutput { .. }, DriverReply::OutputOpened(outcome)) => match outcome {
            Ok(()) => DriverStep::RunProducer { seconds: CAPTURE_SECONDS },
            Err(cause) => DriverStep::Finished(
                Err(CaptureError::caused(Failure::OpenOutput, cause)),
            ),
        },
        (DriverStep::RunProducer { .. }, DriverReply::ProducerRan(ran)) => match ran {
            Timed::TimedOut => DriverStep::Announce,
            Timed::Done(Ok(())) => DriverStep::DropProducer,
            Timed::Done(Err(cause)) => DriverStep::Finished(
                Err(CaptureError::caused(Failure::ProducerEnded, cause)),
            ),
        },
        (DriverStep::Announce, DriverReply::Announced) => DriverStep::DropProducer,
        (DriverStep::DropProducer, DriverReply::ProducerDropped) => DriverStep::JoinRouter {
            seconds: ROUTER_SECONDS,
        },
        (DriverStep::JoinRouter { .. }, DriverReply::RouterJoined(joined)) => match joined {
            Timed::TimedOut => DriverStep::Finished(Ok(())),
            Timed::Done(Ok(result)) => DriverStep::Finished(result),
            Timed::Done(Err(cause)) => DriverStep::Finished(
                Err(CaptureError::caused(Failure::JoinRouter, cause)),
            ),
        },
        (step, _) => step,
    }
}

/// What the driver returns. Running out of time is a normal end, for the producer as for the
/// router.
pub open spec fn driver_outcome<E>(
    created: Result<(), E>,
    opened: Result<(), E>,
    ran: Timed<Result<(), E>>,
    joined: Timed<Result<Result<(), CaptureError<E>>, E>>,
) -> Result<(), CaptureError<E>> {
    match (created, opened, ran) {
        (Err(cause), _, _) => Err(CaptureError::caused(Failure::InitializeProducer, cause)),
        (Ok(()), Err(cause), _) => Err(CaptureError::caused(Failure::OpenOutput, cause)),
        (Ok(()), Ok(()), Timed::Done(Err(cause))) => Err(
            CaptureError::caused(Failure::ProducerEnded, cause),
        ),
        (Ok(()), Ok(()), _) => match joined {
            Timed::TimedOut => Ok(()),
            Timed::Done(Ok(result)) => result,
            Timed::Done(Err(cause)) => Err(CaptureError::caused(Failure::JoinRouter, cause)),
        },
    }
}

/// Whatever the driver finds, it returns what [`driver_outcome`] says.
pub proof fn driver_returns_its_outcome<E>(
    created: Result<(), E>,
    opened: Result<(), E>,
    ran: Timed<Result<(), E>>,
    joined: Timed<Result<Result<(), CaptureError<E>>, E>>,
)
    ensures
        run(
            DriverStep::<E>::CreateProducer,
            (),
            seq![
                DriverReply::ProducerCreated(created),
                DriverReply::OutputOpened(opened),
                DriverReply::ProducerRan(ran),
                DriverReply::Announced,
                DriverReply::ProducerDropped,
                DriverReply::RouterJoined(joined),
            ],
        ) == DriverStep::<E>::Finished(driver_outcome(created, opened, ran, joined)),
{
    reveal_with_fuel(run, 7);
}

/// Whether `reply` says that the pending step has dropped the producer.
pub open spec fn drops_producer<E>() -> spec_fn(DriverStep<E>, DriverReply<E>) -> bool {
    |step: DriverStep<E>, reply: DriverReply<E>| step is DropProducer && reply is ProducerDropped
}

/// Whether `reply` says that the pending step has said that the time is up.
pub open spec fn announces<E>() -> spec_fn(DriverStep<E>, DriverReply<E>) -> bool {
    |step: DriverStep<E>, reply: DriverReply<E>| step is Announce && reply is Announced
}

/// Whether `reply` says that the producer ran out of time.
pub open spec fn times_out<E>() -> spec_fn(DriverStep<E>, DriverReply<E>) -> bool {
    |step: DriverStep<E>, reply: DriverReply<E>|
        step is RunProducer && reply == DriverReply::<E>::ProducerRan(Timed::TimedOut)
}

/// The producer is dropped at most once. The router is only waited for after that, and the driver
/// only ends well after that.
pub proof fn producer_is_dropped_before_the_router_is_joined<E>(replies: Seq<DriverReply<E>>)
    ensures
        ({
            let start = DriverStep::<E>::CreateProducer;
            let reached = run(start, (), replies);
            let dropped = times(start, (), replies, drops_producer());
            &&& dropped <= 1
            &&& reached is JoinRouter ==> dropped == 1
            &&& (reached matches DriverStep::Finished(Ok(()))) ==> dropped == 1
            &&& !(reached is JoinRouter || reached is Finished) ==> dropped == 0
        }),
    decreases replies.len(),
{
    if replies.len() > 0 {
        producer_is_dropped_before_the_router_is_joined::<E>(replies.drop_last());
    }
}

/// The notice is given once where the producer ran out of time, and else not at all.
pub proof fn notice_is_given_when_time_is_up<E>(replies: Seq<DriverReply<E>>)
    ensures
        ({
            let start = DriverStep::<E>::CreateProducer;
            let reached = run(start, (), replies);
            let notices = times(start, (), replies, announces());
            let timeouts = times(start, (), replies, times_out());
            &&& timeouts <= 1
            &&& timeouts == notices + if reached is Announce {
                1nat
            } else {
                0nat
            }
            &&& (reached is CreateProducer || reached is OpenOutput || reached is RunProducer)
                ==> timeouts == 0
        }),
    decreases replies.len(),
{
    if replies.len() > 0 {
        notice_is_given_when_time_is_up::<E>(replies.drop_last());
    }
}

/// The packet that is written is the one that was received, as it was received. The router goes on
/// after a good write, ends well once every sender is gone, and ends with a failure that keeps its
/// cause where a write fails. A reply to another step than the pending one leads nowhere.
pub proof fn router_hands_on_what_it_got<E>(step: RouterStep<E>, reply: RouterReply<E>)
    ensures
        step is Receive ==> {
            &&& reply matches RouterReply::Received(Some(packet)) ==> step.after((), reply)
                == RouterStep::<E>::Write(packet)
            &&& reply matches RouterReply::Received(None) ==> step.after((), reply) == RouterStep::<
                E,
            >::Finished(Ok(()))
            &&& reply !is Received ==> step.after((), reply) == step
        },
        step is Write ==> {
            &&& reply matches RouterReply::Written(Ok(_)) ==> step.after((), reply) is Receive
            &&& reply matches RouterReply::Written(Err(cause)) ==> (step.after((), reply)
                matches RouterStep::Finished(Err(error)) && error.failure == Failure::WriteOutput
                && error.cause == Some(cause))
            &&& reply !is Written ==> step.after((), reply) == step
        },
        step is Finished ==> step.after((), reply) == step,
{
}

/// What follows a write does not depend on what was written.
pub proof fn write_is_followed_by_the_next_packet<E>(cause: E)
    ensures
        after_write::<E>(Ok(())) is Receive,
        after_write::<E>(Err(cause)) matches RouterStep::Finished(Err(error)) && error.failure
            == Failure::WriteOutput && error.cause == Some(cause),
{
}

/// Nothing is dumped of no packets, and of one more packet its payload behind the others.
pub proof fn packets_are_dumped_one_by_one(packets: Seq<MediaPacket>, packet: MediaPacket)
    ensures
        dump(Seq::<MediaPacket>::empty()).len() == 0,
        dump(packets.push(packet)) == dump(packets) + bytes_content(packet.payload),
{
    dump_one_more(packets, packet);
    assert(Seq::<MediaPacket>::empty().map_values(|packet: MediaPacket| packet@.payload).len() == 0);
}

/// The driver ends well exactly if the producer was set up, the output was opened, the producer did
/// not fail while it was read from, and the router ended well or was not waited for any longer. Else
/// it returns the first failure with its cause, and that of the router as it is.
pub proof fn driver_ends_well_unless_something_fails<E>(
    created: Result<(), E>,
    opened: Result<(), E>,
    ran: Timed<Result<(), E>>,
    joined: Timed<Result<Result<(), CaptureError<E>>, E>>,
    error: CaptureError<E>,
)
    ensures
        ({
            let reached = run(
                DriverStep::<E>::CreateProducer,
                (),
                seq![
                    DriverReply::ProducerCreated(created),
                    DriverReply::OutputOpened(opened),
                    DriverReply::ProducerRan(ran),
                    DriverReply::Announced,
                    DriverReply::ProducerDropped,
                    DriverReply::RouterJoined(joined),
                ],
            );
            &&& reached == DriverStep::<E>::Finished(Ok(())) <==> {
                &&& created is Ok
                &&& opened is Ok
                &&& !(ran matches Timed::Done(Err(_)))
                &&& joined is TimedOut || (joined matches Timed::Done(Ok(Ok(_))))
            }
            &&& reached == DriverStep::<E>::Finished(Err(error)) <==> match (created, opened) {
                (Err(cause), _) => error.failure == Failure::InitializeProducer && error.cause
                    == Some(cause),
                (Ok(_), Err(cause)) => error.failure == Failure::OpenOutput && error.cause == Some(
                    cause,
                ),
                (Ok(_), Ok(_)) => match (ran, joined) {
                    (Timed::Done(Err(cause)), _) => error.failure == Failure::ProducerEnded
                        && error.cause == Some(cause),
                    (_, Timed::Done(Err(cause))) => error.failure == Failure::JoinRouter
                        && error.cause == Some(cause),
                    (_, Timed::Done(Ok(Err(met)))) => error == met,
                    (_, Timed::Done(Ok(Ok(_)))) => false,
                    (_, Timed::TimedOut) => false,
                },
            }
        }),
{
    reveal_with_fuel(run, 7);
    match joined {
        Timed::Done(Ok(Ok(done))) => {
            assert(done == ());
        },
        _ => {},
    }
}

/// The output is opened to be created and appended to. The producer is read from for ten seconds,
/// and the router is waited for two. What is announced is that the producer ran out of time, and a
/// producer that failed is neither announced nor waited for. A reply to another step than the
/// pending one leads nowhere.
pub proof fn driver_takes_its_time<E>(step: DriverStep<E>, reply: DriverReply<E>)
    ensures
        step is CreateProducer ==> {
            &&& reply matches DriverReply::ProducerCreated(Ok(_)) ==> (step.after((), reply)
                matches DriverStep::OpenOutput { options } && options.create && options.append
                && options.write)
            &&& reply !is ProducerCreated ==> step.after((), reply) == step
        },
        step is OpenOutput ==> {
            &&& reply matches DriverReply::OutputOpened(Ok(_)) ==> step.after((), reply) == (
            DriverStep::RunProducer::<E> { seconds: 10 })
            &&& reply !is OutputOpened ==> step.after((), reply) == step
        },
        step is RunProducer ==> {
            &&& reply matches DriverReply::ProducerRan(Timed::TimedOut) ==> step.after((), reply)
                is Announce
            &&& reply matches DriverReply::ProducerRan(Timed::Done(Ok(_))) ==> step.after((), reply)
                is DropProducer
            &&& reply !is ProducerRan ==> step.after((), reply) == step
        },
        step is Announce ==> {
            &&& reply is Announced ==> step.after((), reply) is DropProducer
            &&& reply !is Announced ==> step.after((), reply) == step
        },
        step is DropProducer ==> {
            &&& reply is ProducerDropped ==> step.after((), reply) == (DriverStep::JoinRouter::<
                E,
            > { seconds: 2 })
            &&& reply !is ProducerDropped ==> step.after((), reply) == step
        },
        step is JoinRouter && reply !is RouterJoined ==> step.after((), reply) == step,
        step is Finished ==> step.after((), reply) == step,
{
}

} // verus!
