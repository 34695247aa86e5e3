//! The read threads of a producer: who starts them, and that there is one at a time.

use vstd::prelude::*;

use crate::error::CaptureError;
use crate::error::Failure;
use crate::machine::lemma_arrived;
use crate::machine::run;
use crate::machine::Machine;
use crate::media::MediaTrack;
use crate::reading::join_read_thread;
use crate::reading::joined_outcome;
use crate::reading::ReadReply;
use crate::reading::ReadStep;

verus! {

/// The next thing that a caller who wants to read from a producer does. It outlives the call: where
/// a call is given up half way, the next one finds what it has left behind.
pub enum BeginStep<E> {
    /// Nobody reads, and no read thread is there.
    Idle,
    /// Set the stop flag of the read thread that an earlier call has left behind.
    StopEarlier,
    /// Wait for that thread to end.
    JoinEarlier,
    /// Find the track to read.
    FindTrack,
    /// Start a read thread for `track`, with a stop flag of its own.
    StartWorker { track: MediaTrack },
    /// Wait for the read thread to end.
    JoinWorker,
    /// There is nothing left to do, and no read thread is there.
    Finished(Result<(), CaptureError<E>>),
    /// The producer is gone, so nobody can read from it any more. A read thread that was left behind
    /// ends by itself.
    Dropped,
}

/// What a caller who wants to read from a producer found.
pub enum BeginReply<E> {
    /// Reading is asked for. A call that was under way before has been given up.
    Called,
    StopFlagSet,
    /// The thread that an earlier call has left behind is gone, whatever it returned.
    EarlierEnded,
    Track(Result<MediaTrack, CaptureError<E>>),
    Started,
    /// What waiting for the read thread came back with: whether it could be joined, and what it
    /// returned.
    Joined(Result<Result<(), CaptureError<E>>, E>),
    /// The producer has been dropped. A call that was under way has been given up.
    ProducerDropped,
}

impl<E> BeginStep<E> {
    /// Whether a read thread can be there that nobody has seen the end of.
    pub open spec fn may_have_worker(self) -> bool {
        self is StopEarlier || self is JoinEarlier || self is JoinWorker || self is Dropped
    }
}

impl<E> Machine for BeginStep<E> {
    type Setting = ();

    type Reply = BeginReply<E>;

    /// A reply to another step than the pending one changes nothing.
    open spec fn after(self, setting: (), reply: BeginReply<E>) -> Self {
        match (self, reply) {
            (BeginStep::Dropped, _) | (_, BeginReply::ProducerDropped) => BeginStep::Dropped,
            (_, BeginReply::Called) => if self.may_have_worker() {
                BeginStep::StopEarlier
            } else {
                BeginStep::FindTrack
            },
            (BeginStep::StopEarlier, BeginReply::StopFlagSet) => BeginStep::JoinEarlier,
            (BeginStep::JoinEarlier, BeginReply::EarlierEnded) => BeginStep::FindTrack,
            (BeginStep::FindTrack, BeginReply::Track(Ok(track))) => BeginStep::StartWorker {
                track,
            },
            (BeginStep::FindTrack, BeginReply::Track(Err(error))) => BeginStep::Finished(
                Err(error),
            ),
            (BeginStep::StartWorker { .. }, BeginReply::Started) => BeginStep::JoinWorker,
            (BeginStep::JoinWorker, BeginReply::Joined(joined)) => BeginStep::Finished(
                joined_outcome(joined),
            ),
            _ => self,
        }
    }

    /// A call that has returned can be followed by another, until the producer is gone.
    open spec fn is_finished(self) -> bool {
        self is Dropped
    }

    proof fn result_stands(self, setting: (), reply: BeginReply<E>) {
    }
}

/// Takes what the pending step found and gives the next one.
pub fn begin_reading<E>(step: BeginStep<E>, reply: BeginReply<E>) -> (next: BeginStep<E>)
    ensures
        next == step.after((), reply),
{
    match (step, reply) {
        (BeginStep::Dropped, _) | (_, BeginReply::ProducerDropped) => BeginStep::Dropped,
        (step, BeginReply::Called) => match step {
            BeginStep::StopEarlier | BeginStep::JoinEarlier | BeginStep::JoinWorker =>
                BeginStep::StopEarlier,
            _ => BeginStep::FindTrack,
        },
        (BeginStep::StopEarlier, BeginReply::StopFlagSet) => BeginStep::JoinEarlier,
        (BeginStep::JoinEarlier, BeginReply::EarlierEnded) => BeginStep::FindTrack,
        (BeginStep::FindTrack, BeginReply::Track(outcome)) => match outcome {
            Ok(track) => BeginStep::StartWorker { track },
            Err(error) => BeginStep::Finished(Err(error)),
        },
        (BeginStep::StartWorker { .. }, BeginReply::Started) => BeginStep::JoinWorker,
        (BeginStep::JoinWorker, BeginReply::Joined(joined)) => BeginStep::Finished(
            join_read_thread(joined),
        ),
        (step, _) => step,
    }
}

/// What reading comes to: what the read thread returned, unless there is no track or the thread
/// could not be joined.
pub open spec fn begin_outcome<E>(
    track: Result<MediaTrack, CaptureError<E>>,
    joined: Result<Result<(), CaptureError<E>>, E>,
) -> Result<(), CaptureError<E>> {
    match track {
        Err(error) => Err(error),
        Ok(_) => joined_outcome(joined),
    }
}

/// Whatever an earlier call has left behind, a call that is not given up returns what
/// [`begin_outcome`] says. A producer that is gone cannot be called.
pub proof fn reading_returns_its_outcome<E>(
    pending: BeginStep<E>,
    track: Result<MediaTrack, CaptureError<E>>,
    joined: Result<Result<(), CaptureError<E>>, E>,
)
    requires
        pending !is Dropped,
    ensures
        run(
            pending,
            (),
            seq![
                BeginReply::Called,
                BeginReply::StopFlagSet,
                BeginReply::EarlierEnded,
                BeginReply::Track(track),
                BeginReply::Started,
                BeginReply::Joined(joined),
            ],
        ) == BeginStep::<E>::Finished(begin_outcome(track, joined)),
{
    reveal_with_fuel(run, 7);
}

/// The thread that an earlier call has left behind is only waited for after its stop flag has been
/// set. As long as the producer is there, only the start of a thread brings one into being, and only
/// waiting for its end does away with it.
pub proof fn earlier_worker_is_stopped_and_waited_for<E>(
    replies: Seq<BeginReply<E>>,
    reply: BeginReply<E>,
)
    ensures
        ({
            let before = run(BeginStep::<E>::Idle, (), replies);
            let reached = run(BeginStep::<E>::Idle, (), replies.push(reply));
            &&& reached is JoinEarlier && before !is JoinEarlier ==> before is StopEarlier && reply
                is StopFlagSet
            &&& before.may_have_worker() && !reached.may_have_worker() ==> {
                ||| before is JoinEarlier && reply is EarlierEnded
                ||| before is JoinWorker && reply is Joined
            }
            &&& !before.may_have_worker() && reached.may_have_worker() && reached !is Dropped ==> {
                &&& before is StartWorker
                &&& reply is Started
            }
        }),
{
    assert(replies.push(reply).drop_last() =~= replies);
}

/// A read thread.
pub enum Thread<E> {
    /// It runs, and this is what it does next.
    Running(ReadStep<E>),
    /// It has returned, or it has panicked.
    Ended,
}

/// A producer's callers together with all the read threads that they have ever started.
pub struct Threads<E> {
    pub caller: BeginStep<E>,
    pub threads: Seq<Thread<E>>,
}

/// What happens to a caller or to one of the read threads.
pub enum Event<E> {
    Caller(BeginReply<E>),
    /// The thread with this number found something.
    Found { thread: int, reply: ReadReply<E> },
    /// The thread with this number returns or panics.
    Ends { thread: int },
}

impl<E> Threads<E> {
    /// Before the first call.
    pub open spec fn start() -> Self {
        Threads { caller: BeginStep::Idle, threads: Seq::empty() }
    }

    /// Whether there is a thread with this number that runs.
    pub open spec fn is_running(self, thread: int) -> bool {
        0 <= thread < self.threads.len() && self.threads[thread] is Running
    }

    /// Whether the thread with this number can be inside a call on the source reader.
    pub open spec fn is_inside_the_reader(self, thread: int) -> bool {
        self.is_running(thread) && self.threads[thread]->0 is ReadPacket
    }

    /// Whether `event` can happen now: what runs can find something or end, and who waits for a
    /// thread only gets to know of its end once it has ended.
    pub open spec fn allows(self, event: Event<E>) -> bool {
        match event {
            Event::Caller(reply) => {
                ||| !(self.caller is JoinEarlier && reply is EarlierEnded || self.caller
                    is JoinWorker && reply is Joined)
                ||| self.threads.len() > 0 && self.threads.last() is Ended
            },
            Event::Found { thread, .. } | Event::Ends { thread } => self.is_running(thread),
        }
    }
}

impl<E> Machine for Threads<E> {
    type Setting = ();

    type Reply = Event<E>;

    /// A caller who starts a read thread adds one. What a thread finds moves that thread on.
    open spec fn after(self, setting: (), event: Event<E>) -> Self {
        match event {
            Event::Caller(reply) => Threads {
                caller: self.caller.after((), reply),
                threads: if self.caller is StartWorker && reply is Started {
                    self.threads.push(Thread::Running(ReadStep::start()))
                } else {
                    self.threads
                },
            },
            Event::Found { thread, reply } => if self.is_running(thread) {
                Threads {
                    threads: self.threads.update(
                        thread,
                        Thread::Running(self.threads[thread]->0.after((), reply)),
                    ),
                    ..self
                }
            } else {
                self
            },
            Event::Ends { thread } => if self.is_running(thread) {
                Threads { threads: self.threads.update(thread, Thread::Ended), ..self }
            } else {
                self
            },
        }
    }

    /// The producer is gone, and so are all its read threads.
    open spec fn is_finished(self) -> bool {
        &&& self.caller is Dropped
        &&& forall|i: int| !#[trigger] self.is_running(i)
    }

    proof fn result_stands(self, setting: (), event: Event<E>) {
    }
}

/// Whether each of `events` can happen when it does.
pub open spec fn can_happen<E>(events: Seq<Event<E>>) -> bool {
    forall|i: int|
        0 <= i < events.len() ==> run(Threads::<E>::start(), (), events.take(i)).allows(
            #[trigger] events[i],
        )
}

/// However calls are made and given up, however slowly threads end, and whenever the producer is
/// dropped, at most one read thread runs at any time, so at most one thread is inside a call on the
/// source reader. Where a thread is about to be started, none runs.
pub proof fn one_thread_reads_at_a_time<E>(events: Seq<Event<E>>)
    requires
        can_happen(events),
    ensures
        ({
            let reached = run(Threads::<E>::start(), (), events);
            &&& forall|i: int, j: int| #[trigger]
                reached.is_running(i) && #[trigger] reached.is_running(j) ==> i == j
            &&& forall|i: int, j: int| #[trigger]
                reached.is_inside_the_reader(i) && #[trigger] reached.is_inside_the_reader(j) ==> i
                    == j
            &&& reached.caller is StartWorker ==> forall|i: int| !#[trigger] reached.is_running(i)
        }),
{
    only_the_last_thread_runs(events);
}

/// Only the thread that was started last can run, and only where nobody has seen its end yet.
proof fn only_the_last_thread_runs<E>(events: Seq<Event<E>>)
    requires
        can_happen(events),
    ensures
        ({
            let reached = run(Threads::<E>::start(), (), events);
            forall|i: int| #[trigger]
                reached.is_running(i) ==> i == reached.threads.len() - 1
                    && reached.caller.may_have_worker()
        }),
    decreases events.len(),
{
    if events.len() > 0 {
        let start = Threads::<E>::start();
        let before = events.drop_last();
        assert forall|i: int| 0 <= i < before.len() implies run(
            start,
            (),
            before.take(i),
        ).allows(#[trigger] before[i]) by {
            assert(before.take(i) =~= events.take(i));
            assert(before[i] == events[i]);
        }
        only_the_last_thread_runs(before);
        assert(events.take(events.len() - 1) =~= before);
        assert(events[events.len() - 1] == events.last());
        let held = run(start, (), before);
        let reached = run(start, (), events);
        assert(held.allows(events.last()));
        assert forall|i: int| #[trigger] reached.is_running(i) implies i == reached.threads.len() - 1
            && reached.caller.may_have_worker() by {
            assert(i < held.threads.len() ==> held.is_running(i));
        }
    }
}

/// Whatever arrives and in whatever order, the track that a read thread is started for is one that
/// was found, as it was found. A call that has returned returned either the error of looking for the
/// track or what came of the thread: its own result, or that it could not be joined.
pub proof fn thread_is_started_for_the_track_found<E>(replies: Seq<BeginReply<E>>)
    ensures
        run(BeginStep::<E>::Idle, (), replies) matches BeginStep::StartWorker { track }
            ==> replies.contains(BeginReply::Track(Ok(track))),
        run(BeginStep::<E>::Idle, (), replies) matches BeginStep::Finished(result) ==> {
            ||| result matches Err(error) && replies.contains(BeginReply::Track(Err(error)))
            ||| replies.contains(BeginReply::Joined(Ok(result)))
            ||| result matches Err(error) && (error.failure == Failure::JoinReadThread && (
            error.cause matches Some(cause) && replies.contains(BeginReply::Joined(Err(cause)))))
        },
    decreases replies.len(),
{
    if replies.len() > 0 {
        thread_is_started_for_the_track_found::<E>(replies.drop_last());
        lemma_arrived(replies);
    }
}

/// A thread is started right after its track was found and for that very track, and waited for right
/// after that. Nothing but a call, the drop of the producer, or the reply to the pending step leads
/// on.
pub proof fn calls_for_reading_hand_on_what_they_got<E>(step: BeginStep<E>, reply: BeginReply<E>)
    ensures
        step is FindTrack ==> {
            &&& reply matches BeginReply::Track(Ok(track)) ==> step.after((), reply) == (
            BeginStep::StartWorker::<E> { track })
            &&& reply matches BeginReply::Track(Err(error)) ==> step.after((), reply)
                == BeginStep::<E>::Finished(Err(error))
        },
        step is StartWorker && reply is Started ==> step.after((), reply) is JoinWorker,
        step is JoinWorker ==> {
            &&& reply matches BeginReply::Joined(Ok(result)) ==> step.after((), reply)
                == BeginStep::<E>::Finished(result)
            &&& reply matches BeginReply::Joined(Err(cause)) ==> (step.after((), reply)
                matches BeginStep::Finished(Err(error)) && error.failure == Failure::JoinReadThread
                && error.cause == Some(cause))
        },
        step is StopEarlier && reply is StopFlagSet ==> step.after((), reply) is JoinEarlier,
        step is JoinEarlier && reply is EarlierEnded ==> step.after((), reply) is FindTrack,
        reply is Called && (step is StopEarlier || step is JoinEarlier || step is JoinWorker)
            ==> step.after((), reply) is StopEarlier,
        reply is Called && (step is Idle || step is FindTrack || step is StartWorker || step
            is Finished) ==> step.after((), reply) is FindTrack,
        reply is ProducerDropped ==> step.after((), reply) is Dropped,
        step is Dropped ==> step.after((), reply) is Dropped,
        reply is StopFlagSet && step !is StopEarlier ==> step.after((), reply) == step,
        reply is EarlierEnded && step !is JoinEarlier ==> step.after((), reply) == step,
        reply is Track && step !is FindTrack ==> step.after((), reply) == step,
        reply is Started && step !is StartWorker ==> step.after((), reply) == step,
        reply is Joined && step !is JoinWorker ==> step.after((), reply) == step,
{
}

} // verus!
