//! Sequences of calls, each decided by the replies to those before it.

use vstd::prelude::*;

verus! {

/// A call that is pending, or the result once no call is left.
pub trait Machine: Sized {
    /// What stays the same from the first call to the last.
    type Setting;

    /// What a call comes back with.
    type Reply;

    /// Where `reply` leads.
    spec fn after(self, setting: Self::Setting, reply: Self::Reply) -> Self;

    /// Whether no call is left.
    spec fn is_finished(self) -> bool;

    /// A result stands: no reply changes it.
    proof fn result_stands(self, setting: Self::Setting, reply: Self::Reply)
        requires
            self.is_finished(),
        ensures
            self.after(setting, reply) == self,
    ;
}

/// Where `replies`, one after the other, lead from `step`.
pub open spec fn run<M: Machine>(step: M, setting: M::Setting, replies: Seq<M::Reply>) -> M
    decreases replies.len(),
{
    if replies.len() == 0 {
        step
    } else {
        run(step, setting, replies.drop_last()).after(setting, replies.last())
    }
}

/// How often, on the way from `step`, a reply arrived that `taken` holds of, together with the
/// call that it answers.
pub open spec fn times<M: Machine>(
    step: M,
    setting: M::Setting,
    replies: Seq<M::Reply>,
    taken: spec_fn(M, M::Reply) -> bool,
) -> nat
    decreases replies.len(),
{
    if replies.len() == 0 {
        0
    } else {
        times(step, setting, replies.drop_last(), taken) + if taken(
            run(step, setting, replies.drop_last()),
            replies.last(),
        ) {
            1nat
        } else {
            0nat
        }
    }
}

/// One more reply is one more step.
proof fn run_one_more<M: Machine>(
    step: M,
    setting: M::Setting,
    replies: Seq<M::Reply>,
    reply: M::Reply,
)
    ensures
        run(step, setting, replies.push(reply)) == run(step, setting, replies).after(
            setting,
            reply,
        ),
{
    assert(replies.push(reply).drop_last() =~= replies);
}

/// Whatever comes after a result leaves it as it is.
pub proof fn result_is_final<M: Machine>(
    step: M,
    setting: M::Setting,
    replies: Seq<M::Reply>,
    more: Seq<M::Reply>,
)
    requires
        run(step, setting, replies).is_finished(),
    ensures
        run(step, setting, replies + more) == run(step, setting, replies),
    decreases more.len(),
{
    if more.len() == 0 {
        assert(replies + more =~= replies);
    } else {
        let reached = run(step, setting, replies);
        result_is_final(step, setting, replies, more.drop_last());
        assert(replies + more =~= (replies + more.drop_last()).push(more.last()));
        run_one_more(step, setting, replies + more.drop_last(), more.last());
        reached.result_stands(setting, more.last());
    }
}

/// What has arrived before the last reply has arrived, and so has the last reply.
pub(crate) proof fn lemma_arrived<R>(replies: Seq<R>)
    requires
        replies.len() > 0,
    ensures
        replies.contains(replies.last()),
        forall|reply: R| replies.drop_last().contains(reply) ==> #[trigger] replies.contains(reply),
{
    assert(replies[replies.len() - 1] == replies.last());
    assert forall|reply: R| replies.drop_last().contains(reply) implies #[trigger] replies.contains(
        reply,
    ) by {
        let i = replies.drop_last().index_of(reply);
        assert(replies[i] == reply);
    }
}

} // verus!
