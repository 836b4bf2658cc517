//! That a conversation goes as its plan says, and how plans are spoken of here.

use vstd::prelude::*;
use vstd::utf8::decode_utf8;

use crate::error::ErrorView;
use crate::native::{answers, Answer, Call, Handle, NativeReply};
use crate::operation::{asks_what_it_awaits, proceed, step_plan, Operation, Plan, Step};

verus! {

/// What the operation that begins with `step` comes to with these answers.
pub open spec fn told<P: Operation>(step: Step<P, P::Output>, replies: Seq<Answer>) -> Plan<
    P::Outcome,
> {
    step_plan(step, replies, 0)
}

/// That it is done with `outcome`, and took all the answers.
pub open spec fn ends<T>(told: Plan<T>, replies: Seq<Answer>, outcome: T) -> bool {
    told == Plan::Done(outcome, replies.len() as int)
}

/// That it fails with this text, and took all the answers.
pub open spec fn fails<T>(
    told: Plan<Result<T, ErrorView>>,
    replies: Seq<Answer>,
    text: Seq<char>,
) -> bool {
    told == Plan::Done(Err::<T, ErrorView>(ErrorView::Other(text)), replies.len() as int)
}

/// That from answer `k` on it asks for the last error of `db` and fails with an
/// explanation that begins with `context`.
pub open spec fn explains<T>(
    told: Plan<Result<T, ErrorView>>,
    replies: Seq<Answer>,
    k: int,
    db: Handle,
    context: Seq<char>,
) -> bool {
    &&& replies.len() == k ==> told == Plan::<Result<T, ErrorView>>::Ask(Call::ErrorCode { db })
    &&& replies.len() == k + 1 && replies[k] == Answer::Number(0) ==> fails(
        told,
        replies,
        context + ": "@ + "unknown error"@,
    )
    &&& replies.len() == k + 1 && replies[k] is Number && replies[k]->Number_0 != 0 ==> told
        == Plan::<Result<T, ErrorView>>::Ask(Call::ErrorMessage { code: replies[k]->Number_0 })
    &&& replies.len() == k + 2 && replies[k] is Number && replies[k]->Number_0 != 0
        && replies[k + 1] is Text ==> fails(
        told,
        replies,
        context + ": "@ + decode_utf8(replies[k + 1]->Text_0),
    )
}

/// That one step of an operation leads to the next by a reply.
pub open spec fn exchanged<P: Operation>(
    step: Step<P, P::Output>,
    reply: NativeReply,
    next: Step<P, P::Output>,
) -> bool {
    step matches Step::Ask(request, pending) && call_ensures(
        proceed::<P>,
        (&request, pending, reply),
        Some(next),
    )
}

/// That an operation went through these steps with these replies.
pub open spec fn conversation<P: Operation>(
    steps: Seq<Step<P, P::Output>>,
    replies: Seq<NativeReply>,
) -> bool {
    &&& steps.len() == replies.len() + 1
    &&& forall|i: int| #![trigger steps[i]]
        0 <= i < replies.len() ==> exchanged(steps[i], replies[i], steps[i + 1])
}

/// What the replies mean.
pub open spec fn meant(replies: Seq<NativeReply>) -> Seq<Answer> {
    Seq::new(replies.len(), |i: int| replies[i]@)
}

proof fn lemma_step_by_step<P: Operation>(
    steps: Seq<Step<P, P::Output>>,
    replies: Seq<NativeReply>,
    i: int,
    k: int,
)
    requires
        conversation(steps, replies),
        asks_what_it_awaits(steps[0]),
        0 <= i <= k <= replies.len(),
    ensures
        asks_what_it_awaits(steps[i]),
        step_plan(steps[0], meant(replies).take(k), 0) == step_plan(
            steps[i],
            meant(replies).take(k),
            i,
        ),
    decreases i,
{
    if i > 0 {
        lemma_step_by_step(steps, replies, i - 1, k);
        assert(exchanged(steps[i - 1], replies[i - 1], steps[i]));
        assert(meant(replies).take(k)[i - 1] == replies[i - 1]@);
        assert(step_plan(steps[i], meant(replies).take(k), i) == step_plan(
            steps[i - 1],
            meant(replies).take(k),
            i - 1,
        ));
    }
}

/// Whoever drives an operation sees it ask what its plan asks with the answers so
/// far, and end as its plan ends.
pub proof fn law_conversations_go_as_planned<P: Operation>(
    steps: Seq<Step<P, P::Output>>,
    replies: Seq<NativeReply>,
    i: int,
)
    requires
        conversation(steps, replies),
        asks_what_it_awaits(steps[0]),
        0 <= i <= replies.len(),
    ensures
        steps[i] matches Step::Ask(request, _) ==> told(steps[0], meant(replies).take(i))
            == Plan::<P::Outcome>::Ask(request@),
        steps[i] matches Step::Done(output) ==> i == replies.len() && ends(
            told(steps[0], meant(replies)),
            meant(replies),
            P::outcome(output),
        ),
        i < replies.len() ==> (steps[i] matches Step::Ask(request, _) && answers(
            request@,
            replies[i]@,
        )),
{
    lemma_step_by_step(steps, replies, i, i);
    assert(meant(replies).take(meant(replies).len() as int) =~= meant(replies));
    if i < replies.len() {
        assert(exchanged(steps[i], replies[i], steps[i + 1]));
    }
}

} // verus!
