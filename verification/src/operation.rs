//! Operations as conversations with the storage engine.
//!
//! An [`Operation`] waits for the answer to one request. Given the answer it
//! takes a [`Step`]: it asks the next request, or it is done. What it asks and
//! what it ends with is its [`Plan`], a function of the answers alone.

use vstd::prelude::*;

use crate::native::{answers, is_answer, Answer, Call, NativeReply, NativeRequest};

verus! {

/// What an operation does next: it asks `request` and then waits as `P`, or it is
/// done with `T`.
pub enum Step<P, T> {
    Ask(NativeRequest, P),
    Done(T),
}

/// What an operation comes to when it is given a sequence of answers: the first
/// request that they do not answer, or what it is done with and how many of the
/// answers were taken by then.
pub enum Plan<T> {
    Ask(Call),
    Done(T, int),
}

impl<T> Plan<T> {
    /// This plan, and where it is done the plan `next` after it.
    pub open spec fn and_next<U>(self, next: spec_fn(T, int) -> Plan<U>) -> Plan<U> {
        match self {
            Plan::Ask(call) => Plan::Ask(call),
            Plan::Done(value, at) => next(value, at),
        }
    }
}

/// The plan that asks `call` and goes on as `next` says of the answer, which is
/// the one at position `at`.
pub open spec fn ask<T>(
    call: Call,
    replies: Seq<Answer>,
    at: int,
    next: spec_fn(Answer) -> Plan<T>,
) -> Plan<T> {
    if at < replies.len() {
        next(replies[at])
    } else {
        Plan::Ask(call)
    }
}

/// A conversation with the engine that waits for an answer.
pub trait Operation: Sized {
    /// What the operation gives.
    type Output;

    /// What that means.
    type Outcome;

    /// The meaning of an output.
    spec fn outcome(output: Self::Output) -> Self::Outcome;

    /// The request whose answer the operation waits for.
    spec fn awaiting(&self) -> Call;

    /// The plan of the operation once `answer` is given, where the answers to
    /// what it asks after that stand in `replies` from position `at` on.
    spec fn after(&self, answer: Answer, replies: Seq<Answer>, at: int) -> Plan<Self::Outcome>;

    /// Takes the answer to the request that the operation waits for.
    fn resume(self, reply: NativeReply) -> (step: Step<Self, Self::Output>)
        requires
            answers(self.awaiting(), reply@),
        ensures
            step matches Step::Ask(request, pending) ==> {
                &&& pending.awaiting() == request@
                &&& forall|replies: Seq<Answer>, at: int| #[trigger]
                    self.after(reply@, replies, at) == ask(
                        request@,
                        replies,
                        at,
                        |answer: Answer| pending.after(answer, replies, at + 1),
                    )
            },
            step matches Step::Done(output) ==> forall|replies: Seq<Answer>, at: int| #[trigger]
                self.after(reply@, replies, at) == Plan::Done(Self::outcome(output), at),
    ;
}

/// A step that asks a request waits for the answer to that request.
pub open spec fn asks_what_it_awaits<P: Operation, T>(step: Step<P, T>) -> bool {
    step matches Step::Ask(request, pending) ==> pending.awaiting() == request@
}

/// The plan of an operation that waits: it asks, and goes on with the answer.
pub open spec fn plan<P: Operation>(pending: P, replies: Seq<Answer>, at: int) -> Plan<P::Outcome> {
    ask(pending.awaiting(), replies, at, |answer: Answer| pending.after(answer, replies, at + 1))
}

/// The plan of an operation from one of its steps on.
pub open spec fn step_plan<P: Operation>(
    step: Step<P, P::Output>,
    replies: Seq<Answer>,
    at: int,
) -> Plan<P::Outcome> {
    match step {
        Step::Ask(request, pending) => plan(pending, replies, at),
        Step::Done(output) => Plan::Done(P::outcome(output), at),
    }
}

/// The operation that begins with `step` follows `course`.
pub open spec fn follows<P: Operation>(
    step: Step<P, P::Output>,
    course: spec_fn(Seq<Answer>, int) -> Plan<P::Outcome>,
) -> bool {
    &&& asks_what_it_awaits(step)
    &&& forall|replies: Seq<Answer>, at: int| #[trigger]
        step_plan(step, replies, at) == course(replies, at)
}

/// Takes a reply to the request that an operation waits for the answer to, unless
/// the reply cannot be the answer.
pub fn proceed<P: Operation>(request: &NativeRequest, pending: P, reply: NativeReply) -> (result:
    Option<Step<P, P::Output>>)
    requires
        pending.awaiting() == request@,
    ensures
        result is Some <==> answers(request@, reply@),
        result matches Some(step) ==> {
            &&& asks_what_it_awaits(step)
            &&& forall|replies: Seq<Answer>, at: int| #[trigger]
                step_plan(step, replies, at) == pending.after(reply@, replies, at)
        },
{
    if is_answer(request, &reply) {
        let ghost answer = reply@;
        let step = pending.resume(reply);
        proof {
            assert forall|replies: Seq<Answer>, at: int| #[trigger]
                step_plan(step, replies, at) == pending.after(answer, replies, at) by {}
        }
        Some(step)
    } else {
        None
    }
}

/// Whether these are all the answers that an operation on that course gets: it is
/// done once it has them.
pub open spec fn complete<T>(
    course: spec_fn(Seq<Answer>, int) -> Plan<T>,
    replies: Seq<Answer>,
) -> bool {
    course(replies, 0) matches Plan::Done(_, end) && end == replies.len()
}

/// What an operation on that course asks when it has the first `i` of the answers.
pub open spec fn asked<T>(
    course: spec_fn(Seq<Answer>, int) -> Plan<T>,
    replies: Seq<Answer>,
    i: int,
) -> Call {
    course(replies.take(i), 0)->Ask_0
}

/// Whether an operation on that course still asks when it has the first `i` of
/// the answers.
pub open spec fn asks<T>(
    course: spec_fn(Seq<Answer>, int) -> Plan<T>,
    replies: Seq<Answer>,
    i: int,
) -> bool {
    course(replies.take(i), 0) is Ask
}

} // verus!
