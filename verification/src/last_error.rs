//! Asking the engine for its last error.

use vstd::prelude::*;
use vstd::pervasive::unreached;

use crate::error::{Error, ErrorView};
use crate::native::{Answer, Call, Handle, NativeReply, Reply, Request};
use crate::operation::{ask, Operation, Plan, Step};
use crate::text::{explain, explanation, from_utf8};

verus! {

/// Asks for the code of the last error of a database and, where it is not 0, for
/// the message that belongs to it.
pub enum LastErrorMsg {
    Code { db: Handle },
    Message { code: i32 },
}

/// What a message means.
pub open spec fn message_view(message: Option<String>) -> Option<Seq<char>> {
    match message {
        Some(message) => Some(message@),
        None => None,
    }
}

/// The plan of asking for the message of the last error of `db`. The code 0 says
/// that there was none.
pub open spec fn last_error_msg_plan(db: Handle, replies: Seq<Answer>, at: int) -> Plan<
    Option<Seq<char>>,
> {
    ask(
        Request::ErrorCode { db },
        replies,
        at,
        |code: Answer|
            if code.number() == 0 {
                Plan::Done(None, at + 1)
            } else {
                ask(
                    Request::ErrorMessage { code: code.number() },
                    replies,
                    at + 1,
                    |message: Answer| Plan::Done(Some(message.text()), at + 2),
                )
            },
    )
}

impl Operation for LastErrorMsg {
    type Output = Option<String>;

    type Outcome = Option<Seq<char>>;

    open spec fn outcome(output: Option<String>) -> Option<Seq<char>> {
        message_view(output)
    }

    open spec fn awaiting(&self) -> Call {
        match *self {
            LastErrorMsg::Code { db } => Request::ErrorCode { db },
            LastErrorMsg::Message { code } => Request::ErrorMessage { code },
        }
    }

    open spec fn after(&self, answer: Answer, replies: Seq<Answer>, at: int) -> Plan<
        Option<Seq<char>>,
    > {
        match *self {
            LastErrorMsg::Code { db } => if answer.number() == 0 {
                Plan::Done(None, at)
            } else {
                ask(
                    Request::ErrorMessage { code: answer.number() },
                    replies,
                    at,
                    |message: Answer| Plan::Done(Some(message.text()), at + 1),
                )
            },
            LastErrorMsg::Message { code } => Plan::Done(Some(answer.text()), at),
        }
    }

    fn resume(self, reply: NativeReply) -> (step: Step<Self, Option<String>>) {
        match (self, reply) {
            (LastErrorMsg::Code { .. }, Reply::Number(code)) => if code == 0 {
                Step::Done(None)
            } else {
                Step::Ask(Request::ErrorMessage { code }, LastErrorMsg::Message { code })
            },
            (LastErrorMsg::Message { .. }, Reply::Text(message)) => Step::Done(
                from_utf8(message.as_slice()),
            ),
            _ => unreached(),
        }
    }
}

/// Asks for the last error of a database and says that it befell what `context`
/// names.
pub struct LastError {
    pub message: LastErrorMsg,
    pub context: &'static str,
}

/// The plan of explaining a failed call by the last error of `db`.
pub open spec fn last_error_plan(
    db: Handle,
    context: Seq<char>,
    replies: Seq<Answer>,
    at: int,
) -> Plan<ErrorView> {
    last_error_msg_plan(db, replies, at).and_next(
        |reason: Option<Seq<char>>, at: int|
            Plan::Done(ErrorView::Other(explanation(context, reason)), at),
    )
}

impl Operation for LastError {
    type Output = Error;

    type Outcome = ErrorView;

    open spec fn outcome(output: Error) -> ErrorView {
        output@
    }

    open spec fn awaiting(&self) -> Call {
        self.message.awaiting()
    }

    open spec fn after(&self, answer: Answer, replies: Seq<Answer>, at: int) -> Plan<ErrorView> {
        self.message.after(answer, replies, at).and_next(
            |reason: Option<Seq<char>>, at: int|
                Plan::Done(ErrorView::Other(explanation(self.context@, reason)), at),
        )
    }

    fn resume(self, reply: NativeReply) -> (step: Step<Self, Error>) {
        let context = self.context;
        match self.message.resume(reply) {
            Step::Ask(request, message) => Step::Ask(request, LastError { message, context }),
            Step::Done(reason) => Step::Done(Error::Other(explain(context, &reason))),
        }
    }
}

} // verus!
