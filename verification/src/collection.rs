//! Collections, and their names and transactions.

use vstd::prelude::*;
use vstd::pervasive::unreached;

use crate::database::{explained, Database};
use crate::error::{result_view, Error, ErrorView};
use crate::last_error::{LastError, LastErrorMsg};
use crate::native::{Answer, Call, Handle, NativeReply, Reply, Request};
use crate::operation::{ask, follows, Operation, Plan, Step};
use crate::text::from_utf8;

verus! {

/// A collection of a database.
#[derive(Debug)]
pub struct Collection<'db> {
    /// The engine's object.
    pub coll: Handle,
    /// The database that it belongs to.
    pub db: &'db Database,
}

/// The plan of asking for the name of a collection.
pub open spec fn name_plan(coll: Handle, replies: Seq<Answer>, at: int) -> Plan<Seq<char>> {
    ask(
        Request::CollectionName { coll },
        replies,
        at,
        |name: Answer| Plan::Done(name.text(), at + 1),
    )
}

/// Asks for the name of a collection.
pub struct Naming {
    pub coll: Handle,
}

impl<'db> Collection<'db> {
    /// Asks for the name.
    pub fn name(&self) -> (step: Step<Naming, String>)
        ensures
            follows(step, |replies: Seq<Answer>, at: int| name_plan(self.coll, replies, at)),
    {
        Step::Ask(Request::CollectionName { coll: self.coll }, Naming { coll: self.coll })
    }
}

impl Operation for Naming {
    type Output = String;

    type Outcome = Seq<char>;

    open spec fn outcome(output: String) -> Seq<char> {
        output@
    }

    open spec fn awaiting(&self) -> Call {
        Request::CollectionName { coll: self.coll }
    }

    open spec fn after(&self, answer: Answer, replies: Seq<Answer>, at: int) -> Plan<Seq<char>> {
        Plan::Done(answer.text(), at)
    }

    fn resume(self, reply: NativeReply) -> (step: Step<Self, String>) {
        match reply {
            Reply::Text(name) => match from_utf8(name.as_slice()) {
                Some(name) => Step::Done(name),
                None => unreached(),
            },
            _ => unreached(),
        }
    }
}

/// The plan of asking whether a transaction is open.
pub open spec fn transaction_active_plan(
    db: Handle,
    coll: Handle,
    replies: Seq<Answer>,
    at: int,
) -> Plan<Result<bool, ErrorView>> {
    ask(
        Request::TransactionStatus { coll },
        replies,
        at,
        |told: Answer|
            if told->Transaction_status != 0 {
                Plan::Done(Ok(told->active != 0), at + 1)
            } else {
                explained(db, "error getting transaction status"@, replies, at + 1)
            },
    )
}

/// Asks whether a transaction is open.
pub enum CheckingTransaction {
    Check { db: Handle, coll: Handle },
    Failed(LastError),
}

impl<'db> Collection<'db> {
    /// Asks whether a transaction is open.
    pub fn transaction_active(&self) -> (step: Step<CheckingTransaction, Result<bool, Error>>)
        ensures
            follows(
                step,
                |replies: Seq<Answer>, at: int|
                    transaction_active_plan(self.db.handle, self.coll, replies, at),
            ),
    {
        Step::Ask(
            Request::TransactionStatus { coll: self.coll },
            CheckingTransaction::Check { db: self.db.handle, coll: self.coll },
        )
    }
}

impl Operation for CheckingTransaction {
    type Output = Result<bool, Error>;

    type Outcome = Result<bool, ErrorView>;

    open spec fn outcome(output: Result<bool, Error>) -> Result<bool, ErrorView> {
        result_view(output)
    }

    open spec fn awaiting(&self) -> Call {
        match *self {
            CheckingTransaction::Check { coll, .. } => Request::TransactionStatus { coll },
            CheckingTransaction::Failed(error) => error.awaiting(),
        }
    }

    open spec fn after(&self, answer: Answer, replies: Seq<Answer>, at: int) -> Plan<
        Result<bool, ErrorView>,
    > {
        match *self {
            CheckingTransaction::Check { db, .. } => if answer->Transaction_status != 0 {
                Plan::Done(Ok(answer->active != 0), at)
            } else {
                explained(db, "error getting transaction status"@, replies, at)
            },
            CheckingTransaction::Failed(error) => error.after(answer, replies, at).and_next(
                |error: ErrorView, at: int| Plan::Done(Err(error), at),
            ),
        }
    }

    fn resume(self, reply: NativeReply) -> (step: Step<Self, Result<bool, Error>>) {
        match (self, reply) {
            (CheckingTransaction::Check { db, .. }, Reply::Transaction { status, active }) => if status
                != 0 {
                Step::Done(Ok(active != 0))
            } else {
                Step::Ask(
                    Request::ErrorCode { db },
                    CheckingTransaction::Failed(
                        LastError {
                            message: LastErrorMsg::Code { db },
                            context: "error getting transaction status",
                        },
                    ),
                )
            },
            (CheckingTransaction::Failed(error), reply) => match error.resume(reply) {
                Step::Ask(request, error) => Step::Ask(request, CheckingTransaction::Failed(error)),
                Step::Done(error) => Step::Done(Err(error)),
            },
            _ => unreached(),
        }
    }
}

} // verus!
