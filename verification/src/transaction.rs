//! Transactions.

use vstd::prelude::*;
use vstd::pervasive::unreached;

use crate::collection::Collection;
use crate::database::explained;
use crate::error::{result_view, Error, ErrorView};
use crate::last_error::{LastError, LastErrorMsg};
use crate::native::{Answer, Call, Handle, NativeReply, Reply, Request};
use crate::operation::{ask, follows, Operation, Plan, Step};

verus! {

/// A transaction on a collection, and how it is to end.
#[derive(Debug)]
pub struct Transaction<'coll, 'db> {
    /// The collection.
    pub coll: &'coll Collection<'db>,
    /// Whether it is to be committed; otherwise it is to be aborted.
    pub commit: bool,
    /// Whether it was ended.
    pub finished: bool,
}

/// The plan of opening a transaction. The engine refuses with a status other than
/// 0. A new transaction is to be aborted.
pub open spec fn begin_plan<'coll, 'db>(
    coll: &'coll Collection<'db>,
    replies: Seq<Answer>,
    at: int,
) -> Plan<Result<Transaction<'coll, 'db>, ErrorView>> {
    ask(
        Request::BeginTransaction { coll: coll.coll },
        replies,
        at,
        |begun: Answer|
            if begun.status() != 0 {
                explained(coll.db.handle, "error opening transaction"@, replies, at + 1)
            } else {
                Plan::Done(Ok(Transaction { coll, commit: false, finished: false }), at + 1)
            },
    )
}

/// Opens a transaction.
pub enum Beginning<'coll, 'db> {
    Begin { coll: &'coll Collection<'db> },
    Failed(LastError),
}

impl<'db> Collection<'db> {
    /// Opens a transaction.
    pub fn begin<'coll>(&'coll self) -> (step: Step<
        Beginning<'coll, 'db>,
        Result<Transaction<'coll, 'db>, Error>,
    >)
        ensures
            follows(step, |replies: Seq<Answer>, at: int| begin_plan(self, replies, at)),
    {
        Transaction::new(self)
    }
}

impl<'coll, 'db> Operation for Beginning<'coll, 'db> {
    type Output = Result<Transaction<'coll, 'db>, Error>;

    type Outcome = Result<Transaction<'coll, 'db>, ErrorView>;

    open spec fn outcome(output: Result<Transaction<'coll, 'db>, Error>) -> Result<
        Transaction<'coll, 'db>,
        ErrorView,
    > {
        result_view(output)
    }

    open spec fn awaiting(&self) -> Call {
        match *self {
            Beginning::Begin { coll } => Request::BeginTransaction { coll: coll.coll },
            Beginning::Failed(error) => error.awaiting(),
        }
    }

    open spec fn after(&self, answer: Answer, replies: Seq<Answer>, at: int) -> Plan<
        Result<Transaction<'coll, 'db>, ErrorView>,
    > {
        match *self {
            Beginning::Begin { coll } => if answer.status() != 0 {
                explained(coll.db.handle, "error opening transaction"@, replies, at)
            } else {
                Plan::Done(Ok(Transaction { coll, commit: false, finished: false }), at)
            },
            Beginning::Failed(error) => error.after(answer, replies, at).and_next(
                |error: ErrorView, at: int| Plan::Done(Err(error), at),
            ),
        }
    }

    fn resume(self, reply: NativeReply) -> (step: Step<
        Self,
        Result<Transaction<'coll, 'db>, Error>,
    >) {
        match (self, reply) {
            (Beginning::Begin { coll }, Reply::Status(status)) => if status != 0 {
                let db: Handle = coll.db.handle;
                Step::Ask(
                    Request::ErrorCode { db },
                    Beginning::Failed(
                        LastError {
                            message: LastErrorMsg::Code { db },
                            context: "error opening transaction",
                        },
                    ),
                )
            } else {
                Step::Done(Ok(Transaction { coll, commit: false, finished: false }))
            },
            (Beginning::Failed(error), reply) => match error.resume(reply) {
                Step::Ask(request, error) => Step::Ask(request, Beginning::Failed(error)),
                Step::Done(error) => Step::Done(Err(error)),
            },
            _ => unreached(),
        }
    }
}

/// The plan of committing a transaction.
pub open spec fn commit_plan(db: Handle, coll: Handle, replies: Seq<Answer>, at: int) -> Plan<
    Result<(), ErrorView>,
> {
    ask(
        Request::CommitTransaction { coll },
        replies,
        at,
        |ended: Answer|
            if ended.status() != 0 {
                Plan::Done(Ok(()), at + 1)
            } else {
                explained(db, "error commiting transaction"@, replies, at + 1)
            },
    )
}

/// The plan of aborting a transaction.
pub open spec fn abort_plan(db: Handle, coll: Handle, replies: Seq<Answer>, at: int) -> Plan<
    Result<(), ErrorView>,
> {
    ask(
        Request::AbortTransaction { coll },
        replies,
        at,
        |ended: Answer|
            if ended.status() != 0 {
                Plan::Done(Ok(()), at + 1)
            } else {
                explained(db, "error aborting transaction"@, replies, at + 1)
            },
    )
}

/// Ends a transaction.
pub enum Ending {
    Commit { db: Handle, coll: Handle },
    Abort { db: Handle, coll: Handle },
    Failed(LastError),
}

impl<'coll, 'db> Transaction<'coll, 'db> {
    /// Opens a transaction on a collection.
    pub fn new(coll: &'coll Collection<'db>) -> (step: Step<
        Beginning<'coll, 'db>,
        Result<Transaction<'coll, 'db>, Error>,
    >)
        ensures
            follows(step, |replies: Seq<Answer>, at: int| begin_plan(coll, replies, at)),
    {
        Step::Ask(Request::BeginTransaction { coll: coll.coll }, Beginning::Begin { coll })
    }

    /// The plan of ending the transaction in the way that is set. One that was
    /// ended is left alone.
    pub open spec fn finish_plan(self, replies: Seq<Answer>, at: int) -> Plan<
        Result<(), ErrorView>,
    > {
        if self.finished {
            Plan::Done(Ok(()), at)
        } else if self.commit {
            commit_plan(self.coll.db.handle, self.coll.coll, replies, at)
        } else {
            abort_plan(self.coll.db.handle, self.coll.coll, replies, at)
        }
    }

    /// Whether the transaction is to be committed.
    pub fn will_commit(&self) -> (result: bool)
        ensures
            result == self.commit,
    {
        self.commit
    }

    /// Whether the transaction is to be aborted.
    pub fn will_abort(&self) -> (result: bool)
        ensures
            result == !self.commit,
    {
        !self.commit
    }

    /// Has the transaction committed when it ends.
    pub fn set_commit(&mut self)
        ensures
            *final(self) == (Transaction { commit: true, ..*old(self) }),
    {
        self.commit = true;
    }

    /// Has the transaction aborted when it ends.
    pub fn set_abort(&mut self)
        ensures
            *final(self) == (Transaction { commit: false, ..*old(self) }),
    {
        self.commit = false;
    }

    /// Ends the transaction in the way that is set.
    pub fn finish(self) -> (step: Step<Ending, Result<(), Error>>)
        ensures
            follows(step, |replies: Seq<Answer>, at: int| self.finish_plan(replies, at)),
    {
        let mut transaction = self;
        transaction.finish_mut()
    }

    /// Commits the transaction.
    pub fn commit(self) -> (step: Step<Ending, Result<(), Error>>)
        ensures
            follows(
                step,
                |replies: Seq<Answer>, at: int|
                    commit_plan(self.coll.db.handle, self.coll.coll, replies, at),
            ),
    {
        let mut transaction = self;
        transaction.commit_mut()
    }

    /// Aborts the transaction.
    pub fn abort(self) -> (step: Step<Ending, Result<(), Error>>)
        ensures
            follows(
                step,
                |replies: Seq<Answer>, at: int|
                    abort_plan(self.coll.db.handle, self.coll.coll, replies, at),
            ),
    {
        let mut transaction = self;
        transaction.abort_mut()
    }

    /// Ends the transaction in the way that is set, and notes that it is ended.
    pub fn finish_mut(&mut self) -> (step: Step<Ending, Result<(), Error>>)
        ensures
            *final(self) == (Transaction { finished: true, ..*old(self) }),
            follows(step, |replies: Seq<Answer>, at: int| old(self).finish_plan(replies, at)),
    {
        if self.finished {
            Step::Done(Ok(()))
        } else if self.commit {
            self.commit_mut()
        } else {
            self.abort_mut()
        }
    }

    /// Commits the transaction, and notes that it is ended.
    fn commit_mut(&mut self) -> (step: Step<Ending, Result<(), Error>>)
        ensures
            *final(self) == (Transaction { finished: true, ..*old(self) }),
            follows(
                step,
                |replies: Seq<Answer>, at: int|
                    commit_plan(old(self).coll.db.handle, old(self).coll.coll, replies, at),
            ),
    {
        self.finished = true;
        let coll: Handle = self.coll.coll;
        Step::Ask(
            Request::CommitTransaction { coll },
            Ending::Commit { db: self.coll.db.handle, coll },
        )
    }

    /// Aborts the transaction, and notes that it is ended.
    fn abort_mut(&mut self) -> (step: Step<Ending, Result<(), Error>>)
        ensures
            *final(self) == (Transaction { finished: true, ..*old(self) }),
            follows(
                step,
                |replies: Seq<Answer>, at: int|
                    abort_plan(old(self).coll.db.handle, old(self).coll.coll, replies, at),
            ),
    {
        self.finished = true;
        let coll: Handle = self.coll.coll;
        Step::Ask(
            Request::AbortTransaction { coll },
            Ending::Abort { db: self.coll.db.handle, coll },
        )
    }
}

impl Operation for Ending {
    type Output = Result<(), Error>;

    type Outcome = Result<(), ErrorView>;

    open spec fn outcome(output: Result<(), Error>) -> Result<(), ErrorView> {
        result_view(output)
    }

    open spec fn awaiting(&self) -> Call {
        match *self {
            Ending::Commit { coll, .. } => Request::CommitTransaction { coll },
            Ending::Abort { coll, .. } => Request::AbortTransaction { coll },
            Ending::Failed(error) => error.awaiting(),
        }
    }

    open spec fn after(&self, answer: Answer, replies: Seq<Answer>, at: int) -> Plan<
        Result<(), ErrorView>,
    > {
        match *self {
            Ending::Commit { db, .. } => if answer.status() != 0 {
                Plan::Done(Ok(()), at)
            } else {
                explained(db, "error commiting transaction"@, replies, at)
            },
            Ending::Abort { db, .. } => if answer.status() != 0 {
                Plan::Done(Ok(()), at)
            } else {
                explained(db, "error aborting transaction"@, replies, at)
            },
            Ending::Failed(error) => error.after(answer, replies, at).and_next(
                |error: ErrorView, at: int| Plan::Done(Err(error), at),
            ),
        }
    }

    fn resume(self, reply: NativeReply) -> (step: Step<Self, Result<(), Error>>) {
        let (db, status, context): (Handle, u8, &'static str) = match (self, reply) {
            (Ending::Commit { db, .. }, Reply::Status(status)) => (
                db,
                status,
                "error commiting transaction",
            ),
            (Ending::Abort { db, .. }, Reply::Status(status)) => (
                db,
                status,
                "error aborting transaction",
            ),
            (Ending::Failed(error), reply) => {
                return match error.resume(reply) {
                    Step::Ask(request, error) => Step::Ask(request, Ending::Failed(error)),
                    Step::Done(error) => Step::Done(Err(error)),
                };
            },
            _ => unreached(),
        };
        if status != 0 {
            Step::Done(Ok(()))
        } else {
            Step::Ask(
                Request::ErrorCode { db },
                Ending::Failed(LastError { message: LastErrorMsg::Code { db }, context }),
            )
        }
    }
}

} // verus!
