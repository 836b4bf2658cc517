//! Databases.

use vstd::prelude::*;

use crate::error::{Error, ErrorView};
use crate::last_error::{last_error_msg_plan, last_error_plan, LastError, LastErrorMsg};
use crate::native::{Answer, Call, Handle, NativeRequest, Request};
use crate::operation::{follows, Plan, Step};

verus! {

/// An open database.
#[derive(Debug)]
pub struct Database {
    /// The engine's object.
    pub handle: Handle,
}

/// The plan that fails with `message` without asking anything.
pub open spec fn failed<T>(message: Seq<char>, at: int) -> Plan<Result<T, ErrorView>> {
    Plan::Done(Err(ErrorView::Other(message)), at)
}

/// The plan that fails with an explanation of the last error of `db`.
pub open spec fn explained<T>(
    db: Handle,
    context: Seq<char>,
    replies: Seq<Answer>,
    at: int,
) -> Plan<Result<T, ErrorView>> {
    last_error_plan(db, context, replies, at).and_next(
        |error: ErrorView, at: int| Plan::Done(Err(error), at),
    )
}

impl Database {
    /// Asks for the message of the last error.
    pub fn last_error_msg(&self) -> (step: Step<LastErrorMsg, Option<String>>)
        ensures
            follows(
                step,
                |replies: Seq<Answer>, at: int| last_error_msg_plan(self.handle, replies, at),
            ),
    {
        Step::Ask(Request::ErrorCode { db: self.handle }, LastErrorMsg::Code { db: self.handle })
    }

    /// Asks for the last error, which befell what `msg` names.
    pub fn last_error(&self, msg: &'static str) -> (step: Step<LastError, Error>)
        ensures
            follows(
                step,
                |replies: Seq<Answer>, at: int| last_error_plan(self.handle, msg@, replies, at),
            ),
    {
        let message = LastErrorMsg::Code { db: self.handle };
        Step::Ask(Request::ErrorCode { db: self.handle }, LastError { message, context: msg })
    }

    /// The request that closes the database. Nothing may be asked of it after
    /// that.
    pub fn close(self) -> (request: NativeRequest)
        ensures
            request@ == (Call::DeleteDatabase { db: self.handle }),
    {
        Request::DeleteDatabase { db: self.handle }
    }
}

} // verus!
