//! Opening a database.

use vstd::prelude::*;
use vstd::pervasive::unreached;

use crate::database::{failed, Database};
use crate::error::{result_view, Error, ErrorView};
use crate::native::{Answer, Call, Handle, NativeReply, Reply, Request};
use crate::open_mode::OpenMode;
use crate::operation::{ask, follows, Operation, Plan, Step};
use crate::text::{c_string, from_utf8};

verus! {

/// The plan of opening the database at `path`: make an object, then open the
/// files. Where that fails the error is the engine's message alone, whatever its
/// code. A path with a zero byte in it is refused once the object is made.
pub open spec fn open_plan(path: Seq<u8>, mode: u32, replies: Seq<Answer>, at: int) -> Plan<
    Result<Database, ErrorView>,
> {
    ask(
        Request::NewDatabase,
        replies,
        at,
        |made: Answer|
            if made.object() == 0 {
                failed("cannot create database"@, at + 1)
            } else if path.contains(0) {
                failed("invalid path specified"@, at + 1)
            } else {
                opening_plan(made.object(), path.push(0), mode as i32, replies, at + 1)
            },
    )
}

/// The plan of opening a database once its object is made.
pub open spec fn opening_plan(
    db: Handle,
    path: Seq<u8>,
    mode: i32,
    replies: Seq<Answer>,
    at: int,
) -> Plan<Result<Database, ErrorView>> {
    ask(
        Request::OpenDatabase { db, path, mode },
        replies,
        at,
        |opened: Answer|
            if opened.status() != 0 {
                Plan::Done(Ok(Database { handle: db }), at + 1)
            } else {
                ask(
                    Request::ErrorCode { db },
                    replies,
                    at + 1,
                    |code: Answer|
                        ask(
                            Request::ErrorMessage { code: code.number() },
                            replies,
                            at + 2,
                            |message: Answer| failed(message.text(), at + 3),
                        ),
                )
            },
    )
}

/// Opens a database.
pub enum Opening {
    New { path: Vec<u8>, mode: OpenMode },
    Open { db: Handle, c_path: Ghost<Seq<u8>>, bits: i32 },
    Code { db: Handle },
    Message { code: i32 },
}

impl Database {
    /// Opens the database at `path`.
    pub fn open(path: Vec<u8>, open_mode: OpenMode) -> (step: Step<
        Opening,
        Result<Database, Error>,
    >)
        ensures
            follows(
                step,
                |replies: Seq<Answer>, at: int| open_plan(path@, open_mode@, replies, at),
            ),
    {
        Step::Ask(Request::NewDatabase, Opening::New { path, mode: open_mode })
    }
}

impl Operation for Opening {
    type Output = Result<Database, Error>;

    type Outcome = Result<Database, ErrorView>;

    open spec fn outcome(output: Result<Database, Error>) -> Result<Database, ErrorView> {
        result_view(output)
    }

    open spec fn awaiting(&self) -> Call {
        match *self {
            Opening::New { .. } => Request::NewDatabase,
            Opening::Open { db, c_path, bits } => Request::OpenDatabase {
                db,
                path: c_path@,
                mode: bits,
            },
            Opening::Code { db } => Request::ErrorCode { db },
            Opening::Message { code } => Request::ErrorMessage { code },
        }
    }

    open spec fn after(&self, answer: Answer, replies: Seq<Answer>, at: int) -> Plan<
        Result<Database, ErrorView>,
    > {
        match *self {
            Opening::New { path, mode } => if answer.object() == 0 {
                failed("cannot create database"@, at)
            } else if path@.contains(0) {
                failed("invalid path specified"@, at)
            } else {
                opening_plan(answer.object(), path@.push(0), mode@ as i32, replies, at)
            },
            Opening::Open { db, .. } => if answer.status() != 0 {
                Plan::Done(Ok(Database { handle: db }), at)
            } else {
                ask(
                    Request::ErrorCode { db },
                    replies,
                    at,
                    |code: Answer|
                        ask(
                            Request::ErrorMessage { code: code.number() },
                            replies,
                            at + 1,
                            |message: Answer| failed(message.text(), at + 2),
                        ),
                )
            },
            Opening::Code { db } => ask(
                Request::ErrorMessage { code: answer.number() },
                replies,
                at,
                |message: Answer| failed(message.text(), at + 1),
            ),
            Opening::Message { code } => failed(answer.text(), at),
        }
    }

    fn resume(self, reply: NativeReply) -> (step: Step<Self, Result<Database, Error>>) {
        match (self, reply) {
            (Opening::New { path, mode }, Reply::Object(db)) => {
                if db == 0 {
                    return Step::Done(Err(Error::Other("cannot create database".to_owned())));
                }
                let ghost plain = path@;
                match c_string(path) {
                    None => Step::Done(Err(Error::Other("invalid path specified".to_owned()))),
                    Some(path) => {
                        let bits: i32 = mode.bits() as i32;
                        Step::Ask(
                            Request::OpenDatabase { db, path, mode: bits },
                            Opening::Open { db, c_path: Ghost(plain.push(0)), bits },
                        )
                    },
                }
            },
            (Opening::Open { db, .. }, Reply::Status(status)) => if status != 0 {
                Step::Done(Ok(Database { handle: db }))
            } else {
                Step::Ask(Request::ErrorCode { db }, Opening::Code { db })
            },
            (Opening::Code { .. }, Reply::Number(code)) => Step::Ask(
                Request::ErrorMessage { code },
                Opening::Message { code },
            ),
            (Opening::Message { .. }, Reply::Text(message)) => match from_utf8(message.as_slice()) {
                Some(message) => Step::Done(Err(Error::Other(message))),
                None => unreached(),
            },
            _ => unreached(),
        }
    }
}

} // verus!
