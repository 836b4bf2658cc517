//! Executing a query.

use vstd::prelude::*;
use vstd::pervasive::unreached;
use bson::EncoderError;

use crate::collection::Collection;
use crate::database::explained;
use crate::document::{encode, encoded_view, encoding, is_empty, Contents};
use crate::error::{result_view, Error, ErrorView};
use crate::last_error::{last_error_plan, LastError, LastErrorMsg};
use crate::native::{Answer, Call, Handle, NativeReply, Reply, Request};
use crate::operation::{ask, follows, Operation, Plan, Step};
use crate::query;

verus! {

/// Only count the documents that match.
pub const JBQRYCOUNT: u32 = 1;

/// Only fetch the first document that matches.
pub const JBQRYFINDONE: u32 = 2;

/// A query on a collection.
#[derive(Debug)]
pub struct Query<'coll, 'db, 'q> {
    /// The collection that is searched.
    pub coll: &'coll Collection<'db>,
    /// What is looked for.
    pub query: &'q query::Query,
    /// Whether an execution log is wanted.
    pub log_out: bool,
}

impl<'db> Collection<'db> {
    /// A query on this collection, without a log.
    pub fn query<'coll, 'q>(&'coll self, query: &'q query::Query) -> (result: Query<
        'coll,
        'db,
        'q,
    >)
        ensures
            result == (Query { coll: self, query, log_out: false }),
    {
        Query { coll: self, query, log_out: false }
    }
}

/// Where and how a query is executed.
#[derive(Clone, Copy, Debug)]
pub struct Execution {
    pub db: Handle,
    pub coll: Handle,
    pub flags: u32,
    pub log: bool,
}

/// The plan of executing a query: make it, give it its hints where it has any,
/// make a log where one is wanted, execute it, and free what was made. The
/// criteria and the hints are in their binary form, or did not come to have one.
pub open spec fn execute_plan(
    run: Execution,
    criteria: Result<Seq<u8>, EncoderError>,
    hints: Option<Result<Seq<u8>, EncoderError>>,
    replies: Seq<Answer>,
    at: int,
) -> Plan<Result<(Handle, u32), ErrorView>> {
    match criteria {
        Err(error) => Plan::Done(Err(ErrorView::BsonEncoding(error)), at),
        Ok(criteria) => ask(
            Request::CreateQuery { db: run.db, criteria },
            replies,
            at,
            |made: Answer| created_plan(run, hints, made.object(), replies, at + 1),
        ),
    }
}

/// The plan once the engine was asked to make the query.
pub open spec fn created_plan(
    run: Execution,
    hints: Option<Result<Seq<u8>, EncoderError>>,
    query: Handle,
    replies: Seq<Answer>,
    at: int,
) -> Plan<Result<(Handle, u32), ErrorView>> {
    if query == 0 {
        explained(run.db, "error creating query object"@, replies, at)
    } else {
        match hints {
            None => hinted_plan(run, query, replies, at),
            Some(Err(error)) => release_plan(
                query,
                None,
                Err(ErrorView::BsonEncoding(error)),
                replies,
                at,
            ),
            Some(Ok(hints)) => ask(
                Request::AddHints { db: run.db, query, hints },
                replies,
                at,
                |hinted: Answer|
                    if hinted.object() == 0 {
                        abandon_plan(
                            run.db,
                            "error setting query hints"@,
                            query,
                            None,
                            replies,
                            at + 1,
                        )
                    } else {
                        hinted_plan(run, hinted.object(), replies, at + 1)
                    },
            ),
        }
    }
}

/// The plan once the query has its hints.
pub open spec fn hinted_plan(
    run: Execution,
    query: Handle,
    replies: Seq<Answer>,
    at: int,
) -> Plan<Result<(Handle, u32), ErrorView>> {
    if run.log {
        ask(
            Request::NewLog,
            replies,
            at,
            |made: Answer| run_plan(run, query, Some(made.object()), replies, at + 1),
        )
    } else {
        run_plan(run, query, None, replies, at)
    }
}

/// The request that executes a query.
pub open spec fn execute_call(run: Execution, query: Handle, log: Option<Handle>) -> Call {
    Request::ExecuteQuery {
        coll: run.coll,
        query,
        flags: run.flags as i32,
        log: match log {
            Some(log) => log,
            None => 0,
        },
    }
}

/// The plan once the query and its log are made. An execution without results
/// has failed, unless it was only to count.
pub open spec fn run_plan(
    run: Execution,
    query: Handle,
    log: Option<Handle>,
    replies: Seq<Answer>,
    at: int,
) -> Plan<Result<(Handle, u32), ErrorView>> {
    ask(
        execute_call(run, query, log),
        replies,
        at,
        |executed: Answer|
            ran_plan(run, query, log, executed->Executed_result, executed->count, replies, at + 1),
    )
}

/// The plan once the query was executed.
pub open spec fn ran_plan(
    run: Execution,
    query: Handle,
    log: Option<Handle>,
    result: Handle,
    count: u32,
    replies: Seq<Answer>,
    at: int,
) -> Plan<Result<(Handle, u32), ErrorView>> {
    if result == 0 && run.flags & JBQRYCOUNT == 0 {
        abandon_plan(run.db, "error executing query"@, query, log, replies, at)
    } else {
        release_plan(query, log, Ok((result, count)), replies, at)
    }
}

/// The plan of asking for the last error and then freeing what was made.
pub open spec fn abandon_plan(
    db: Handle,
    context: Seq<char>,
    query: Handle,
    log: Option<Handle>,
    replies: Seq<Answer>,
    at: int,
) -> Plan<Result<(Handle, u32), ErrorView>> {
    last_error_plan(db, context, replies, at).and_next(
        |error: ErrorView, at: int| release_plan(query, log, Err(error), replies, at),
    )
}

/// The plan of freeing the log, where there is one, and the query, and of ending
/// with `output`.
pub open spec fn release_plan(
    query: Handle,
    log: Option<Handle>,
    output: Result<(Handle, u32), ErrorView>,
    replies: Seq<Answer>,
    at: int,
) -> Plan<Result<(Handle, u32), ErrorView>> {
    match log {
        Some(log) => ask(
            Request::DeleteLog { log },
            replies,
            at,
            |freed: Answer| release_query_plan(query, output, replies, at + 1),
        ),
        None => release_query_plan(query, output, replies, at),
    }
}

/// The plan of freeing the query and of ending with `output`.
pub open spec fn release_query_plan(
    query: Handle,
    output: Result<(Handle, u32), ErrorView>,
    replies: Seq<Answer>,
    at: int,
) -> Plan<Result<(Handle, u32), ErrorView>> {
    ask(
        Request::DeleteQuery { query },
        replies,
        at,
        |freed: Answer| Plan::Done(output, at + 1),
    )
}

/// Executes a query and gives the handle of its results and a count.
pub enum Executing {
    Create {
        run: Execution,
        criteria: Ghost<Seq<u8>>,
        hints: Option<Result<Vec<u8>, EncoderError>>,
    },
    Hint { run: Execution, query: Handle, hint_bytes: Ghost<Seq<u8>> },
    Log { run: Execution, query: Handle },
    Execute { run: Execution, query: Handle, log: Option<Handle> },
    NotCreated(LastError),
    Failed { query: Handle, log: Option<Handle>, error: LastError },
    FreeLog { query: Handle, freed: Handle, output: Result<(Handle, u32), Error> },
    FreeQuery { query: Handle, output: Result<(Handle, u32), Error> },
}

/// What the result of encoding the hints means.
pub open spec fn hints_view(hints: Option<Result<Vec<u8>, EncoderError>>) -> Option<
    Result<Seq<u8>, EncoderError>,
> {
    match hints {
        Some(hints) => Some(encoded_view(hints)),
        None => None,
    }
}

/// What the encoding of the hints gives. Empty hints are not encoded.
pub open spec fn hints_encoding(hints: Contents) -> Option<Result<Seq<u8>, EncoderError>> {
    if hints.empty {
        None
    } else {
        Some(Ok(encoding(hints.entries)))
    }
}

impl Execution {
    /// Executes a query of which this came when it was encoded.
    pub fn start(
        self,
        criteria: Result<Vec<u8>, EncoderError>,
        hints: Option<Result<Vec<u8>, EncoderError>>,
    ) -> (step: Step<Executing, Result<(Handle, u32), Error>>)
        ensures
            follows(
                step,
                |replies: Seq<Answer>, at: int|
                    execute_plan(self, encoded_view(criteria), hints_view(hints), replies, at),
            ),
    {
        match criteria {
            Err(error) => Step::Done(Err(Error::BsonEncoding(error))),
            Ok(criteria) => {
                let ghost bytes = criteria@;
                Step::Ask(
                    Request::CreateQuery { db: self.db, criteria },
                    Executing::Create { run: self, criteria: Ghost(bytes), hints },
                )
            },
        }
    }
}

impl<'coll, 'db, 'q> Query<'coll, 'db, 'q> {
    /// Where and how this query is executed.
    pub open spec fn run(self, flags: u32) -> Execution {
        Execution { db: self.coll.db.handle, coll: self.coll.coll, flags, log: self.log_out }
    }

    /// The plan of executing this query.
    pub open spec fn plan(self, flags: u32, replies: Seq<Answer>, at: int) -> Plan<
        Result<(Handle, u32), ErrorView>,
    > {
        execute_plan(
            self.run(flags),
            Ok(encoding(self.query.criteria().entries)),
            hints_encoding(self.query.hints()),
            replies,
            at,
        )
    }

    /// This query with an execution log.
    pub fn log_output(self) -> (query: Query<'coll, 'db, 'q>)
        ensures
            query == (Query { log_out: true, ..self }),
    {
        Query { log_out: true, ..self }
    }

    /// Executes this query.
    pub fn execute(self, flags: u32) -> (step: Step<Executing, Result<(Handle, u32), Error>>)
        ensures
            follows(step, |replies: Seq<Answer>, at: int| self.plan(flags, replies, at)),
    {
        let (hints, criteria) = self.query.build_ref();
        let run = Execution {
            db: self.coll.db.handle,
            coll: self.coll.coll,
            flags,
            log: self.log_out,
        };
        let hints = if is_empty(hints) {
            None
        } else {
            Some(encode(hints))
        };
        run.start(encode(criteria), hints)
    }
}

/// The step that executes a query that is made.
fn execute_step(run: Execution, query: Handle, log: Option<Handle>) -> (step: Step<
    Executing,
    Result<(Handle, u32), Error>,
>)
    ensures
        step matches Step::Ask(request, pending) && request@ == execute_call(run, query, log)
            && pending == (Executing::Execute { run, query, log }),
{
    let handle: Handle = match log {
        Some(log) => log,
        None => 0,
    };
    Step::Ask(
        Request::ExecuteQuery { coll: run.coll, query, flags: run.flags as i32, log: handle },
        Executing::Execute { run, query, log },
    )
}

/// The step that makes the log, where one is wanted, or else executes the query.
fn log_step(run: Execution, query: Handle) -> (step: Step<Executing, Result<(Handle, u32), Error>>)
    ensures
        step matches Step::Ask(request, pending) && if run.log {
            request@ == Call::NewLog && pending == (Executing::Log { run, query })
        } else {
            request@ == execute_call(run, query, None) && pending == (Executing::Execute {
                run,
                query,
                log: None,
            })
        },
{
    if run.log {
        Step::Ask(Request::NewLog, Executing::Log { run, query })
    } else {
        execute_step(run, query, None)
    }
}

/// The step that frees the log, where there is one, or else the query.
fn release_step(query: Handle, log: Option<Handle>, output: Result<(Handle, u32), Error>) -> (step:
    Step<Executing, Result<(Handle, u32), Error>>)
    ensures
        step matches Step::Ask(request, pending) && match log {
            Some(freed) => request@ == (Call::DeleteLog { log: freed }) && pending == (
            Executing::FreeLog { query, freed, output }),
            None => request@ == (Call::DeleteQuery { query }) && pending == (Executing::FreeQuery {
                query,
                output,
            }),
        },
{
    match log {
        Some(freed) => Step::Ask(
            Request::DeleteLog { log: freed },
            Executing::FreeLog { query, freed, output },
        ),
        None => Step::Ask(
            Request::DeleteQuery { query },
            Executing::FreeQuery { query, output },
        ),
    }
}

impl Operation for Executing {
    type Output = Result<(Handle, u32), Error>;

    type Outcome = Result<(Handle, u32), ErrorView>;

    open spec fn outcome(output: Result<(Handle, u32), Error>) -> Result<
        (Handle, u32),
        ErrorView,
    > {
        result_view(output)
    }

    open spec fn awaiting(&self) -> Call {
        match *self {
            Executing::Create { run, criteria, .. } => Request::CreateQuery {
                db: run.db,
                criteria: criteria@,
            },
            Executing::Hint { run, query, hint_bytes } => Request::AddHints {
                db: run.db,
                query,
                hints: hint_bytes@,
            },
            Executing::Log { .. } => Request::NewLog,
            Executing::Execute { run, query, log } => execute_call(run, query, log),
            Executing::NotCreated(error) => error.awaiting(),
            Executing::Failed { error, .. } => error.awaiting(),
            Executing::FreeLog { freed, .. } => Request::DeleteLog { log: freed },
            Executing::FreeQuery { query, .. } => Request::DeleteQuery { query },
        }
    }

    open spec fn after(&self, answer: Answer, replies: Seq<Answer>, at: int) -> Plan<
        Result<(Handle, u32), ErrorView>,
    > {
        match *self {
            Executing::Create { run, hints, .. } => created_plan(
                run,
                hints_view(hints),
                answer.object(),
                replies,
                at,
            ),
            Executing::Hint { run, query, .. } => if answer.object() == 0 {
                abandon_plan(run.db, "error setting query hints"@, query, None, replies, at)
            } else {
                hinted_plan(run, answer.object(), replies, at)
            },
            Executing::Log { run, query } => run_plan(
                run,
                query,
                Some(answer.object()),
                replies,
                at,
            ),
            Executing::Execute { run, query, log } => ran_plan(
                run,
                query,
                log,
                answer->Executed_result,
                answer->count,
                replies,
                at,
            ),
            Executing::NotCreated(error) => error.after(answer, replies, at).and_next(
                |error: ErrorView, at: int| Plan::Done(Err(error), at),
            ),
            Executing::Failed { query, log, error } => error.after(answer, replies, at).and_next(
                |error: ErrorView, at: int| release_plan(query, log, Err(error), replies, at),
            ),
            Executing::FreeLog { query, output, .. } => release_query_plan(
                query,
                result_view(output),
                replies,
                at,
            ),
            Executing::FreeQuery { output, .. } => Plan::Done(result_view(output), at),
        }
    }

    fn resume(self, reply: NativeReply) -> (step: Step<Self, Result<(Handle, u32), Error>>) {
        match (self, reply) {
            (Executing::Create { run, hints, .. }, Reply::Object(query)) => {
                if query == 0 {
                    return Step::Ask(
                        Request::ErrorCode { db: run.db },
                        Executing::NotCreated(
                            LastError {
                                message: LastErrorMsg::Code { db: run.db },
                                context: "error creating query object",
                            },
                        ),
                    );
                }
                match hints {
                    None => log_step(run, query),
                    Some(Err(error)) => release_step(query, None, Err(Error::BsonEncoding(error))),
                    Some(Ok(hints)) => {
                        let ghost bytes = hints@;
                        Step::Ask(
                            Request::AddHints { db: run.db, query, hints },
                            Executing::Hint { run, query, hint_bytes: Ghost(bytes) },
                        )
                    },
                }
            },
            (Executing::Hint { run, query, .. }, Reply::Object(hinted)) => if hinted == 0 {
                Step::Ask(
                    Request::ErrorCode { db: run.db },
                    Executing::Failed {
                        query,
                        log: None,
                        error: LastError {
                            message: LastErrorMsg::Code { db: run.db },
                            context: "error setting query hints",
                        },
                    },
                )
            } else {
                log_step(run, hinted)
            },
            (Executing::Log { run, query }, Reply::Object(log)) => execute_step(
                run,
                query,
                Some(log),
            ),
            (Executing::Execute { run, query, log }, Reply::Executed { result, count }) => if result
                == 0 && run.flags & JBQRYCOUNT == 0 {
                Step::Ask(
                    Request::ErrorCode { db: run.db },
                    Executing::Failed {
                        query,
                        log,
                        error: LastError {
                            message: LastErrorMsg::Code { db: run.db },
                            context: "error executing query",
                        },
                    },
                )
            } else {
                release_step(query, log, Ok((result, count)))
            },
            (Executing::NotCreated(error), reply) => match error.resume(reply) {
                Step::Ask(request, error) => Step::Ask(request, Executing::NotCreated(error)),
                Step::Done(error) => Step::Done(Err(error)),
            },
            (Executing::Failed { query, log, error }, reply) => match error.resume(reply) {
                Step::Ask(request, error) => Step::Ask(
                    request,
                    Executing::Failed { query, log, error },
                ),
                Step::Done(error) => release_step(query, log, Err(error)),
            },
            (Executing::FreeLog { query, output, .. }, Reply::Made) => release_step(
                query,
                None,
                output,
            ),
            (Executing::FreeQuery { output, .. }, Reply::Made) => Step::Done(output),
            _ => unreached(),
        }
    }
}

} // verus!
