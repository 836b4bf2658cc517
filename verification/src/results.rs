//! What a query gives: a count, one document or all of them.

use vstd::prelude::*;
use vstd::pervasive::unreached;
use bson::Document;

use crate::document::{decode, read, read_outcome, read_view, reading, Contents};
use crate::error::{result_view, Error, ErrorView};
use crate::execution::{Executing, Query, JBQRYCOUNT, JBQRYFINDONE};
use crate::native::{Answer, Call, Handle, NativeReply, NativeRequest, Reply, Request};
use crate::operation::{ask, follows, step_plan, Operation, Plan, Step};
use crate::storage::{found, loaded_view};

verus! {

/// The count of an execution.
pub open spec fn counted(executed: Result<(Handle, u32), ErrorView>) -> Result<u32, ErrorView> {
    match executed {
        Ok((_, count)) => Ok(count),
        Err(error) => Err(error),
    }
}

/// Executes a query for its count.
pub struct Counting {
    pub executing: Executing,
}

impl<'coll, 'db, 'q> Query<'coll, 'db, 'q> {
    /// The plan of executing this query for its count.
    pub open spec fn count_plan(self, replies: Seq<Answer>, at: int) -> Plan<
        Result<u32, ErrorView>,
    > {
        self.plan(JBQRYCOUNT, replies, at).and_next(
            |executed: Result<(Handle, u32), ErrorView>, at: int|
                Plan::Done(counted(executed), at),
        )
    }

    /// Counts the documents that match.
    pub fn count(self) -> (step: Step<Counting, Result<u32, Error>>)
        ensures
            follows(step, |replies: Seq<Answer>, at: int| self.count_plan(replies, at)),
    {
        let executed = self.execute(JBQRYCOUNT);
        proof {
            assert forall|replies: Seq<Answer>, at: int| #[trigger]
                self.plan(JBQRYCOUNT, replies, at) == step_plan(executed, replies, at) by {}
        }
        match executed {
            Step::Ask(request, executing) => Step::Ask(request, Counting { executing }),
            Step::Done(Ok((_, count))) => Step::Done(Ok(count)),
            Step::Done(Err(error)) => Step::Done(Err(error)),
        }
    }

    /// Makes the changes that the criteria ask for, and counts the documents that
    /// match.
    pub fn update(self) -> (step: Step<Counting, Result<u32, Error>>)
        ensures
            follows(step, |replies: Seq<Answer>, at: int| self.count_plan(replies, at)),
    {
        self.count()
    }
}

impl Operation for Counting {
    type Output = Result<u32, Error>;

    type Outcome = Result<u32, ErrorView>;

    open spec fn outcome(output: Result<u32, Error>) -> Result<u32, ErrorView> {
        result_view(output)
    }

    open spec fn awaiting(&self) -> Call {
        self.executing.awaiting()
    }

    open spec fn after(&self, answer: Answer, replies: Seq<Answer>, at: int) -> Plan<
        Result<u32, ErrorView>,
    > {
        self.executing.after(answer, replies, at).and_next(
            |executed: Result<(Handle, u32), ErrorView>, at: int|
                Plan::Done(counted(executed), at),
        )
    }

    fn resume(self, reply: NativeReply) -> (step: Step<Self, Result<u32, Error>>) {
        match self.executing.resume(reply) {
            Step::Ask(request, executing) => Step::Ask(request, Counting { executing }),
            Step::Done(Ok((_, count))) => Step::Done(Ok(count)),
            Step::Done(Err(error)) => Step::Done(Err(error)),
        }
    }
}

/// The results of a query, read from the first on.
#[derive(Debug, PartialEq, Eq)]
pub struct QueryResult {
    /// The engine's object.
    pub result: Handle,
    /// The index of the next document.
    pub current: i32,
    /// How many documents there are.
    pub total: u32,
}

/// The results of an execution, before any is read.
pub open spec fn results(executed: Result<(Handle, u32), ErrorView>) -> Result<
    QueryResult,
    ErrorView,
> {
    match executed {
        Ok((result, total)) => Ok(QueryResult { result, current: 0, total }),
        Err(error) => Err(error),
    }
}

/// Executes a query for all its results.
pub struct Finding {
    pub executing: Executing,
}

impl<'coll, 'db, 'q> Query<'coll, 'db, 'q> {
    /// The plan of executing this query for all its results.
    pub open spec fn find_plan(self, replies: Seq<Answer>, at: int) -> Plan<
        Result<QueryResult, ErrorView>,
    > {
        self.plan(0, replies, at).and_next(
            |executed: Result<(Handle, u32), ErrorView>, at: int|
                Plan::Done(results(executed), at),
        )
    }

    /// Finds the documents that match.
    pub fn find(self) -> (step: Step<Finding, Result<QueryResult, Error>>)
        ensures
            follows(step, |replies: Seq<Answer>, at: int| self.find_plan(replies, at)),
    {
        let executed = self.execute(0);
        proof {
            assert forall|replies: Seq<Answer>, at: int| #[trigger]
                self.plan(0, replies, at) == step_plan(executed, replies, at) by {}
        }
        match executed {
            Step::Ask(request, executing) => Step::Ask(request, Finding { executing }),
            Step::Done(Ok((result, total))) => Step::Done(
                Ok(QueryResult { result, current: 0, total }),
            ),
            Step::Done(Err(error)) => Step::Done(Err(error)),
        }
    }
}

impl Operation for Finding {
    type Output = Result<QueryResult, Error>;

    type Outcome = Result<QueryResult, ErrorView>;

    open spec fn outcome(output: Result<QueryResult, Error>) -> Result<QueryResult, ErrorView> {
        result_view(output)
    }

    open spec fn awaiting(&self) -> Call {
        self.executing.awaiting()
    }

    open spec fn after(&self, answer: Answer, replies: Seq<Answer>, at: int) -> Plan<
        Result<QueryResult, ErrorView>,
    > {
        self.executing.after(answer, replies, at).and_next(
            |executed: Result<(Handle, u32), ErrorView>, at: int|
                Plan::Done(results(executed), at),
        )
    }

    fn resume(self, reply: NativeReply) -> (step: Step<Self, Result<QueryResult, Error>>) {
        match self.executing.resume(reply) {
            Step::Ask(request, executing) => Step::Ask(request, Finding { executing }),
            Step::Done(Ok((result, total))) => Step::Done(
                Ok(QueryResult { result, current: 0, total }),
            ),
            Step::Done(Err(error)) => Step::Done(Err(error)),
        }
    }
}

/// What reading the next document gives: the results after it, and the document
/// or the failure to read it, if there was one.
pub open spec fn next_outcome(results: QueryResult, item: Option<Seq<u8>>) -> (
    QueryResult,
    Option<Result<Contents, ErrorView>>,
) {
    match item {
        None => (results, None),
        Some(bytes) => (
            QueryResult { current: (results.current + 1) as i32, ..results },
            Some(read_outcome(reading(bytes))),
        ),
    }
}

/// The plan of reading the next document.
pub open spec fn next_plan(results: QueryResult, replies: Seq<Answer>, at: int) -> Plan<
    (QueryResult, Option<Result<Contents, ErrorView>>),
> {
    ask(
        Request::ResultItem { result: results.result, index: results.current },
        replies,
        at,
        |item: Answer| Plan::Done(next_outcome(results, item.bytes()), at + 1),
    )
}

/// Reads the next document of the results.
pub struct Fetching {
    pub results: QueryResult,
}

impl QueryResult {
    /// How many documents there are.
    pub fn count(&self) -> (count: u32)
        ensures
            count == self.total,
    {
        self.total
    }

    /// Reads the next document, if there is one.
    pub fn next(self) -> (step: Step<Fetching, (QueryResult, Option<Result<Document, Error>>)>)
        ensures
            follows(step, |replies: Seq<Answer>, at: int| next_plan(self, replies, at)),
    {
        Step::Ask(
            Request::ResultItem { result: self.result, index: self.current },
            Fetching { results: self },
        )
    }

    /// The request that frees the results. Nothing may be read after that.
    pub fn dispose(self) -> (request: NativeRequest)
        ensures
            request@ == (Call::DisposeResult { result: self.result }),
    {
        Request::DisposeResult { result: self.result }
    }
}

impl Operation for Fetching {
    type Output = (QueryResult, Option<Result<Document, Error>>);

    type Outcome = (QueryResult, Option<Result<Contents, ErrorView>>);

    open spec fn outcome(output: (QueryResult, Option<Result<Document, Error>>)) -> (
        QueryResult,
        Option<Result<Contents, ErrorView>>,
    ) {
        match output {
            (results, Some(item)) => (results, Some(read_view(item))),
            (results, None) => (results, None),
        }
    }

    open spec fn awaiting(&self) -> Call {
        Request::ResultItem { result: self.results.result, index: self.results.current }
    }

    open spec fn after(&self, answer: Answer, replies: Seq<Answer>, at: int) -> Plan<
        (QueryResult, Option<Result<Contents, ErrorView>>),
    > {
        Plan::Done(next_outcome(self.results, answer.bytes()), at)
    }

    fn resume(self, reply: NativeReply) -> (step: Step<
        Self,
        (QueryResult, Option<Result<Document, Error>>),
    >) {
        match reply {
            Reply::Bytes(None) => Step::Done((self.results, None)),
            Reply::Bytes(Some(bytes)) => {
                let results = QueryResult { current: self.results.current + 1, ..self.results };
                Step::Done((results, Some(read(decode(bytes.as_slice())))))
            },
            _ => unreached(),
        }
    }
}

/// The plan of reading the first document of the results, if there is one, and
/// of freeing them.
pub open spec fn first_plan(result: Handle, replies: Seq<Answer>, at: int) -> Plan<
    Result<Option<Contents>, ErrorView>,
> {
    ask(
        Request::ResultItem { result, index: 0 },
        replies,
        at,
        |item: Answer| dispose_plan(result, first(item.bytes()), replies, at + 1),
    )
}

/// What is given of the first document.
pub open spec fn first(item: Option<Seq<u8>>) -> Result<Option<Contents>, ErrorView> {
    match item {
        None => Ok(None),
        Some(bytes) => found(read_outcome(reading(bytes))),
    }
}

/// The plan of freeing the results and ending with `output`.
pub open spec fn dispose_plan(
    result: Handle,
    output: Result<Option<Contents>, ErrorView>,
    replies: Seq<Answer>,
    at: int,
) -> Plan<Result<Option<Contents>, ErrorView>> {
    ask(
        Request::DisposeResult { result },
        replies,
        at,
        |freed: Answer| Plan::Done(output, at + 1),
    )
}

/// The plan once a query was executed for its first result.
pub open spec fn first_of(
    executed: Result<(Handle, u32), ErrorView>,
    replies: Seq<Answer>,
    at: int,
) -> Plan<Result<Option<Contents>, ErrorView>> {
    match executed {
        Ok((result, _)) => first_plan(result, replies, at),
        Err(error) => Plan::Done(Err(error), at),
    }
}

/// Executes a query for its first result.
pub enum FindingOne {
    Execute(Executing),
    Item { result: Handle },
    Dispose { result: Handle, output: Result<Option<Document>, Error> },
}

impl<'coll, 'db, 'q> Query<'coll, 'db, 'q> {
    /// The plan of executing this query for its first result.
    pub open spec fn find_one_plan(self, replies: Seq<Answer>, at: int) -> Plan<
        Result<Option<Contents>, ErrorView>,
    > {
        self.plan(JBQRYFINDONE, replies, at).and_next(
            |executed: Result<(Handle, u32), ErrorView>, at: int| first_of(executed, replies, at),
        )
    }

    /// Finds one document that matches, if there is one.
    pub fn find_one(self) -> (step: Step<FindingOne, Result<Option<Document>, Error>>)
        ensures
            follows(step, |replies: Seq<Answer>, at: int| self.find_one_plan(replies, at)),
    {
        let executed = self.execute(JBQRYFINDONE);
        proof {
            assert forall|replies: Seq<Answer>, at: int| #[trigger]
                self.plan(JBQRYFINDONE, replies, at) == step_plan(executed, replies, at) by {}
        }
        match executed {
            Step::Ask(request, executing) => Step::Ask(request, FindingOne::Execute(executing)),
            Step::Done(Ok((result, _))) => Step::Ask(
                Request::ResultItem { result, index: 0 },
                FindingOne::Item { result },
            ),
            Step::Done(Err(error)) => Step::Done(Err(error)),
        }
    }
}

impl Operation for FindingOne {
    type Output = Result<Option<Document>, Error>;

    type Outcome = Result<Option<Contents>, ErrorView>;

    open spec fn outcome(output: Result<Option<Document>, Error>) -> Result<
        Option<Contents>,
        ErrorView,
    > {
        loaded_view(output)
    }

    open spec fn awaiting(&self) -> Call {
        match *self {
            FindingOne::Execute(executing) => executing.awaiting(),
            FindingOne::Item { result } => Request::ResultItem { result, index: 0 },
            FindingOne::Dispose { result, .. } => Request::DisposeResult { result },
        }
    }

    open spec fn after(&self, answer: Answer, replies: Seq<Answer>, at: int) -> Plan<
        Result<Option<Contents>, ErrorView>,
    > {
        match *self {
            FindingOne::Execute(executing) => executing.after(answer, replies, at).and_next(
                |executed: Result<(Handle, u32), ErrorView>, at: int|
                    first_of(executed, replies, at),
            ),
            FindingOne::Item { result } => dispose_plan(
                result,
                first(answer.bytes()),
                replies,
                at,
            ),
            FindingOne::Dispose { output, .. } => Plan::Done(loaded_view(output), at),
        }
    }

    fn resume(self, reply: NativeReply) -> (step: Step<Self, Result<Option<Document>, Error>>) {
        match (self, reply) {
            (FindingOne::Execute(executing), reply) => match executing.resume(reply) {
                Step::Ask(request, executing) => Step::Ask(request, FindingOne::Execute(executing)),
                Step::Done(Ok((result, _))) => Step::Ask(
                    Request::ResultItem { result, index: 0 },
                    FindingOne::Item { result },
                ),
                Step::Done(Err(error)) => Step::Done(Err(error)),
            },
            (FindingOne::Item { result }, Reply::Bytes(item)) => {
                let output = match item {
                    None => Ok(None),
                    Some(bytes) => match read(decode(bytes.as_slice())) {
                        Ok(document) => Ok(Some(document)),
                        Err(error) => Err(error),
                    },
                };
                Step::Ask(
                    Request::DisposeResult { result },
                    FindingOne::Dispose { result, output },
                )
            },
            (FindingOne::Dispose { output, .. }, Reply::Made) => Step::Done(output),
            _ => unreached(),
        }
    }
}

} // verus!
