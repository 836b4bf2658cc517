//! Finding, making and removing the collections of a database.

use vstd::prelude::*;
use vstd::pervasive::unreached;

use crate::collection::Collection;
use crate::database::{explained, failed, Database};
use crate::error::{result_view, Error, ErrorView};
use crate::last_error::{last_error_msg_plan, LastError, LastErrorMsg};
use crate::native::{Answer, Call, EngineOptions, Handle, NativeReply, Reply, Request};
use crate::operation::{ask, follows, Operation, Plan, Step};
use crate::options::{truth, CollectionOptions};
use crate::text::c_string;

verus! {

/// The plan of looking a collection up. Where the engine has none, its last error
/// tells apart that there is none from that it could not look.
pub open spec fn get_collection_plan<'db>(
    db: &'db Database,
    name: Seq<u8>,
    replies: Seq<Answer>,
    at: int,
) -> Plan<Result<Option<Collection<'db>>, ErrorView>> {
    if name.contains(0) {
        failed("invalid collection name"@, at)
    } else {
        ask(
            Request::FindCollection { db: db.handle, name: name.push(0) },
            replies,
            at,
            |found: Answer|
                if found.object() == 0 {
                    last_error_msg_plan(db.handle, replies, at + 1).and_next(
                        |message: Option<Seq<char>>, at: int| not_found(message, at),
                    )
                } else {
                    Plan::Done(Ok(Some(Collection { coll: found.object(), db })), at + 1)
                },
        )
    }
}

/// The plan once the engine has said why it gave no collection.
pub open spec fn not_found<'db>(message: Option<Seq<char>>, at: int) -> Plan<
    Result<Option<Collection<'db>>, ErrorView>,
> {
    match message {
        None => Plan::Done(Ok(None), at),
        Some(message) => failed(message, at),
    }
}

/// Looks a collection up.
pub enum FindingCollection<'db> {
    Find { db: &'db Database, name: Ghost<Seq<u8>> },
    Failed(LastErrorMsg),
}

impl Database {
    /// Looks the collection of that name up.
    pub fn get_collection<'db>(&'db self, name: Vec<u8>) -> (step: Step<
        FindingCollection<'db>,
        Result<Option<Collection<'db>>, Error>,
    >)
        ensures
            follows(
                step,
                |replies: Seq<Answer>, at: int| get_collection_plan(self, name@, replies, at),
            ),
    {
        let ghost plain = name@;
        match c_string(name) {
            None => Step::Done(Err(Error::Other("invalid collection name".to_owned()))),
            Some(name) => Step::Ask(
                Request::FindCollection { db: self.handle, name },
                FindingCollection::Find { db: self, name: Ghost(plain.push(0)) },
            ),
        }
    }
}

impl<'db> Operation for FindingCollection<'db> {
    type Output = Result<Option<Collection<'db>>, Error>;

    type Outcome = Result<Option<Collection<'db>>, ErrorView>;

    open spec fn outcome(output: Result<Option<Collection<'db>>, Error>) -> Result<
        Option<Collection<'db>>,
        ErrorView,
    > {
        result_view(output)
    }

    open spec fn awaiting(&self) -> Call {
        match *self {
            FindingCollection::Find { db, name } => Request::FindCollection {
                db: db.handle,
                name: name@,
            },
            FindingCollection::Failed(message) => message.awaiting(),
        }
    }

    open spec fn after(&self, answer: Answer, replies: Seq<Answer>, at: int) -> Plan<
        Result<Option<Collection<'db>>, ErrorView>,
    > {
        match *self {
            FindingCollection::Find { db, .. } => if answer.object() == 0 {
                last_error_msg_plan(db.handle, replies, at).and_next(
                    |message: Option<Seq<char>>, at: int| not_found(message, at),
                )
            } else {
                Plan::Done(Ok(Some(Collection { coll: answer.object(), db })), at)
            },
            FindingCollection::Failed(message) => message.after(answer, replies, at).and_next(
                |message: Option<Seq<char>>, at: int| not_found(message, at),
            ),
        }
    }

    fn resume(self, reply: NativeReply) -> (step: Step<
        Self,
        Result<Option<Collection<'db>>, Error>,
    >) {
        match (self, reply) {
            (FindingCollection::Find { db, .. }, Reply::Object(coll)) => if coll == 0 {
                let db: Handle = db.handle;
                Step::Ask(
                    Request::ErrorCode { db },
                    FindingCollection::Failed(LastErrorMsg::Code { db }),
                )
            } else {
                Step::Done(Ok(Some(Collection { coll, db })))
            },
            (FindingCollection::Failed(message), reply) => match message.resume(reply) {
                Step::Ask(request, message) => Step::Ask(
                    request,
                    FindingCollection::Failed(message),
                ),
                Step::Done(None) => Step::Done(Ok(None)),
                Step::Done(Some(message)) => Step::Done(Err(Error::Other(message))),
            },
            _ => unreached(),
        }
    }
}

/// The plan of looking a collection up and making it where there is none.
pub open spec fn get_or_create_collection_plan<'db>(
    db: &'db Database,
    name: Seq<u8>,
    options: EngineOptions,
    replies: Seq<Answer>,
    at: int,
) -> Plan<Result<Collection<'db>, ErrorView>> {
    if name.contains(0) {
        failed("invalid collection name"@, at)
    } else {
        ask(
            Request::CreateCollection { db: db.handle, name: name.push(0), options },
            replies,
            at,
            |made: Answer|
                if made.object() == 0 {
                    explained(db.handle, "cannot create or open a collection"@, replies, at + 1)
                } else {
                    Plan::Done(Ok(Collection { coll: made.object(), db }), at + 1)
                },
        )
    }
}

/// Looks a collection up and makes it where there is none.
pub enum CreatingCollection<'db> {
    Create { db: &'db Database, name: Ghost<Seq<u8>>, options: EngineOptions },
    Failed(LastError),
}

impl Database {
    /// Looks the collection of that name up and makes it, with those options,
    /// where there is none.
    pub fn get_or_create_collection<'db>(
        &'db self,
        name: Vec<u8>,
        options: CollectionOptions,
    ) -> (step: Step<CreatingCollection<'db>, Result<Collection<'db>, Error>>)
        ensures
            follows(
                step,
                |replies: Seq<Answer>, at: int|
                    get_or_create_collection_plan(self, name@, options.for_engine(), replies, at),
            ),
    {
        let ghost plain = name@;
        match c_string(name) {
            None => Step::Done(Err(Error::Other("invalid collection name".to_owned()))),
            Some(name) => {
                let options = options.to_engine();
                Step::Ask(
                    Request::CreateCollection { db: self.handle, name, options },
                    CreatingCollection::Create { db: self, name: Ghost(plain.push(0)), options },
                )
            },
        }
    }
}

impl<'db> Operation for CreatingCollection<'db> {
    type Output = Result<Collection<'db>, Error>;

    type Outcome = Result<Collection<'db>, ErrorView>;

    open spec fn outcome(output: Result<Collection<'db>, Error>) -> Result<
        Collection<'db>,
        ErrorView,
    > {
        result_view(output)
    }

    open spec fn awaiting(&self) -> Call {
        match *self {
            CreatingCollection::Create { db, name, options } => Request::CreateCollection {
                db: db.handle,
                name: name@,
                options,
            },
            CreatingCollection::Failed(error) => error.awaiting(),
        }
    }

    open spec fn after(&self, answer: Answer, replies: Seq<Answer>, at: int) -> Plan<
        Result<Collection<'db>, ErrorView>,
    > {
        match *self {
            CreatingCollection::Create { db, .. } => if answer.object() == 0 {
                explained(db.handle, "cannot create or open a collection"@, replies, at)
            } else {
                Plan::Done(Ok(Collection { coll: answer.object(), db }), at)
            },
            CreatingCollection::Failed(error) => error.after(answer, replies, at).and_next(
                |error: ErrorView, at: int| Plan::Done(Err(error), at),
            ),
        }
    }

    fn resume(self, reply: NativeReply) -> (step: Step<Self, Result<Collection<'db>, Error>>) {
        match (self, reply) {
            (CreatingCollection::Create { db, .. }, Reply::Object(coll)) => if coll == 0 {
                let db: Handle = db.handle;
                Step::Ask(
                    Request::ErrorCode { db },
                    CreatingCollection::Failed(
                        LastError {
                            message: LastErrorMsg::Code { db },
                            context: "cannot create or open a collection",
                        },
                    ),
                )
            } else {
                Step::Done(Ok(Collection { coll, db }))
            },
            (CreatingCollection::Failed(error), reply) => match error.resume(reply) {
                Step::Ask(request, error) => Step::Ask(request, CreatingCollection::Failed(error)),
                Step::Done(error) => Step::Done(Err(error)),
            },
            _ => unreached(),
        }
    }
}

/// The plan of removing a collection.
pub open spec fn drop_collection_plan(
    db: Handle,
    name: Seq<u8>,
    prune: u8,
    replies: Seq<Answer>,
    at: int,
) -> Plan<Result<(), ErrorView>> {
    if name.contains(0) {
        failed("invalid collection name"@, at)
    } else {
        ask(
            Request::RemoveCollection { db, name: name.push(0), prune },
            replies,
            at,
            |removed: Answer|
                if removed.status() != 0 {
                    Plan::Done(Ok(()), at + 1)
                } else {
                    explained(db, "cannot remove a collection"@, replies, at + 1)
                },
        )
    }
}

/// Removes a collection.
pub enum RemovingCollection {
    Remove { db: Handle, name: Ghost<Seq<u8>>, prune: u8 },
    Failed(LastError),
}

impl Database {
    /// Removes the collection of that name, and its files where `prune` says so.
    pub fn drop_collection(&self, name: Vec<u8>, prune: bool) -> (step: Step<
        RemovingCollection,
        Result<(), Error>,
    >)
        ensures
            follows(
                step,
                |replies: Seq<Answer>, at: int|
                    drop_collection_plan(self.handle, name@, truth(prune), replies, at),
            ),
    {
        let ghost plain = name@;
        match c_string(name) {
            None => Step::Done(Err(Error::Other("invalid collection name".to_owned()))),
            Some(name) => {
                let prune: u8 = prune as u8;
                Step::Ask(
                    Request::RemoveCollection { db: self.handle, name, prune },
                    RemovingCollection::Remove {
                        db: self.handle,
                        name: Ghost(plain.push(0)),
                        prune,
                    },
                )
            },
        }
    }
}

impl Operation for RemovingCollection {
    type Output = Result<(), Error>;

    type Outcome = Result<(), ErrorView>;

    open spec fn outcome(output: Result<(), Error>) -> Result<(), ErrorView> {
        result_view(output)
    }

    open spec fn awaiting(&self) -> Call {
        match *self {
            RemovingCollection::Remove { db, name, prune } => Request::RemoveCollection {
                db,
                name: name@,
                prune,
            },
            RemovingCollection::Failed(error) => error.awaiting(),
        }
    }

    open spec fn after(&self, answer: Answer, replies: Seq<Answer>, at: int) -> Plan<
        Result<(), ErrorView>,
    > {
        match *self {
            RemovingCollection::Remove { db, .. } => if answer.status() != 0 {
                Plan::Done(Ok(()), at)
            } else {
                explained(db, "cannot remove a collection"@, replies, at)
            },
            RemovingCollection::Failed(error) => error.after(answer, replies, at).and_next(
                |error: ErrorView, at: int| Plan::Done(Err(error), at),
            ),
        }
    }

    fn resume(self, reply: NativeReply) -> (step: Step<Self, Result<(), Error>>) {
        match (self, reply) {
            (RemovingCollection::Remove { db, .. }, Reply::Status(status)) => if status != 0 {
                Step::Done(Ok(()))
            } else {
                Step::Ask(
                    Request::ErrorCode { db },
                    RemovingCollection::Failed(
                        LastError {
                            message: LastErrorMsg::Code { db },
                            context: "cannot remove a collection",
                        },
                    ),
                )
            },
            (RemovingCollection::Failed(error), reply) => match error.resume(reply) {
                Step::Ask(request, error) => Step::Ask(request, RemovingCollection::Failed(error)),
                Step::Done(error) => Step::Done(Err(error)),
            },
            _ => unreached(),
        }
    }
}

} // verus!
