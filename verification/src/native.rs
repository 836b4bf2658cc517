//! The calls that operations make on the storage engine, and its answers.
//!
//! The library never calls the engine itself. An operation hands out a
//! [`Request`], whoever drives it makes the call, and hands back the [`Reply`].
//! Both are generic in how they hold bytes and documents: vectors and documents
//! where they are run, sequences where they are reasoned about.

use vstd::prelude::*;
use vstd::utf8::{decode_utf8, valid_utf8};
use bson::Document;

use crate::document::{contents, Contents};
use crate::limits::{encodable, encodes};
use crate::text::from_utf8;
use crate::wire::{decodable, decodes};

verus! {

/// The address of an object that the engine owns. 0 is the null address.
pub type Handle = usize;

/// The identifier of a stored document.
#[derive(Clone, Copy, Debug, PartialEq, Eq)]
pub struct ObjectId {
    pub bytes: [u8; 12],
}

/// How the engine is told to lay out a new collection.
#[derive(Clone, Copy, Debug, PartialEq, Eq)]
pub struct EngineOptions {
    pub large: u8,
    pub compressed: u8,
    pub records: i64,
    pub cached_records: i32,
}

/// One call on the engine. `B` holds bytes.
#[derive(Debug, PartialEq, Eq)]
pub enum Request<B> {
    /// Make a database object. Answered by its handle.
    NewDatabase,
    /// Close a database object and free it.
    DeleteDatabase { db: Handle },
    /// Open the files at `path`, which ends in a zero byte. Answered by a status.
    OpenDatabase { db: Handle, path: B, mode: i32 },
    /// The code of the last error of a database. Answered by a number.
    ErrorCode { db: Handle },
    /// What an error code means. Answered by a text.
    ErrorMessage { code: i32 },
    /// List the collections of a database. Answered by the handle of a list.
    ListCollections { db: Handle },
    /// How many items a list has. Answered by a number.
    ListLength { list: Handle },
    /// The collection at an index of a list. Answered by its handle.
    ListItem { list: Handle, index: i32 },
    /// Free a list.
    DeleteList { list: Handle },
    /// The name of a collection. Answered by a text.
    CollectionName { coll: Handle },
    /// Look a collection up by its name, which ends in a zero byte. Answered by
    /// its handle.
    FindCollection { db: Handle, name: B },
    /// Look a collection up, and make it where there is none. Answered by its
    /// handle.
    CreateCollection { db: Handle, name: B, options: EngineOptions },
    /// Remove a collection, and its files where `prune` is not 0. Answered by a
    /// status.
    RemoveCollection { db: Handle, name: B, prune: u8 },
    /// Open a transaction. Answered by a status.
    BeginTransaction { coll: Handle },
    /// Keep what a transaction did. Answered by a status.
    CommitTransaction { coll: Handle },
    /// Undo what a transaction did. Answered by a status.
    AbortTransaction { coll: Handle },
    /// Whether a transaction is open. Answered by a status and a flag.
    TransactionStatus { coll: Handle },
    /// Store a document. Answered by a status and the identifier.
    SaveDocument { coll: Handle, document: B },
    /// Fetch a document by its identifier. Answered by its bytes, if it is there.
    LoadDocument { coll: Handle, id: ObjectId },
    /// The caller's next document to store. Answered by it, if there is one.
    NextDocument,
    /// Make a query. Answered by its handle.
    CreateQuery { db: Handle, criteria: B },
    /// Give a query its hints. Answered by the handle of the query to go on with.
    AddHints { db: Handle, query: Handle, hints: B },
    /// Free a query.
    DeleteQuery { query: Handle },
    /// Make a buffer for an execution log. Answered by its handle.
    NewLog,
    /// Free the buffer of an execution log.
    DeleteLog { log: Handle },
    /// Execute a query, with a log where `log` is not null. Answered by the
    /// handle of the results and a count.
    ExecuteQuery { coll: Handle, query: Handle, flags: i32, log: Handle },
    /// The document at an index of the results. Answered by its bytes, if the
    /// index has one.
    ResultItem { result: Handle, index: i32 },
    /// Free the results of a query.
    DisposeResult { result: Handle },
}

/// The answer to one request. `B` holds bytes, `D` a document.
#[derive(Debug)]
pub enum Reply<B, D> {
    /// The call is made; it has no result.
    Made,
    /// The handle of an object, or 0.
    Object(Handle),
    /// The truth value that the call returned.
    Status(u8),
    /// A number.
    Number(i32),
    /// A text, in UTF-8.
    Text(B),
    /// The bytes of a document, if there is one.
    Bytes(Option<B>),
    /// A truth value, and whether a transaction is open.
    Transaction { status: u8, active: u8 },
    /// A truth value, and the identifier of the stored document.
    Saved { status: u8, id: ObjectId },
    /// The handle of the results, or 0, and a count.
    Executed { result: Handle, count: u32 },
    /// A document, if there is one.
    Next(Option<D>),
}

/// A request as operations hand it out.
pub type NativeRequest = Request<Vec<u8>>;

/// A reply as operations take it.
pub type NativeReply = Reply<Vec<u8>, Document>;

/// A request as contracts speak of it.
pub type Call = Request<Seq<u8>>;

/// A reply as contracts speak of it.
pub type Answer = Reply<Seq<u8>, Contents>;

impl View for Request<Vec<u8>> {
    type V = Request<Seq<u8>>;

    open spec fn view(&self) -> Request<Seq<u8>> {
        match *self {
            Request::NewDatabase => Request::NewDatabase,
            Request::DeleteDatabase { db } => Request::DeleteDatabase { db },
            Request::OpenDatabase { db, path, mode } => Request::OpenDatabase {
                db,
                path: path@,
                mode,
            },
            Request::ErrorCode { db } => Request::ErrorCode { db },
            Request::ErrorMessage { code } => Request::ErrorMessage { code },
            Request::ListCollections { db } => Request::ListCollections { db },
            Request::ListLength { list } => Request::ListLength { list },
            Request::ListItem { list, index } => Request::ListItem { list, index },
            Request::DeleteList { list } => Request::DeleteList { list },
            Request::CollectionName { coll } => Request::CollectionName { coll },
            Request::FindCollection { db, name } => Request::FindCollection { db, name: name@ },
            Request::CreateCollection { db, name, options } => Request::CreateCollection {
                db,
                name: name@,
                options,
            },
            Request::RemoveCollection { db, name, prune } => Request::RemoveCollection {
                db,
                name: name@,
                prune,
            },
            Request::BeginTransaction { coll } => Request::BeginTransaction { coll },
            Request::CommitTransaction { coll } => Request::CommitTransaction { coll },
            Request::AbortTransaction { coll } => Request::AbortTransaction { coll },
            Request::TransactionStatus { coll } => Request::TransactionStatus { coll },
            Request::SaveDocument { coll, document } => Request::SaveDocument {
                coll,
                document: document@,
            },
            Request::LoadDocument { coll, id } => Request::LoadDocument { coll, id },
            Request::NextDocument => Request::NextDocument,
            Request::CreateQuery { db, criteria } => Request::CreateQuery {
                db,
                criteria: criteria@,
            },
            Request::AddHints { db, query, hints } => Request::AddHints {
                db,
                query,
                hints: hints@,
            },
            Request::DeleteQuery { query } => Request::DeleteQuery { query },
            Request::NewLog => Request::NewLog,
            Request::DeleteLog { log } => Request::DeleteLog { log },
            Request::ExecuteQuery { coll, query, flags, log } => Request::ExecuteQuery {
                coll,
                query,
                flags,
                log,
            },
            Request::ResultItem { result, index } => Request::ResultItem { result, index },
            Request::DisposeResult { result } => Request::DisposeResult { result },
        }
    }
}

impl View for Reply<Vec<u8>, Document> {
    type V = Reply<Seq<u8>, Contents>;

    open spec fn view(&self) -> Reply<Seq<u8>, Contents> {
        match *self {
            Reply::Made => Reply::Made,
            Reply::Object(handle) => Reply::Object(handle),
            Reply::Status(status) => Reply::Status(status),
            Reply::Number(number) => Reply::Number(number),
            Reply::Text(text) => Reply::Text(text@),
            Reply::Bytes(None) => Reply::Bytes(None),
            Reply::Bytes(Some(bytes)) => Reply::Bytes(Some(bytes@)),
            Reply::Transaction { status, active } => Reply::Transaction { status, active },
            Reply::Saved { status, id } => Reply::Saved { status, id },
            Reply::Executed { result, count } => Reply::Executed { result, count },
            Reply::Next(None) => Reply::Next(None),
            Reply::Next(Some(document)) => Reply::Next(Some(contents(document))),
        }
    }
}

impl Reply<Seq<u8>, Contents> {
    /// The handle that the answer gives.
    pub open spec fn object(self) -> Handle {
        self->Object_0
    }

    /// The truth value that the answer gives.
    pub open spec fn status(self) -> u8 {
        self->Status_0
    }

    /// The number that the answer gives.
    pub open spec fn number(self) -> i32 {
        self->Number_0
    }

    /// The text that the answer gives.
    pub open spec fn text(self) -> Seq<char> {
        decode_utf8(self->Text_0)
    }

    /// The bytes of a document that the answer gives, if any.
    pub open spec fn bytes(self) -> Option<Seq<u8>> {
        self->Bytes_0
    }

    /// The document that the answer gives, if any.
    pub open spec fn document(self) -> Option<Contents> {
        self->Next_0
    }
}

/// Whether a reply can be the answer to a request: it is of the kind that the
/// request asks for, a text is UTF-8, the bytes of a document are some that the
/// decoder takes, a document is one that the encoder takes, and no item comes at
/// the last index that `i32` has.
pub open spec fn answers(call: Call, answer: Answer) -> bool {
    match call {
        Request::NewDatabase
        | Request::ListCollections { .. }
        | Request::ListItem { .. }
        | Request::FindCollection { .. }
        | Request::CreateCollection { .. }
        | Request::CreateQuery { .. }
        | Request::AddHints { .. }
        | Request::NewLog => answer is Object,
        Request::OpenDatabase { .. }
        | Request::RemoveCollection { .. }
        | Request::BeginTransaction { .. }
        | Request::CommitTransaction { .. }
        | Request::AbortTransaction { .. } => answer is Status,
        Request::ErrorCode { .. } | Request::ListLength { .. } => answer is Number,
        Request::ErrorMessage { .. } | Request::CollectionName { .. } => {
            &&& answer matches Reply::Text(text)
            &&& valid_utf8(text)
        },
        Request::TransactionStatus { .. } => answer is Transaction,
        Request::SaveDocument { .. } => answer is Saved,
        Request::LoadDocument { .. } => {
            &&& answer matches Reply::Bytes(bytes)
            &&& bytes matches Some(bytes) ==> decodes(bytes)
        },
        Request::ResultItem { index, .. } => {
            &&& answer matches Reply::Bytes(bytes)
            &&& bytes matches Some(bytes) ==> decodes(bytes) && index < i32::MAX
        },
        Request::NextDocument => {
            &&& answer matches Reply::Next(document)
            &&& document matches Some(document) ==> encodes(document)
        },
        Request::ExecuteQuery { .. } => answer is Executed,
        Request::DeleteDatabase { .. }
        | Request::DeleteList { .. }
        | Request::DeleteQuery { .. }
        | Request::DeleteLog { .. }
        | Request::DisposeResult { .. } => answer is Made,
    }
}

/// Tells whether a reply can be the answer to a request.
pub fn is_answer(request: &NativeRequest, reply: &NativeReply) -> (result: bool)
    ensures
        result == answers(request@, reply@),
{
    match request {
        Request::NewDatabase
        | Request::ListCollections { .. }
        | Request::ListItem { .. }
        | Request::FindCollection { .. }
        | Request::CreateCollection { .. }
        | Request::CreateQuery { .. }
        | Request::AddHints { .. }
        | Request::NewLog => matches!(reply, Reply::Object(_)),
        Request::OpenDatabase { .. }
        | Request::RemoveCollection { .. }
        | Request::BeginTransaction { .. }
        | Request::CommitTransaction { .. }
        | Request::AbortTransaction { .. } => matches!(reply, Reply::Status(_)),
        Request::ErrorCode { .. } | Request::ListLength { .. } => matches!(
            reply,
            Reply::Number(_)
        ),
        Request::ErrorMessage { .. } | Request::CollectionName { .. } => match reply {
            Reply::Text(text) => from_utf8(text.as_slice()).is_some(),
            _ => false,
        },
        Request::TransactionStatus { .. } => matches!(reply, Reply::Transaction { .. }),
        Request::SaveDocument { .. } => matches!(reply, Reply::Saved { .. }),
        Request::LoadDocument { .. } => match reply {
            Reply::Bytes(None) => true,
            Reply::Bytes(Some(bytes)) => decodable(bytes.as_slice()),
            _ => false,
        },
        Request::ResultItem { index, .. } => match reply {
            Reply::Bytes(None) => true,
            Reply::Bytes(Some(bytes)) => *index < i32::MAX && decodable(bytes.as_slice()),
            _ => false,
        },
        Request::NextDocument => match reply {
            Reply::Next(None) => true,
            Reply::Next(Some(document)) => encodable(document),
            _ => false,
        },
        Request::ExecuteQuery { .. } => matches!(reply, Reply::Executed { .. }),
        Request::DeleteDatabase { .. }
        | Request::DeleteList { .. }
        | Request::DeleteQuery { .. }
        | Request::DeleteLog { .. }
        | Request::DisposeResult { .. } => matches!(reply, Reply::Made),
    }
}

} // verus!
