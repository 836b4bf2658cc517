//! That what the contracts speak of is what is there: requests, replies, errors and
//! outputs mean themselves.

use vstd::prelude::*;
use vstd::utf8::{decode_utf8, valid_utf8};
use bson::{Document, EncoderError};

use crate::collection::{CheckingTransaction, Collection, Naming};
use crate::database::Database;
use crate::document::{contents, encoded_view, Contents};
use crate::error::{Error, ErrorView};
use crate::execution::{Executing, JBQRYCOUNT, JBQRYFINDONE};
use crate::last_error::{LastError, LastErrorMsg};
use crate::limits::encodes;
use crate::listing::{names_view, ListingCollections};
use crate::lookup::{CreatingCollection, FindingCollection, RemovingCollection};
use crate::native::{is_answer, Answer, Call, Handle, NativeReply, NativeRequest, ObjectId, Reply};
use crate::native::Request;
use crate::opening::Opening;
use crate::operation::Operation;
use crate::results::{Counting, Fetching, Finding, FindingOne, QueryResult};
use crate::storage::{Loading, Saving, SavingAll};
use crate::text::{c_string, explain};
use crate::transaction::{Beginning, Ending, Transaction};
use crate::wire::decodes;

verus! {

/// A request is seen as it is made, with its bytes as a sequence.
pub proof fn law_requests_mean_themselves(request: NativeRequest)
    ensures
        match request {
            Request::NewDatabase => request@ is NewDatabase,
            Request::DeleteDatabase { db } => request@ == (Call::DeleteDatabase { db }),
            Request::OpenDatabase { db, path, mode } => request@ == (Call::OpenDatabase {
                db, path: path@, mode,
            }),
            Request::ErrorCode { db } => request@ == (Call::ErrorCode { db }),
            Request::ErrorMessage { code } => request@ == (Call::ErrorMessage { code }),
            Request::ListCollections { db } => request@ == (Call::ListCollections { db }),
            Request::ListLength { list } => request@ == (Call::ListLength { list }),
            Request::ListItem { list, index } => request@ == (Call::ListItem { list, index }),
            Request::DeleteList { list } => request@ == (Call::DeleteList { list }),
            Request::CollectionName { coll } => request@ == (Call::CollectionName { coll }),
            Request::FindCollection { db, name } => request@ == (Call::FindCollection {
                db, name: name@,
            }),
            Request::CreateCollection { db, name, options } => request@ == (Call::CreateCollection {
                db, name: name@, options,
            }),
            Request::RemoveCollection { db, name, prune } => request@ == (Call::RemoveCollection {
                db, name: name@, prune,
            }),
            Request::BeginTransaction { coll } => request@ == (Call::BeginTransaction { coll }),
            Request::CommitTransaction { coll } => request@ == (Call::CommitTransaction { coll }),
            Request::AbortTransaction { coll } => request@ == (Call::AbortTransaction { coll }),
            Request::TransactionStatus { coll } => request@ == (Call::TransactionStatus { coll }),
            Request::SaveDocument { coll, document } => request@ == (Call::SaveDocument {
                coll, document: document@,
            }),
            Request::LoadDocument { coll, id } => request@ == (Call::LoadDocument { coll, id }),
            Request::NextDocument => request@ is NextDocument,
            Request::CreateQuery { db, criteria } => request@ == (Call::CreateQuery {
                db, criteria: criteria@,
            }),
            Request::AddHints { db, query, hints } => request@ == (Call::AddHints {
                db, query, hints: hints@,
            }),
            Request::DeleteQuery { query } => request@ == (Call::DeleteQuery { query }),
            Request::NewLog => request@ is NewLog,
            Request::DeleteLog { log } => request@ == (Call::DeleteLog { log }),
            Request::ExecuteQuery { coll, query, flags, log } => request@ == (Call::ExecuteQuery {
                coll, query, flags, log,
            }),
            Request::ResultItem { result, index } => request@ == (Call::ResultItem {
                result, index,
            }),
            Request::DisposeResult { result } => request@ == (Call::DisposeResult { result }),
        },
{
}

/// A reply is seen as it is given, with its bytes as a sequence and its document
/// by what it holds.
pub proof fn law_replies_mean_themselves(reply: NativeReply)
    ensures
        match reply {
            Reply::Made => reply@ is Made,
            Reply::Object(object) => reply@ == Answer::Object(object),
            Reply::Status(status) => reply@ == Answer::Status(status),
            Reply::Number(number) => reply@ == Answer::Number(number),
            Reply::Text(text) => reply@ == Answer::Text(text@),
            Reply::Bytes(None) => reply@ == Answer::Bytes(None),
            Reply::Bytes(Some(bytes)) => reply@ == Answer::Bytes(Some(bytes@)),
            Reply::Transaction { status, active } => reply@ == (Answer::Transaction {
                status,
                active,
            }),
            Reply::Saved { status, id } => reply@ == (Answer::Saved { status, id }),
            Reply::Executed { result, count } => reply@ == (Answer::Executed { result, count }),
            Reply::Next(None) => reply@ == Answer::Next(None),
            Reply::Next(Some(document)) => reply@ == Answer::Next(Some(contents(document))),
        },
{
}

/// What an answer gives is what is in it.
pub proof fn law_answers_give_what_they_hold(
    object: Handle,
    status: u8,
    number: i32,
    text: Seq<u8>,
    bytes: Option<Seq<u8>>,
    document: Option<Contents>,
)
    ensures
        Answer::Object(object).object() == object,
        Answer::Status(status).status() == status,
        Answer::Number(number).number() == number,
        Answer::Text(text).text() == decode_utf8(text),
        Answer::Bytes(bytes).bytes() == bytes,
        Answer::Next(document).document() == document,
{
}

/// Which replies are taken for the answer to which request.
pub proof fn law_is_answer(request: NativeRequest, reply: NativeReply, result: bool)
    requires
        call_ensures(is_answer, (&request, &reply), result),
    ensures
        result <==> match request {
            Request::NewDatabase
            | Request::ListCollections { .. }
            | Request::ListItem { .. }
            | Request::FindCollection { .. }
            | Request::CreateCollection { .. }
            | Request::CreateQuery { .. }
            | Request::AddHints { .. }
            | Request::NewLog => reply is Object,
            Request::OpenDatabase { .. }
            | Request::RemoveCollection { .. }
            | Request::BeginTransaction { .. }
            | Request::CommitTransaction { .. }
            | Request::AbortTransaction { .. } => reply is Status,
            Request::ErrorCode { .. } | Request::ListLength { .. } => reply is Number,
            Request::ErrorMessage { .. } | Request::CollectionName { .. } => reply is Text
                && valid_utf8(reply->Text_0@),
            Request::TransactionStatus { .. } => reply is Transaction,
            Request::SaveDocument { .. } => reply is Saved,
            Request::LoadDocument { .. } => reply is Bytes && (reply->Bytes_0 is Some ==> decodes(
                reply->Bytes_0->0@,
            )),
            Request::ResultItem { index, .. } => reply is Bytes && (reply->Bytes_0 is Some
                ==> index < i32::MAX && decodes(reply->Bytes_0->0@)),
            Request::NextDocument => reply is Next && (reply->Next_0 is Some ==> encodes(
                contents(reply->Next_0->0),
            )),
            Request::ExecuteQuery { .. } => reply is Executed,
            Request::DeleteDatabase { .. }
            | Request::DeleteList { .. }
            | Request::DeleteQuery { .. }
            | Request::DeleteLog { .. }
            | Request::DisposeResult { .. } => reply is Made,
        },
{
}

/// An error is seen as it is, with its text as a sequence.
pub proof fn law_errors_mean_themselves(error: Error)
    ensures
        match error {
            Error::BsonEncoding(inner) => error@ == ErrorView::BsonEncoding(inner),
            Error::BsonDecoding(inner) => error@ == ErrorView::BsonDecoding(inner),
            Error::PartialSave(save) => error@ == (ErrorView::PartialSave {
                cause: Box::new((*save.cause)@),
                successful_ids: save.successful_ids@,
            }),
            Error::Other(text) => error@ == ErrorView::Other(text@),
        },
{
}

/// A failure means its error, whatever the operation.
pub proof fn law_failures_mean_themselves<'coll, 'db>(error: Error)
    ensures
        Opening::outcome(Err(error)) == Err::<Database, ErrorView>(error@),
        ListingCollections::outcome(Err(error)) == Err::<Seq<Seq<char>>, ErrorView>(error@),
        FindingCollection::<'db>::outcome(Err(error)) == Err::<
            Option<Collection<'db>>,
            ErrorView,
        >(error@),
        CreatingCollection::<'db>::outcome(Err(error)) == Err::<Collection<'db>, ErrorView>(
            error@,
        ),
        RemovingCollection::outcome(Err(error)) == Err::<(), ErrorView>(error@),
        CheckingTransaction::outcome(Err(error)) == Err::<bool, ErrorView>(error@),
        Saving::outcome(Err(error)) == Err::<ObjectId, ErrorView>(error@),
        Loading::outcome(Err(error)) == Err::<Option<Contents>, ErrorView>(error@),
        SavingAll::<'coll, 'db>::outcome(Err(error)) == Err::<Seq<ObjectId>, ErrorView>(error@),
        Executing::outcome(Err(error)) == Err::<(Handle, u32), ErrorView>(error@),
        Counting::outcome(Err(error)) == Err::<u32, ErrorView>(error@),
        Finding::outcome(Err(error)) == Err::<QueryResult, ErrorView>(error@),
        FindingOne::outcome(Err(error)) == Err::<Option<Contents>, ErrorView>(error@),
        Beginning::<'coll, 'db>::outcome(Err(error)) == Err::<
            Transaction<'coll, 'db>,
            ErrorView,
        >(error@),
        Ending::outcome(Err(error)) == Err::<(), ErrorView>(error@),
        LastError::outcome(error) == error@,
{
}

/// What an operation gives means itself: a handle, a number or a truth value as it
/// is, a text or a vector as a sequence, a document by what it holds.
pub proof fn law_outputs_mean_themselves<'coll, 'db>(
    database: Database,
    names: Vec<String>,
    collection: Collection<'db>,
    active: bool,
    name: String,
    id: ObjectId,
    ids: Vec<ObjectId>,
    document: Document,
    executed: (Handle, u32),
    count: u32,
    results: QueryResult,
    item: Result<Document, Error>,
    transaction: Transaction<'coll, 'db>,
)
    ensures
        Opening::outcome(Ok(database)) == Ok::<Database, ErrorView>(database),
        ListingCollections::outcome(Ok(names)) == Ok::<Seq<Seq<char>>, ErrorView>(
            Seq::new(names@.len(), |i: int| names@[i]@),
        ),
        FindingCollection::<'db>::outcome(Ok(Some(collection))) == Ok::<
            Option<Collection<'db>>,
            ErrorView,
        >(Some(collection)),
        FindingCollection::<'db>::outcome(Ok(None)) == Ok::<Option<Collection<'db>>, ErrorView>(
            None,
        ),
        CreatingCollection::<'db>::outcome(Ok(collection)) == Ok::<Collection<'db>, ErrorView>(
            collection,
        ),
        RemovingCollection::outcome(Ok(())) == Ok::<(), ErrorView>(()),
        CheckingTransaction::outcome(Ok(active)) == Ok::<bool, ErrorView>(active),
        Naming::outcome(name) == name@,
        LastErrorMsg::outcome(Some(name)) == Some(name@),
        LastErrorMsg::outcome(None) == None::<Seq<char>>,
        Saving::outcome(Ok(id)) == Ok::<ObjectId, ErrorView>(id),
        Loading::outcome(Ok(Some(document))) == Ok::<Option<Contents>, ErrorView>(
            Some(contents(document)),
        ),
        Loading::outcome(Ok(None)) == Ok::<Option<Contents>, ErrorView>(None),
        SavingAll::<'coll, 'db>::outcome(Ok(ids)) == Ok::<Seq<ObjectId>, ErrorView>(ids@),
        Executing::outcome(Ok(executed)) == Ok::<(Handle, u32), ErrorView>(executed),
        Counting::outcome(Ok(count)) == Ok::<u32, ErrorView>(count),
        Finding::outcome(Ok(results)) == Ok::<QueryResult, ErrorView>(results),
        FindingOne::outcome(Ok(Some(document))) == Ok::<Option<Contents>, ErrorView>(
            Some(contents(document)),
        ),
        FindingOne::outcome(Ok(None)) == Ok::<Option<Contents>, ErrorView>(None),
        Fetching::outcome((results, None)) == (
            results,
            None::<Result<Contents, ErrorView>>,
        ),
        Fetching::outcome((results, Some(item))) == (
            results,
            Some(
                match item {
                    Ok(document) => Ok::<Contents, ErrorView>(contents(document)),
                    Err(error) => Err(error@),
                },
            ),
        ),
        Beginning::<'coll, 'db>::outcome(Ok(transaction)) == Ok::<
            Transaction<'coll, 'db>,
            ErrorView,
        >(transaction),
        Ending::outcome(Ok(())) == Ok::<(), ErrorView>(()),
{
    assert(names_view(names@) =~= Seq::new(
        names@.len(),
        |i: int| names@[i]@,
    ));
}

/// What came of encoding means itself.
pub proof fn law_encoded_means_itself(bytes: Vec<u8>, error: EncoderError)
    ensures
        encoded_view(Ok(bytes)) == Ok::<Seq<u8>, EncoderError>(bytes@),
        encoded_view(Err(error)) == Err::<Seq<u8>, EncoderError>(error),
{
}

/// The flags of an execution.
pub proof fn law_execution_flags()
    ensures
        JBQRYCOUNT == 1,
        JBQRYFINDONE == 2,
{
}

/// Bytes that go to the engine as a text get a zero byte at their end, and have no
/// other.
pub proof fn law_c_string(bytes: Vec<u8>, result: Option<Vec<u8>>)
    requires
        call_ensures(c_string, (bytes,), result),
    ensures
        result is None <==> exists|i: int| 0 <= i < bytes@.len() && bytes@[i] == 0,
        result matches Some(text) ==> {
            &&& text@.len() == bytes@.len() + 1
            &&& text@[bytes@.len() as int] == 0
            &&& forall|i: int| 0 <= i < bytes@.len() ==> text@[i] == bytes@[i] && bytes@[i] != 0
        },
{
}

/// An explanation is what was attempted, a colon, and the reason.
pub proof fn law_explain(context: &str, reason: Option<String>, text: String)
    requires
        call_ensures(explain, (context, &reason), text),
    ensures
        reason matches Some(reason) ==> text@ == context@ + ": "@ + reason@,
        reason is None ==> text@ == context@ + ": "@ + "unknown error"@,
{
}

} // verus!
