//! What storing and fetching documents asks and gives, answer by answer.

use vstd::prelude::*;
use vstd::utf8::decode_utf8;
use bson::{DecoderError, Document, EncoderError};

use crate::collection::Collection;
use crate::document::{contents, decoding, encoding, read, Contents};
use crate::error::{Error, ErrorView};
use crate::laws::conversations::{ends, explains, told};
use crate::laws::{all_stored, lemma_save_all_moves_on, stored_ids};
use crate::limits::{encodes, whole};
use crate::native::{Answer, Call, Handle, NativeRequest, ObjectId, Request};
use crate::operation::{Plan, Step};
use crate::results::{Fetching, QueryResult};
use crate::storage::{Loading, Saving, SavingAll};

verus! {

/// That these bytes are stored in the collection, and that the identifier that the
/// engine gives is given.
pub open spec fn stores(
    step: Step<Saving, Result<ObjectId, Error>>,
    coll: &Collection,
    bytes: Seq<u8>,
    replies: Seq<Answer>,
) -> bool {
    &&& step matches Step::Ask(Request::SaveDocument { coll: asked, document }, _) && asked
        == coll.coll && document@ == bytes
    &&& replies.len() == 1 && replies[0] is Saved && replies[0]->Saved_status != 0 ==> ends(
        told(step, replies),
        replies,
        Ok(replies[0]->Saved_id),
    )
    &&& replies.len() >= 1 && replies[0] is Saved && replies[0]->Saved_status == 0 ==> explains(
        told(step, replies),
        replies,
        1,
        coll.db.handle,
        "error saving BSON document"@,
    )
}

/// Saving stores the binary form of the document in this collection.
pub proof fn law_save(
    coll: &Collection,
    doc: &Document,
    step: Step<Saving, Result<ObjectId, Error>>,
    replies: Seq<Answer>,
)
    requires
        encodes(contents(*doc)),
        call_ensures(Collection::save, (coll, doc), step),
    ensures
        stores(step, coll, encoding(contents(*doc).entries), replies),
{
    assert(told(step, Seq::<Answer>::empty()) is Ask);
}

/// What is tried to be saved is saved exactly where the encoder takes it.
pub proof fn law_try_save(
    coll: &Collection,
    doc: &Document,
    tried: Option<Step<Saving, Result<ObjectId, Error>>>,
    replies: Seq<Answer>,
)
    requires
        call_ensures(Collection::try_save, (coll, doc), tried),
    ensures
        tried is Some <==> encodes(contents(*doc)),
        tried matches Some(step) ==> stores(
            step,
            coll,
            encoding(contents(*doc).entries),
            replies,
        ),
{
    assert(tried is Some ==> told(tried->0, Seq::<Answer>::empty()) is Ask);
}

/// What was encoded is stored as it is, and the failure to encode is given as it
/// is, without asking anything.
pub proof fn law_save_encoded(
    coll: &Collection,
    encoded: Result<Vec<u8>, EncoderError>,
    step: Step<Saving, Result<ObjectId, Error>>,
    replies: Seq<Answer>,
)
    requires
        call_ensures(Collection::save_encoded, (coll, encoded), step),
    ensures
        encoded matches Ok(bytes) ==> stores(step, coll, bytes@, replies),
        encoded matches Err(error) ==> step is Done && ends(
            told(step, Seq::empty()),
            Seq::empty(),
            Err(ErrorView::BsonEncoding(error)),
        ),
{
    assert(encoded is Ok ==> told(step, Seq::<Answer>::empty()) is Ask);
    assert(encoded is Err ==> told(step, Seq::<Answer>::empty()) is Done);
}

/// Loading asks this collection for exactly that identifier, and gives what the
/// decoder makes of the bytes. Where there are none it is the code of the last
/// error that decides.
pub proof fn law_load(
    coll: &Collection,
    id: ObjectId,
    step: Step<Loading, Result<Option<Document>, Error>>,
    replies: Seq<Answer>,
)
    requires
        call_ensures(Collection::load, (coll, id), step),
    ensures
        step matches Step::Ask(Request::LoadDocument { coll: asked, id: sought }, _) && asked
            == coll.coll && sought == id && sought.bytes@ == id.bytes@,
        replies.len() == 1 && replies[0] is Bytes && replies[0]->Bytes_0 is Some ==> {
            let read = decoding(replies[0]->Bytes_0->0);
            &&& read is Ok && whole(read->Ok_0) ==> ends(
                told(step, replies),
                replies,
                Ok(Some(read->Ok_0)),
            )
            &&& read matches Err(error) ==> ends(
                told(step, replies),
                replies,
                Err(ErrorView::BsonDecoding(error)),
            )
        },
        replies.len() >= 1 && replies[0] == Answer::Bytes(None) ==> {
            &&& replies.len() == 1 ==> told(step, replies) == Plan::<
                Result<Option<Contents>, ErrorView>,
            >::Ask(Call::ErrorCode { db: coll.db.handle })
            &&& replies.len() == 2 && replies[1] == Answer::Number(0) ==> ends(
                told(step, replies),
                replies,
                Ok(None),
            )
            &&& replies.len() == 2 && replies[1] is Number && replies[1]->Number_0 != 0 ==> told(
                step,
                replies,
            ) == Plan::<Result<Option<Contents>, ErrorView>>::Ask(
                Call::ErrorMessage { code: replies[1]->Number_0 },
            )
            &&& replies.len() >= 3 && replies[1] is Number && replies[1]->Number_0 != 0
                && replies[2] is Text ==> explains(
                told(step, replies),
                replies,
                3,
                coll.db.handle,
                "error loading BSON document"@,
            )
        },
{
    assert(told(step, Seq::<Answer>::empty()) is Ask);
}

/// What was decoded is given as it is, and so is the failure to decode.
pub proof fn law_read(decoded: Result<Document, DecoderError>, result: Result<Document, Error>)
    requires
        call_ensures(read, (decoded,), result),
    ensures
        decoded matches Ok(document) ==> result == Ok::<Document, Error>(document),
        decoded matches Err(error) ==> result == Err::<Document, Error>(
            Error::BsonDecoding(error),
        ),
{
    if let Err(error) = result {
        assert(error@ is BsonDecoding);
        assert(error is BsonDecoding);
    }
}

/// Saving several documents asks for one after the other and stores the binary
/// form of each in this collection. It gives their identifiers in that order. The
/// first one that is refused ends it with the identifiers of those before it.
pub proof fn law_save_all<'coll, 'db>(
    coll: &'coll Collection<'db>,
    step: Step<SavingAll<'coll, 'db>, Result<Vec<ObjectId>, Error>>,
    replies: Seq<Answer>,
    count: int,
)
    requires
        call_ensures(Collection::save_all, (coll,), step),
        0 <= count,
        2 * count <= replies.len(),
        all_stored(replies, 0, count),
    ensures
        step matches Step::Ask(Request::NextDocument, _),
        replies.len() == 2 * count ==> told(step, replies) == Plan::<
            Result<Seq<ObjectId>, ErrorView>,
        >::Ask(Call::NextDocument),
        replies.len() == 2 * count + 1 && replies[2 * count] == Answer::Next(None) ==> ends(
            told(step, replies),
            replies,
            Ok(Seq::new(count as nat, |i: int| replies[2 * i + 1]->Saved_id)),
        ),
        replies.len() == 2 * count + 1 && replies[2 * count] is Next && replies[2
            * count]->Next_0 is Some ==> told(step, replies) == Plan::<
            Result<Seq<ObjectId>, ErrorView>,
        >::Ask(
            Call::SaveDocument {
                coll: coll.coll,
                document: encoding(replies[2 * count]->Next_0->0.entries),
            },
        ),
        replies.len() >= 2 * count + 2 && replies[2 * count] is Next && replies[2
            * count]->Next_0 is Some && replies[2 * count + 1] is Saved && replies[2 * count
            + 1]->Saved_status == 0 ==> refused(
            told(step, replies),
            replies,
            2 * count + 2,
            coll.db.handle,
            Seq::new(count as nat, |i: int| replies[2 * i + 1]->Saved_id),
        ),
{
    assert(told(step, Seq::<Answer>::empty()) is Ask);
    lemma_save_all_moves_on(coll.db.handle, coll.coll, Seq::empty(), replies, 0, count);
    assert(Seq::empty() + stored_ids(replies, 0, count) =~= Seq::new(
        count as nat,
        |i: int| replies[2 * i + 1]->Saved_id,
    ));
}

/// That from answer `k` on the last error of `db` is asked for, and that it ends
/// with that error and these identifiers.
pub open spec fn refused(
    told: Plan<Result<Seq<ObjectId>, ErrorView>>,
    replies: Seq<Answer>,
    k: int,
    db: Handle,
    ids: Seq<ObjectId>,
) -> bool {
    let because = |text: Seq<char>|
        ends(
            told,
            replies,
            Err(
                ErrorView::PartialSave {
                    cause: Box::new(
                        ErrorView::Other("error saving BSON document"@ + ": "@ + text),
                    ),
                    successful_ids: ids,
                },
            ),
        );
    &&& replies.len() == k ==> told == Plan::<Result<Seq<ObjectId>, ErrorView>>::Ask(
        Call::ErrorCode { db },
    )
    &&& replies.len() == k + 1 && replies[k] == Answer::Number(0) ==> because("unknown error"@)
    &&& replies.len() == k + 1 && replies[k] is Number && replies[k]->Number_0 != 0 ==> told
        == Plan::<Result<Seq<ObjectId>, ErrorView>>::Ask(
        Call::ErrorMessage { code: replies[k]->Number_0 },
    )
    &&& replies.len() == k + 2 && replies[k] is Number && replies[k]->Number_0 != 0
        && replies[k + 1] is Text ==> because(decode_utf8(replies[k + 1]->Text_0))
}

/// Reading the next result asks for the one at the current index, moves on by one
/// where there is one, and gives what the decoder makes of it.
pub proof fn law_next(
    results: QueryResult,
    step: Step<Fetching, (QueryResult, Option<Result<Document, Error>>)>,
    replies: Seq<Answer>,
)
    requires
        call_ensures(QueryResult::next, (results,), step),
    ensures
        step matches Step::Ask(Request::ResultItem { result, index }, _) && result
            == results.result && index == results.current,
        replies.len() == 1 && replies[0] == Answer::Bytes(None) ==> ends(
            told(step, replies),
            replies,
            (results, None),
        ),
        replies.len() == 1 && replies[0] is Bytes && replies[0]->Bytes_0 is Some
            && results.current < i32::MAX ==> (told(step, replies) matches Plan::Done(
            (after, item),
            end,
        ) && end == 1 && after.result == results.result && after.total == results.total
            && after.current == results.current + 1 && match decoding(replies[0]->Bytes_0->0) {
            Ok(document) => whole(document) ==> item == Some(
                Ok::<Contents, ErrorView>(document),
            ),
            Err(error) => item == Some(
                Err::<Contents, ErrorView>(ErrorView::BsonDecoding(error)),
            ),
        }),
{
    assert(told(step, Seq::<Answer>::empty()) is Ask);
}

/// The number of results is the engine's, and freeing them frees the engine's
/// object.
pub proof fn law_results_are_the_engines(
    results: QueryResult,
    count: u32,
    request: NativeRequest,
)
    requires
        call_ensures(QueryResult::count, (&results,), count),
        call_ensures(QueryResult::dispose, (results,), request),
    ensures
        count == results.total,
        request matches Request::DisposeResult { result } && result == results.result,
{
}

} // verus!
