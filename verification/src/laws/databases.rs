//! What the operations on databases and collections ask and give, answer by
//! answer.

use vstd::prelude::*;
use vstd::utf8::decode_utf8;

use crate::collection::{CheckingTransaction, Collection, Naming};
use crate::database::Database;
use crate::error::{Error, ErrorView};
use crate::last_error::{LastError, LastErrorMsg};
use crate::laws::conversations::{ends, explains, fails, told};
use crate::laws::{items, lemma_names_item, lemma_names_named, lemma_names_rest};
use crate::listing::ListingCollections;
use crate::lookup::{CreatingCollection, FindingCollection, RemovingCollection};
use crate::native::{Answer, Call, NativeRequest, Request};
use crate::open_mode::OpenMode;
use crate::opening::Opening;
use crate::operation::{Plan, Step};
use crate::options::CollectionOptions;

verus! {

/// Opening makes an object and has it open the files at exactly that path, in
/// exactly that mode. The database that it gives is that object.
pub proof fn law_open(
    path: Vec<u8>,
    mode: OpenMode,
    bits: u32,
    step: Step<Opening, Result<Database, Error>>,
    replies: Seq<Answer>,
)
    requires
        call_ensures(OpenMode::bits, (&mode,), bits),
        call_ensures(Database::open, (path, mode), step),
    ensures
        step matches Step::Ask(Request::NewDatabase, _),
        replies.len() == 1 && replies[0] == Answer::Object(0) ==> fails(
            told(step, replies),
            replies,
            "cannot create database"@,
        ),
        replies.len() == 1 && replies[0] is Object && replies[0]->Object_0 != 0
            && path@.contains(0) ==> fails(told(step, replies), replies, "invalid path specified"@),
        replies.len() == 1 && replies[0] is Object && replies[0]->Object_0 != 0
            && !path@.contains(0) ==> (told(step, replies) matches Plan::Ask(
            Request::OpenDatabase { db, path: asked, mode: flags },
        ) && db == replies[0]->Object_0 && asked == path@.push(0) && flags == bits),
        replies.len() >= 2 && replies[0] is Object && replies[0]->Object_0 != 0
            && !path@.contains(0) && replies[1] is Status ==> {
            let db = replies[0]->Object_0;
            let opened = replies[1]->Status_0 != 0;
            &&& replies.len() == 2 && opened ==> ends(
                told(step, replies),
                replies,
                Ok(Database { handle: db }),
            )
            &&& replies.len() == 2 && !opened ==> told(step, replies) == Plan::<
                Result<Database, ErrorView>,
            >::Ask(Call::ErrorCode { db })
            &&& replies.len() == 3 && !opened && replies[2] is Number ==> told(step, replies)
                == Plan::<Result<Database, ErrorView>>::Ask(
                Call::ErrorMessage { code: replies[2]->Number_0 },
            )
            &&& replies.len() == 4 && !opened && replies[2] is Number && replies[3] is Text
                ==> fails(told(step, replies), replies, decode_utf8(replies[3]->Text_0))
        },
{
    assert(told(step, Seq::<Answer>::empty()) is Ask);
}

/// Closing frees the object of the database.
pub proof fn law_close(db: Database, request: NativeRequest)
    requires
        call_ensures(Database::close, (db,), request),
    ensures
        request matches Request::DeleteDatabase { db: closed } && closed == db.handle,
{
}

/// The message of the last error is the one that belongs to its code. The code 0
/// has none.
pub proof fn law_last_error_msg(
    db: &Database,
    step: Step<LastErrorMsg, Option<String>>,
    replies: Seq<Answer>,
)
    requires
        call_ensures(Database::last_error_msg, (db,), step),
    ensures
        step matches Step::Ask(Request::ErrorCode { db: asked }, _) && asked == db.handle,
        replies.len() == 1 && replies[0] == Answer::Number(0) ==> ends(
            told(step, replies),
            replies,
            None,
        ),
        replies.len() == 1 && replies[0] is Number && replies[0]->Number_0 != 0 ==> told(
            step,
            replies,
        ) == Plan::<Option<Seq<char>>>::Ask(Call::ErrorMessage { code: replies[0]->Number_0 }),
        replies.len() == 2 && replies[0] is Number && replies[0]->Number_0 != 0
            && replies[1] is Text ==> ends(
            told(step, replies),
            replies,
            Some(decode_utf8(replies[1]->Text_0)),
        ),
{
    assert(told(step, Seq::<Answer>::empty()) is Ask);
}

/// The last error is explained by what was attempted.
pub proof fn law_last_error(
    db: &Database,
    context: &'static str,
    step: Step<LastError, Error>,
    replies: Seq<Answer>,
)
    requires
        call_ensures(Database::last_error, (db, context), step),
    ensures
        step matches Step::Ask(Request::ErrorCode { db: asked }, _) && asked == db.handle,
        replies.len() == 1 && replies[0] == Answer::Number(0) ==> ends(
            told(step, replies),
            replies,
            ErrorView::Other(context@ + ": "@ + "unknown error"@),
        ),
        replies.len() == 1 && replies[0] is Number && replies[0]->Number_0 != 0 ==> told(
            step,
            replies,
        ) == Plan::<ErrorView>::Ask(Call::ErrorMessage { code: replies[0]->Number_0 }),
        replies.len() == 2 && replies[0] is Number && replies[0]->Number_0 != 0
            && replies[1] is Text ==> ends(
            told(step, replies),
            replies,
            ErrorView::Other(context@ + ": "@ + decode_utf8(replies[1]->Text_0)),
        ),
{
    assert(told(step, Seq::<Answer>::empty()) is Ask);
}

/// Listing asks for the list of this database, for each of its items and for the
/// name of each of the collections that it got, and frees the list. It gives the
/// names in that order.
pub proof fn law_get_collection_names(
    db: &Database,
    step: Step<ListingCollections, Result<Vec<String>, Error>>,
    replies: Seq<Answer>,
    item: int,
)
    requires
        call_ensures(Database::get_collection_names, (db,), step),
    ensures
        step matches Step::Ask(Request::ListCollections { db: asked }, _) && asked == db.handle,
        replies.len() >= 1 && replies[0] == Answer::Object(0) ==> explains(
            told(step, replies),
            replies,
            1,
            db.handle,
            "cannot get collection names"@,
        ),
        replies.len() >= 1 && replies[0] is Object && replies[0]->Object_0 != 0 ==> {
            let list = replies[0]->Object_0;
            let count = items(replies[1]->Number_0);
            &&& replies.len() == 1 ==> told(step, replies) == Plan::<
                Result<Seq<Seq<char>>, ErrorView>,
            >::Ask(Call::ListLength { list })
            &&& replies.len() == 2 + 2 * item && 0 <= item < count ==> told(step, replies)
                == Plan::<Result<Seq<Seq<char>>, ErrorView>>::Ask(
                Call::ListItem { list, index: item as i32 },
            )
            &&& replies.len() == 3 + 2 * item && 0 <= item < count && replies[2 + 2
                * item] is Object ==> told(step, replies) == Plan::<
                Result<Seq<Seq<char>>, ErrorView>,
            >::Ask(Call::CollectionName { coll: replies[2 + 2 * item]->Object_0 })
            &&& replies.len() == 2 + 2 * count ==> told(step, replies) == Plan::<
                Result<Seq<Seq<char>>, ErrorView>,
            >::Ask(Call::DeleteList { list })
            &&& replies.len() == 3 + 2 * count ==> ends(
                told(step, replies),
                replies,
                Ok(Seq::new(count, |i: int| decode_utf8(replies[3 + 2 * i]->Text_0))),
            )
        },
{
    assert(told(step, Seq::<Answer>::empty()) is Ask);
    if replies.len() >= 2 && replies[0] is Object && replies[0]->Object_0 != 0 {
        let list = replies[0]->Object_0;
        let length = replies[1]->Number_0;
        let count = items(length);
        if 0 <= item < count && replies.len() == 2 + 2 * item {
            lemma_names_item(list, length, 0, item, Seq::empty(), replies, 2);
        }
        if 0 <= item < count && replies.len() == 3 + 2 * item {
            lemma_names_named(list, length, 0, item, Seq::empty(), replies, 2);
        }
        if length >= 0 && replies.len() == 2 + 2 * count {
            lemma_names_item(list, length, 0, length as int, Seq::empty(), replies, 2);
        }
        if replies.len() == 3 + 2 * count {
            if length >= 0 {
                lemma_names_rest(list, length, 0, Seq::empty(), replies, 2);
            }
            assert(Seq::<Seq<char>>::empty() + Seq::new(
                count,
                |i: int| replies[2 + 2 * i + 1].text(),
            ) =~= Seq::new(count, |i: int| decode_utf8(replies[3 + 2 * i]->Text_0)));
        }
    }
}

/// Looking a collection up asks for exactly that name, and gives the collection
/// that the engine has. Where it has none it is the code of the last error that
/// decides.
pub proof fn law_get_collection<'db>(
    db: &'db Database,
    name: Vec<u8>,
    step: Step<FindingCollection<'db>, Result<Option<Collection<'db>>, Error>>,
    replies: Seq<Answer>,
)
    requires
        call_ensures(Database::get_collection, (db, name), step),
    ensures
        name@.contains(0) ==> told(step, replies) == Plan::<
            Result<Option<Collection<'db>>, ErrorView>,
        >::Done(Err(ErrorView::Other("invalid collection name"@)), 0),
        !name@.contains(0) ==> {
            &&& step matches Step::Ask(Request::FindCollection { db: asked, name: sought }, _)
                && asked == db.handle && sought@ == name@.push(0)
            &&& replies.len() == 1 && replies[0] is Object && replies[0]->Object_0 != 0 ==> ends(
                told(step, replies),
                replies,
                Ok(Some(Collection { coll: replies[0]->Object_0, db })),
            )
            &&& replies.len() == 1 && replies[0] == Answer::Object(0) ==> told(step, replies)
                == Plan::<Result<Option<Collection<'db>>, ErrorView>>::Ask(
                Call::ErrorCode { db: db.handle },
            )
            &&& replies.len() == 2 && replies[0] == Answer::Object(0) && replies[1]
                == Answer::Number(0) ==> ends(told(step, replies), replies, Ok(None))
            &&& replies.len() == 2 && replies[0] == Answer::Object(0) && replies[1] is Number
                && replies[1]->Number_0 != 0 ==> told(step, replies) == Plan::<
                Result<Option<Collection<'db>>, ErrorView>,
            >::Ask(Call::ErrorMessage { code: replies[1]->Number_0 })
            &&& replies.len() == 3 && replies[0] == Answer::Object(0) && replies[1] is Number
                && replies[1]->Number_0 != 0 && replies[2] is Text ==> fails(
                told(step, replies),
                replies,
                decode_utf8(replies[2]->Text_0),
            )
        },
{
    assert(!name@.contains(0) ==> told(step, Seq::<Answer>::empty()) is Ask);
}

/// Making a collection asks for exactly that name and for each option as it is
/// set, a truth value as 1 or 0.
pub proof fn law_get_or_create_collection<'db>(
    db: &'db Database,
    name: Vec<u8>,
    options: CollectionOptions,
    step: Step<CreatingCollection<'db>, Result<Collection<'db>, Error>>,
    replies: Seq<Answer>,
)
    requires
        call_ensures(Database::get_or_create_collection, (db, name, options), step),
    ensures
        name@.contains(0) ==> told(step, replies) == Plan::<
            Result<Collection<'db>, ErrorView>,
        >::Done(Err(ErrorView::Other("invalid collection name"@)), 0),
        !name@.contains(0) ==> {
            &&& step matches Step::Ask(
                Request::CreateCollection { db: asked, name: sought, options: given },
                _,
            ) && asked == db.handle && sought@ == name@.push(0) && given.large == (
            if options.large {
                1u8
            } else {
                0u8
            }) && given.compressed == (if options.compressed {
                1u8
            } else {
                0u8
            }) && given.records == options.records && given.cached_records
                == options.cached_records
            &&& replies.len() == 1 && replies[0] is Object && replies[0]->Object_0 != 0 ==> ends(
                told(step, replies),
                replies,
                Ok(Collection { coll: replies[0]->Object_0, db }),
            )
            &&& replies.len() >= 1 && replies[0] == Answer::Object(0) ==> explains(
                told(step, replies),
                replies,
                1,
                db.handle,
                "cannot create or open a collection"@,
            )
        },
{
    assert(!name@.contains(0) ==> told(step, Seq::<Answer>::empty()) is Ask);
}

/// Removing a collection asks for exactly that name, and for the files to go
/// exactly where that is wanted.
pub proof fn law_drop_collection(
    db: &Database,
    name: Vec<u8>,
    prune: bool,
    step: Step<RemovingCollection, Result<(), Error>>,
    replies: Seq<Answer>,
)
    requires
        call_ensures(Database::drop_collection, (db, name, prune), step),
    ensures
        name@.contains(0) ==> told(step, replies) == Plan::<Result<(), ErrorView>>::Done(
            Err(ErrorView::Other("invalid collection name"@)),
            0,
        ),
        !name@.contains(0) ==> {
            &&& step matches Step::Ask(
                Request::RemoveCollection { db: asked, name: sought, prune: flag },
                _,
            ) && asked == db.handle && sought@ == name@.push(0) && flag == (if prune {
                1u8
            } else {
                0u8
            })
            &&& replies.len() == 1 && replies[0] is Status && replies[0]->Status_0 != 0 ==> ends(
                told(step, replies),
                replies,
                Ok(()),
            )
            &&& replies.len() >= 1 && replies[0] == Answer::Status(0) ==> explains(
                told(step, replies),
                replies,
                1,
                db.handle,
                "cannot remove a collection"@,
            )
        },
{
    assert(!name@.contains(0) ==> told(step, Seq::<Answer>::empty()) is Ask);
}

/// The name of a collection is what the engine says of this collection.
pub proof fn law_name(coll: &Collection, step: Step<Naming, String>, replies: Seq<Answer>)
    requires
        call_ensures(Collection::name, (coll,), step),
    ensures
        step matches Step::Ask(Request::CollectionName { coll: asked }, _) && asked == coll.coll,
        replies.len() == 1 && replies[0] is Text ==> ends(
            told(step, replies),
            replies,
            decode_utf8(replies[0]->Text_0),
        ),
{
    assert(told(step, Seq::<Answer>::empty()) is Ask);
}

/// Whether a transaction is open is what the engine says of this collection.
pub proof fn law_transaction_active(
    coll: &Collection,
    step: Step<CheckingTransaction, Result<bool, Error>>,
    replies: Seq<Answer>,
)
    requires
        call_ensures(Collection::transaction_active, (coll,), step),
    ensures
        step matches Step::Ask(Request::TransactionStatus { coll: asked }, _) && asked
            == coll.coll,
        replies.len() == 1 && replies[0] is Transaction && replies[0]->Transaction_status != 0
            ==> ends(told(step, replies), replies, Ok(replies[0]->active != 0)),
        replies.len() >= 1 && replies[0] is Transaction && replies[0]->Transaction_status == 0
            ==> explains(
            told(step, replies),
            replies,
            1,
            coll.db.handle,
            "error getting transaction status"@,
        ),
{
    assert(told(step, Seq::<Answer>::empty()) is Ask);
}

} // verus!
