//! What holds of whole conversations with the engine.

pub mod bytes;
pub mod conversations;
pub mod databases;
pub mod documents;
pub mod meaning;
pub mod queries;
pub mod settings;
pub mod transactions;

use vstd::prelude::*;
use bson::EncoderError;

use crate::collection::{name_plan, transaction_active_plan, Collection};
use crate::database::Database;
use crate::document::{encoding, Contents};
use crate::error::ErrorView;
use crate::execution::{execute_plan, Execution, Query, JBQRYCOUNT};
use crate::last_error::{last_error_msg_plan, last_error_plan};
use crate::limits::{encodes, lemma_whole_encodes, scopes_fit, whole};
use crate::listing::{collection_names_plan, names_plan};
use crate::lookup::{drop_collection_plan, get_collection_plan, get_or_create_collection_plan};
use crate::native::{Answer, Call, EngineOptions, Handle, ObjectId, Request};
use crate::opening::open_plan;
use crate::operation::{asked, asks, complete, Plan};
use crate::results::{next_outcome, QueryResult};
use crate::storage::{lemma_save_moves_on, load_plan, save_all_plan, save_plan};
use crate::transaction::{abort_plan, begin_plan, commit_plan, Transaction};

verus! {

/// The course of executing a query.
pub open spec fn execute_course(
    run: Execution,
    criteria: Result<Seq<u8>, EncoderError>,
    hints: Option<Result<Seq<u8>, EncoderError>>,
) -> spec_fn(Seq<Answer>, int) -> Plan<Result<(Handle, u32), ErrorView>> {
    |replies: Seq<Answer>, at: int| execute_plan(run, criteria, hints, replies, at)
}

/// The query that an execution goes on with: the one that the engine made, or
/// the one that it gave for it when it took the hints.
pub open spec fn current_query(
    hints: Option<Result<Seq<u8>, EncoderError>>,
    replies: Seq<Answer>,
) -> Handle {
    if hints matches Some(Ok(_)) && replies[1].object() != 0 {
        replies[1].object()
    } else {
        replies[0].object()
    }
}

/// However an execution ends, a query that was made is freed: that is the last
/// thing that is asked, and it is asked once.
pub proof fn law_query_is_freed_last(
    run: Execution,
    criteria: Result<Seq<u8>, EncoderError>,
    hints: Option<Result<Seq<u8>, EncoderError>>,
    replies: Seq<Answer>,
)
    requires
        complete(execute_course(run, criteria, hints), replies),
        criteria is Ok,
        replies[0].object() != 0,
    ensures
        replies.len() >= 2,
        forall|i: int| 0 <= i < replies.len() ==> asks(execute_course(run, criteria, hints), replies, i),
        asked(execute_course(run, criteria, hints), replies, replies.len() - 1) == (
        Call::DeleteQuery { query: current_query(hints, replies) }),
        forall|i: int|
            0 <= i < replies.len() - 1 ==> !(asked(
                execute_course(run, criteria, hints),
                replies,
                i,
            ) is DeleteQuery),
{
}

/// However an execution ends, a log that was made is freed just before the query,
/// and only that one. Without a log wanted none is made.
pub proof fn law_log_is_freed(
    run: Execution,
    criteria: Result<Seq<u8>, EncoderError>,
    hints: Option<Result<Seq<u8>, EncoderError>>,
    replies: Seq<Answer>,
    i: int,
)
    requires
        complete(execute_course(run, criteria, hints), replies),
        0 <= i < replies.len(),
    ensures
        asked(execute_course(run, criteria, hints), replies, i) is NewLog ==> {
            &&& run.log
            &&& i < replies.len() - 2
            &&& asked(execute_course(run, criteria, hints), replies, replies.len() - 2) == (
            Call::DeleteLog { log: replies[i].object() })
        },
        asked(execute_course(run, criteria, hints), replies, i) is DeleteLog ==> {
            &&& i == replies.len() - 2
            &&& exists|j: int|
                0 <= j < i && asked(execute_course(run, criteria, hints), replies, j) is NewLog
        },
{
    let course = execute_course(run, criteria, hints);
    if asked(course, replies, i) is DeleteLog {
        let made: int = if hints is Some {
            2
        } else {
            1
        };
        assert(asked(course, replies, made) is NewLog);
    }
}

/// A query that the engine did not make is neither executed nor freed.
pub proof fn law_no_query_without_object(
    run: Execution,
    criteria: Result<Seq<u8>, EncoderError>,
    hints: Option<Result<Seq<u8>, EncoderError>>,
    replies: Seq<Answer>,
    i: int,
)
    requires
        complete(execute_course(run, criteria, hints), replies),
        criteria is Ok ==> replies[0].object() == 0,
        0 <= i < replies.len(),
    ensures
        i == 0 ==> asked(execute_course(run, criteria, hints), replies, i) is CreateQuery,
        i > 0 ==> {
            ||| asked(execute_course(run, criteria, hints), replies, i) is ErrorCode
            ||| asked(execute_course(run, criteria, hints), replies, i) is ErrorMessage
        },
        execute_plan(run, criteria, hints, replies, 0) matches Plan::Done(Err(_), _),
{
}

/// An execution that is to give documents gives results that are not null.
pub proof fn law_results_are_there(
    run: Execution,
    criteria: Result<Seq<u8>, EncoderError>,
    hints: Option<Result<Seq<u8>, EncoderError>>,
    replies: Seq<Answer>,
    at: int,
)
    requires
        run.flags & JBQRYCOUNT == 0,
    ensures
        execute_plan(run, criteria, hints, replies, at) matches Plan::Done(Ok((result, _)), _)
            ==> result != 0,
{
}

/// The course of finding one document.
pub open spec fn find_one_course(query: Query) -> spec_fn(Seq<Answer>, int) -> Plan<
    Result<Option<Contents>, ErrorView>,
> {
    |replies: Seq<Answer>, at: int| query.find_one_plan(replies, at)
}

/// Finding one document reads no item but the first, and frees the results that
/// it read it from: that is the last thing that is asked, and it is asked once.
pub proof fn law_find_one_frees_its_results(query: Query, replies: Seq<Answer>, i: int)
    requires
        complete(find_one_course(query), replies),
        0 <= i < replies.len(),
    ensures
        asked(find_one_course(query), replies, i) matches Request::ResultItem { result, index }
            ==> {
            &&& index == 0
            &&& i == replies.len() - 2
            &&& asked(find_one_course(query), replies, replies.len() - 1) == (Call::DisposeResult {
                result,
            })
        },
        asked(find_one_course(query), replies, i) is DisposeResult ==> i == replies.len() - 1,
{
}

/// Finishing a transaction that was ended asks nothing.
pub proof fn law_ended_transaction_is_left_alone(
    transaction: Transaction,
    replies: Seq<Answer>,
    at: int,
)
    ensures
        (Transaction { finished: true, ..transaction }).finish_plan(replies, at) == Plan::<
            Result<(), ErrorView>,
        >::Done(Ok(()), at),
{
}

/// A new transaction is not ended, and it is aborted unless something else is set.
pub proof fn law_new_transaction_aborts(
    coll: &Collection,
    replies: Seq<Answer>,
    at: int,
    later: Seq<Answer>,
    end: int,
)
    ensures
        begin_plan(coll, replies, at) matches Plan::Done(Ok(transaction), _) ==> {
            &&& !transaction.finished
            &&& transaction.finish_plan(later, end) == abort_plan(
                coll.db.handle,
                coll.coll,
                later,
                end,
            )
        },
{
}

/// A transaction that is not ended ends in the way that was set last.
pub proof fn law_last_setting_counts(transaction: Transaction, replies: Seq<Answer>, at: int)
    requires
        !transaction.finished,
    ensures
        (Transaction { commit: true, ..transaction }).finish_plan(replies, at) == commit_plan(
            transaction.coll.db.handle,
            transaction.coll.coll,
            replies,
            at,
        ),
        (Transaction { commit: false, ..transaction }).finish_plan(replies, at) == abort_plan(
            transaction.coll.db.handle,
            transaction.coll.coll,
            replies,
            at,
        ),
{
}

/// A database and a collection that an operation gives are not null.
pub proof fn law_objects_are_not_null(
    path: Seq<u8>,
    mode: u32,
    db: &Database,
    name: Seq<u8>,
    options: EngineOptions,
    replies: Seq<Answer>,
    at: int,
)
    ensures
        open_plan(path, mode, replies, at) matches Plan::Done(Ok(opened), _) ==> opened.handle != 0,
        get_collection_plan(db, name, replies, at) matches Plan::Done(Ok(Some(found)), _)
            ==> found.coll != 0 && found.db == db,
        get_or_create_collection_plan(db, name, options, replies, at) matches Plan::Done(
            Ok(made),
            _,
        ) ==> made.coll != 0 && made.db == db,
{
}

/// The engine is never asked for a collection with a zero byte in its name.
pub proof fn law_names_have_no_zero_byte(
    db: &Database,
    name: Seq<u8>,
    options: EngineOptions,
    prune: u8,
    replies: Seq<Answer>,
    at: int,
)
    requires
        name.contains(0),
    ensures
        get_collection_plan(db, name, replies, at) == Plan::<
            Result<Option<Collection>, ErrorView>,
        >::Done(Err(ErrorView::Other("invalid collection name"@)), at),
        get_or_create_collection_plan(db, name, options, replies, at) == Plan::<
            Result<Collection, ErrorView>,
        >::Done(Err(ErrorView::Other("invalid collection name"@)), at),
        drop_collection_plan(db.handle, name, prune, replies, at) == Plan::<
            Result<(), ErrorView>,
        >::Done(Err(ErrorView::Other("invalid collection name"@)), at),
{
}

/// The engine is never asked to open a path with a zero byte in it, and such a
/// path is never opened.
pub proof fn law_paths_have_no_zero_byte(path: Seq<u8>, mode: u32, replies: Seq<Answer>, at: int)
    requires
        path.contains(0),
    ensures
        open_plan(path, mode, replies, at) matches Plan::Ask(call) ==> call is NewDatabase,
        open_plan(path, mode, replies, at) matches Plan::Done(result, _) ==> result is Err,
{
}

/// An explanation begins with what was attempted. It ends in the message of the
/// engine, and in `unknown error` where the engine knows of no error.
pub proof fn law_errors_are_explained(
    db: Handle,
    context: Seq<char>,
    replies: Seq<Answer>,
    at: int,
)
    requires
        0 <= at < replies.len(),
        replies[at].number() != 0 ==> at + 1 < replies.len(),
    ensures
        last_error_plan(db, context, replies, at) matches Plan::Done(ErrorView::Other(text), _)
            && context.is_prefix_of(text) && text == context + ": "@ + if replies[at].number()
            == 0 {
            "unknown error"@
        } else {
            replies[at + 1].text()
        },
{
}

/// The course of listing the collections of a database.
pub open spec fn names_course(db: Handle) -> spec_fn(Seq<Answer>, int) -> Plan<
    Result<Seq<Seq<char>>, ErrorView>,
> {
    |replies: Seq<Answer>, at: int| collection_names_plan(db, replies, at)
}

pub proof fn lemma_names_rest(
    list: Handle,
    length: i32,
    index: int,
    names: Seq<Seq<char>>,
    replies: Seq<Answer>,
    at: int,
)
    requires
        0 <= at,
        index <= length,
        at + 2 * (length - index) + 1 <= replies.len(),
    ensures
        names_plan(list, length, index, names, replies, at) == Plan::<
            Result<Seq<Seq<char>>, ErrorView>,
        >::Done(
            Ok(
                names + Seq::new(
                    (length - index) as nat,
                    |i: int| replies[at + 2 * i + 1].text(),
                ),
            ),
            at + 2 * (length - index) + 1,
        ),
    decreases length - index,
{
    let rest = Seq::new((length - index) as nat, |i: int| replies[at + 2 * i + 1].text());
    if index < length {
        let name = replies[at + 1].text();
        lemma_names_rest(list, length, index + 1, names.push(name), replies, at + 2);
        let tail = Seq::new(
            (length - (index + 1)) as nat,
            |i: int| replies[at + 2 + 2 * i + 1].text(),
        );
        assert(names.push(name) + tail =~= names + rest);
    } else {
        assert(names + rest =~= names);
    }
}

pub proof fn lemma_names_item(
    list: Handle,
    length: i32,
    index: int,
    item: int,
    names: Seq<Seq<char>>,
    replies: Seq<Answer>,
    at: int,
)
    requires
        0 <= at,
        index <= item <= length,
        replies.len() == at + 2 * (item - index),
    ensures
        names_plan(list, length, index, names, replies, at) == Plan::<
            Result<Seq<Seq<char>>, ErrorView>,
        >::Ask(
            if item < length {
                Request::ListItem { list, index: item as i32 }
            } else {
                Request::DeleteList { list }
            },
        ),
    decreases item - index,
{
    if index < item {
        lemma_names_item(
            list,
            length,
            index + 1,
            item,
            names.push(replies[at + 1].text()),
            replies,
            at + 2,
        );
    }
}

pub proof fn lemma_names_named(
    list: Handle,
    length: i32,
    index: int,
    item: int,
    names: Seq<Seq<char>>,
    replies: Seq<Answer>,
    at: int,
)
    requires
        0 <= at,
        index <= item < length,
        replies.len() == at + 2 * (item - index) + 1,
    ensures
        names_plan(list, length, index, names, replies, at) == Plan::<
            Result<Seq<Seq<char>>, ErrorView>,
        >::Ask(Request::CollectionName { coll: replies[at + 2 * (item - index)].object() }),
    decreases item - index,
{
    if index < item {
        lemma_names_named(
            list,
            length,
            index + 1,
            item,
            names.push(replies[at + 1].text()),
            replies,
            at + 2,
        );
    }
}

/// How many items there are in a list of that length.
pub open spec fn items(length: i32) -> nat {
    if length < 0 {
        0
    } else {
        length as nat
    }
}

/// Listing gives the name of every item of the list, in the order of the list.
pub proof fn law_names_in_order(db: Handle, replies: Seq<Answer>)
    requires
        replies.len() >= 2,
        replies[0].object() != 0,
        replies.len() == 2 * items(replies[1].number()) + 3,
    ensures
        complete(names_course(db), replies),
        collection_names_plan(db, replies, 0) matches Plan::Done(Ok(names), _) && names
            == Seq::new(items(replies[1].number()), |i: int| replies[2 * i + 3].text()),
{
    let length = replies[1].number();
    if length >= 0 {
        lemma_names_rest(replies[0].object(), length, 0, Seq::empty(), replies, 2);
    }
    assert(Seq::<Seq<char>>::empty() + Seq::new(
        items(length),
        |i: int| replies[2 + 2 * i + 1].text(),
    ) =~= Seq::new(items(length), |i: int| replies[2 * i + 3].text()));
}

/// Listing asks for the items of the list one after the other, each once, and
/// then frees the list.
pub proof fn law_list_is_read_and_freed(db: Handle, replies: Seq<Answer>, item: int)
    requires
        replies.len() >= 2,
        replies[0].object() != 0,
        replies.len() == 2 * items(replies[1].number()) + 3,
        0 <= item <= items(replies[1].number()),
    ensures
        asked(names_course(db), replies, 2 * item + 2) == if item < items(replies[1].number()) {
            Call::ListItem { list: replies[0].object(), index: item as i32 }
        } else {
            Call::DeleteList { list: replies[0].object() }
        },
{
    if replies[1].number() >= 0 {
        lemma_names_item(
            replies[0].object(),
            replies[1].number(),
            0,
            item,
            Seq::empty(),
            replies.take(2 * item + 2),
            2,
        );
    }
}

/// Whether the answers from `at` on are those to `count` documents that were all
/// stored, each document followed by its identifier.
pub open spec fn all_stored(replies: Seq<Answer>, at: int, count: int) -> bool {
    forall|i: int|
        #![trigger replies[at + 2 * i]]
        0 <= i < count ==> {
            &&& replies[at + 2 * i].document() is Some
            &&& replies[at + 2 * i + 1]->Saved_status != 0
        }
}

/// The identifiers in such answers.
pub open spec fn stored_ids(replies: Seq<Answer>, at: int, count: int) -> Seq<ObjectId> {
    Seq::new(count as nat, |i: int| replies[at + 2 * i + 1]->Saved_id)
}

pub proof fn lemma_save_all_moves_on(
    db: Handle,
    coll: Handle,
    ids: Seq<ObjectId>,
    replies: Seq<Answer>,
    at: int,
    count: int,
)
    requires
        0 <= at,
        0 <= count,
        at + 2 * count <= replies.len(),
        all_stored(replies, at, count),
    ensures
        save_all_plan(db, coll, ids, replies, at) == save_all_plan(
            db,
            coll,
            ids + stored_ids(replies, at, count),
            replies,
            at + 2 * count,
        ),
    decreases count,
{
    if count == 0 {
        assert(ids + stored_ids(replies, at, count) =~= ids);
    } else {
        let id = replies[at + 1]->Saved_id;
        assert(replies[at + 2 * 0].document() is Some);
        assert(save_all_plan(db, coll, ids, replies, at) == save_all_plan(
            db,
            coll,
            ids.push(id),
            replies,
            at + 2,
        ));
        assert(all_stored(replies, at + 2, count - 1)) by {
            assert forall|i: int|
                #![trigger replies[at + 2 + 2 * i]]
                0 <= i < count - 1 implies {
                &&& replies[at + 2 + 2 * i].document() is Some
                    &&& replies[at + 2 + 2 * i + 1]->Saved_status != 0
            } by {
                assert(replies[at + 2 * (i + 1)].document() is Some);
            }
        }
        lemma_save_all_moves_on(db, coll, ids.push(id), replies, at + 2, count - 1);
        assert(ids.push(id) + stored_ids(replies, at + 2, count - 1) =~= ids + stored_ids(
            replies,
            at,
            count,
        ));
    }
}

/// Where every document is stored, the identifiers are given in the order of the
/// documents.
pub proof fn law_save_all_in_order(db: Handle, coll: Handle, replies: Seq<Answer>, count: int)
    requires
        0 <= count,
        replies.len() == 2 * count + 1,
        all_stored(replies, 0, count),
        replies[2 * count].document() is None,
    ensures
        save_all_plan(db, coll, Seq::empty(), replies, 0) == Plan::<
            Result<Seq<ObjectId>, ErrorView>,
        >::Done(Ok(stored_ids(replies, 0, count)), replies.len() as int),
{
    lemma_save_all_moves_on(db, coll, Seq::empty(), replies, 0, count);
    assert(Seq::empty() + stored_ids(replies, 0, count) =~= stored_ids(replies, 0, count));
}

/// The first document that is refused ends it, with its error and the
/// identifiers of the documents before it.
pub proof fn law_save_all_stops_at_the_first_refusal(
    db: Handle,
    coll: Handle,
    replies: Seq<Answer>,
    count: int,
    document: Contents,
    error: ErrorView,
    end: int,
)
    requires
        0 <= count,
        2 * count < replies.len(),
        all_stored(replies, 0, count),
        replies[2 * count].document() == Some(document),
        save_plan(db, coll, Ok(encoding(document.entries)), replies, 2 * count + 1) == Plan::<
            Result<ObjectId, ErrorView>,
        >::Done(Err(error), end),
    ensures
        save_all_plan(db, coll, Seq::empty(), replies, 0) == Plan::<
            Result<Seq<ObjectId>, ErrorView>,
        >::Done(
            Err(
                ErrorView::PartialSave {
                    cause: Box::new(error),
                    successful_ids: stored_ids(replies, 0, count),
                },
            ),
            end,
        ),
{
    lemma_save_all_moves_on(db, coll, Seq::empty(), replies, 0, count);
    assert(Seq::empty() + stored_ids(replies, 0, count) =~= stored_ids(replies, 0, count));
}

/// Storing several documents fails in no other way.
pub proof fn law_save_all_fails_partially(
    db: Handle,
    coll: Handle,
    ids: Seq<ObjectId>,
    replies: Seq<Answer>,
    at: int,
)
    ensures
        save_all_plan(db, coll, ids, replies, at) matches Plan::Done(result, _) ==> match result {
            Ok(all) => ids.is_prefix_of(all),
            Err(error) => error matches ErrorView::PartialSave { successful_ids, .. }
                && ids.is_prefix_of(successful_ids),
        },
    decreases replies.len() - at,
{
    if at < replies.len() {
        if let Some(document) = replies[at].document() {
            lemma_save_moves_on(db, coll, Ok(encoding(document.entries)), replies, at + 1);
            match save_plan(db, coll, Ok(encoding(document.entries)), replies, at + 1) {
                Plan::Done(Ok(id), end) => {
                    law_save_all_fails_partially(db, coll, ids.push(id), replies, end);
                    assert(ids.is_prefix_of(ids.push(id)));
                },
                _ => {},
            }
        }
    }
}

/// The results after reading `items` of them.
pub open spec fn after_items(results: QueryResult, items: Seq<Seq<u8>>) -> QueryResult
    decreases items.len(),
{
    if items.len() == 0 {
        results
    } else {
        next_outcome(after_items(results, items.drop_last()), Some(items.last())).0
    }
}

/// Results are read one after the other: after some were read, the next one that
/// is asked for is the one at their number. Reading past the last one moves
/// nothing.
pub proof fn law_results_in_order(result: Handle, total: u32, items: Seq<Seq<u8>>)
    requires
        items.len() <= i32::MAX,
    ensures
        after_items(QueryResult { result, current: 0, total }, items) == (QueryResult {
            result,
            current: items.len() as i32,
            total,
        }),
        next_outcome(after_items(QueryResult { result, current: 0, total }, items), None).0
            == after_items(QueryResult { result, current: 0, total }, items),
    decreases items.len(),
{
    if items.len() > 0 {
        law_results_in_order(result, total, items.drop_last());
    }
}

/// The operations on a database, a collection or a transaction that do not go
/// through a list come to an end within a few answers.
pub proof fn law_operations_end(
    db: &Database,
    coll: &Collection,
    bytes: Seq<u8>,
    mode: u32,
    context: Seq<char>,
    options: EngineOptions,
    prune: u8,
    id: ObjectId,
    encoded: Result<Seq<u8>, EncoderError>,
    transaction: Transaction,
    replies: Seq<Answer>,
    at: int,
)
    requires
        at + 5 <= replies.len(),
    ensures
        open_plan(bytes, mode, replies, at) matches Plan::Done(_, end) && at < end <= at + 4,
        last_error_msg_plan(db.handle, replies, at) matches Plan::Done(_, end) && at < end <= at
            + 2,
        last_error_plan(db.handle, context, replies, at) matches Plan::Done(_, end) && at < end
            <= at + 2,
        name_plan(coll.coll, replies, at) matches Plan::Done(_, end) && end == at + 1,
        get_collection_plan(db, bytes, replies, at) matches Plan::Done(_, end) && at <= end <= at
            + 3,
        get_or_create_collection_plan(db, bytes, options, replies, at) matches Plan::Done(_, end)
            && at <= end <= at + 3,
        drop_collection_plan(db.handle, bytes, prune, replies, at) matches Plan::Done(_, end) && at
            <= end <= at + 3,
        transaction_active_plan(db.handle, coll.coll, replies, at) matches Plan::Done(_, end) && at
            < end <= at + 3,
        save_plan(db.handle, coll.coll, encoded, replies, at) matches Plan::Done(_, end) && at
            <= end <= at + 3,
        load_plan(db.handle, coll.coll, id, replies, at) matches Plan::Done(_, end) && at < end
            <= at + 5,
        begin_plan(coll, replies, at) matches Plan::Done(_, end) && at < end <= at + 3,
        transaction.finish_plan(replies, at) matches Plan::Done(_, end) && at <= end <= at + 3,
{
}

/// Listing comes to an end: within three answers where there is no list, and
/// else once every item was asked for and named and the list was freed.
pub proof fn law_listing_ends(db: Handle, replies: Seq<Answer>, at: int)
    requires
        0 <= at,
        at + 1 < replies.len(),
        replies[at].object() == 0 && replies[at + 1].number() != 0 ==> at + 2 < replies.len(),
        replies[at].object() != 0 ==> at + 2 * items(replies[at + 1].number()) + 3
            <= replies.len(),
    ensures
        collection_names_plan(db, replies, at) matches Plan::Done(names, end)
            && if replies[at].object() == 0 {
            names is Err && at < end <= at + 3
        } else {
            names is Ok && end == at + 2 * items(replies[at + 1].number()) + 3
        },
{
    if replies[at].object() != 0 && replies[at + 1].number() >= 0 {
        lemma_names_rest(
            replies[at].object(),
            replies[at + 1].number(),
            0,
            Seq::empty(),
            replies,
            at + 2,
        );
    }
}

/// Storing several documents comes to an end once there are no more of them. The
/// answer that there is none ends it. A document that is stored takes two answers,
/// and then the next one is asked for. One that is refused ends it within four.
pub proof fn law_save_all_moves_on(
    db: Handle,
    coll: Handle,
    ids: Seq<ObjectId>,
    replies: Seq<Answer>,
    at: int,
)
    requires
        0 <= at < replies.len(),
        replies[at].document() is Some ==> at + 1 < replies.len(),
        replies[at].document() is Some && replies[at + 1]->Saved_status == 0 ==> at + 2
            < replies.len() && (replies[at + 2].number() != 0 ==> at + 3 < replies.len()),
    ensures
        replies[at].document() is None ==> save_all_plan(db, coll, ids, replies, at) == Plan::<
            Result<Seq<ObjectId>, ErrorView>,
        >::Done(Ok(ids), at + 1),
        replies[at].document() is Some && replies[at + 1]->Saved_status == 0 ==> (save_all_plan(
            db,
            coll,
            ids,
            replies,
            at,
        ) matches Plan::Done(Err(_), end) && at < end <= at + 4),
        replies[at].document() is Some && replies[at + 1]->Saved_status != 0 ==> save_all_plan(
            db,
            coll,
            ids,
            replies,
            at,
        ) == save_all_plan(db, coll, ids.push(replies[at + 1]->Saved_id), replies, at + 2),
{
}

/// Every execution of a query comes to an end.
pub proof fn law_executions_end(
    run: Execution,
    criteria: Result<Seq<u8>, EncoderError>,
    hints: Option<Result<Seq<u8>, EncoderError>>,
    query: Query,
    replies: Seq<Answer>,
    at: int,
)
    requires
        at + 10 <= replies.len(),
    ensures
        execute_plan(run, criteria, hints, replies, at) matches Plan::Done(_, end) && at <= end
            <= at + 8,
        query.count_plan(replies, at) matches Plan::Done(_, end) && at <= end <= at + 8,
        query.find_plan(replies, at) matches Plan::Done(_, end) && at <= end <= at + 8,
        query.find_one_plan(replies, at) matches Plan::Done(_, end) && at <= end <= at + 10,
{
}

/// A document that is not there is no error: where the engine gives no document
/// and knows of no error, fetching gives none.
pub proof fn law_absent_document_is_no_error(
    db: Handle,
    coll: Handle,
    id: ObjectId,
    replies: Seq<Answer>,
    at: int,
)
    requires
        0 <= at,
        at + 2 <= replies.len(),
        replies[at].bytes() is None,
    ensures
        load_plan(db, coll, id, replies, at) matches Plan::Done(Ok(None), _) <==> replies[at
            + 1].number() == 0,
{
}

/// A document that an operation gives is whole: every key that it lists has a
/// value, at every depth. It can be stored again, as long as the length of each
/// piece of code with its scope in it can be written.
pub proof fn law_documents_given_are_whole(
    db: Handle,
    coll: Handle,
    id: ObjectId,
    query: Query,
    results: QueryResult,
    item: Option<Seq<u8>>,
    replies: Seq<Answer>,
    at: int,
)
    ensures
        load_plan(db, coll, id, replies, at) matches Plan::Done(Ok(Some(document)), _) ==> whole(
            document,
        ) && (scopes_fit(document) ==> encodes(document)),
        query.find_one_plan(replies, at) matches Plan::Done(Ok(Some(document)), _) ==> whole(
            document,
        ) && (scopes_fit(document) ==> encodes(document)),
        next_outcome(results, item).1 matches Some(Ok(document)) ==> whole(document) && (
        scopes_fit(document) ==> encodes(document)),
{
    assert forall|document: Contents|
        #![trigger encodes(document)]
        whole(document) && scopes_fit(document) implies encodes(document) by {
        lemma_whole_encodes(document);
    }
}

} // verus!
