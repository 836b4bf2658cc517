//! What the execution of queries asks and gives, answer by answer.

use vstd::prelude::*;
use vstd::utf8::decode_utf8;
use bson::{Document, EncoderError};

use crate::collection::Collection;
use crate::document::{contents, decoding, encoding, Contents};
use crate::error::{Error, ErrorView};
use crate::execution::{Executing, Execution, Query};
use crate::laws::conversations::{ends, explains, fails, told};
use crate::limits::{encodes, whole};
use crate::native::{Answer, Call, Handle, Request};
use crate::operation::{Plan, Step};
use crate::query;
use crate::results::{Counting, Finding, FindingOne, QueryResult};

verus! {

/// A number of 32 bits as a signed one.
pub open spec fn as_signed(number: int) -> int {
    if number < 2147483648 {
        number
    } else {
        number - 4294967296
    }
}

/// A query as it is to be executed.
pub struct Run {
    pub db: Handle,
    pub coll: Handle,
    /// The binary form of the criteria.
    pub criteria: Seq<u8>,
    /// The binary form of the hints, if there are any.
    pub hints: Option<Seq<u8>>,
    pub flags: int,
    pub log: bool,
}

/// The execution of `query` with these flags. Hints without a value are none.
pub open spec fn run_of(query: Query, flags: int) -> Run {
    Run {
        db: query.coll.db.handle,
        coll: query.coll.coll,
        criteria: encoding(query.query.criteria().entries),
        hints: if query.query.hints().empty {
            None
        } else {
            Some(encoding(query.query.hints().entries))
        },
        flags,
        log: query.log_out,
    }
}

impl Run {
    /// The index of the answer to the execution itself: after the one on the
    /// query, the one on the hints and the one on the log.
    pub open spec fn executed(self) -> int {
        1 + if self.hints is Some {
            1int
        } else {
            0
        } + if self.log {
            1int
        } else {
            0
        }
    }

    /// The index after the last answer: those to the execution and to freeing the
    /// log and the query.
    pub open spec fn freed(self) -> int {
        self.executed() + 2 + if self.log {
            1int
        } else {
            0
        }
    }

    /// Whether the query was made and took its hints, as far as the answers go.
    pub open spec fn made(self, replies: Seq<Answer>) -> bool {
        &&& replies.len() >= 1 ==> replies[0] is Object && replies[0]->Object_0 != 0
        &&& self.hints is Some && replies.len() >= 2 ==> replies[1] is Object
            && replies[1]->Object_0 != 0
    }

    /// The query to go on with: with hints the one that the engine gave for it.
    pub open spec fn query(self, replies: Seq<Answer>) -> Handle {
        if self.hints is Some {
            replies[1]->Object_0
        } else {
            replies[0]->Object_0
        }
    }

    /// The log that was made, if one is wanted.
    pub open spec fn log_made(self, replies: Seq<Answer>) -> Option<Handle> {
        if self.log {
            Some(replies[self.executed() - 1]->Object_0)
        } else {
            None
        }
    }

    /// Whether the engine gave results, or was only to count.
    pub open spec fn succeeded(self, replies: Seq<Answer>) -> bool {
        let executed = replies[self.executed()];
        executed is Executed && (executed->Executed_result != 0 || self.flags % 2 == 1)
    }

    /// What is asked, one after the other, up to the freeing of what was made.
    pub open spec fn asks_in_order<T>(self, told: Plan<T>, replies: Seq<Answer>) -> bool {
        let e = self.executed();
        self.made(replies) ==> {
            &&& replies.len() == 0 ==> told == Plan::<T>::Ask(
                Call::CreateQuery { db: self.db, criteria: self.criteria },
            )
            &&& self.hints matches Some(hints) ==> (replies.len() == 1 ==> told == Plan::<T>::Ask(
                Call::AddHints { db: self.db, query: replies[0]->Object_0, hints },
            ))
            &&& self.log && replies.len() == e - 1 ==> told == Plan::<T>::Ask(Call::NewLog)
            &&& replies.len() == e ==> (told matches Plan::Ask(
                Request::ExecuteQuery { coll, query, flags, log },
            ) && coll == self.coll && query == self.query(replies) && flags == as_signed(self.flags) && log
                == (match self.log_made(replies) {
                Some(log) => log,
                None => 0,
            }))
            &&& replies.len() > e && self.succeeded(replies) ==> {
                &&& self.log && replies.len() == e + 1 ==> told == Plan::<T>::Ask(
                    Call::DeleteLog { log: replies[e - 1]->Object_0 },
                )
                &&& replies.len() == self.freed() - 1 ==> told == Plan::<T>::Ask(
                    Call::DeleteQuery { query: self.query(replies) },
                )
            }
        }
    }

    /// How it fails: the last error is asked for and explained, and what was made
    /// is freed.
    pub open spec fn fails_in_order<T>(
        self,
        told: Plan<Result<T, ErrorView>>,
        replies: Seq<Answer>,
    ) -> bool {
        let e = self.executed();
        &&& replies.len() >= 1 && replies[0] == Answer::Object(0) ==> explains(
            told,
            replies,
            1,
            self.db,
            "error creating query object"@,
        )
        &&& self.hints is Some && replies.len() >= 2 && replies[0] is Object
            && replies[0]->Object_0 != 0 && replies[1] == Answer::Object(0) ==> abandons(
            told,
            replies,
            2,
            self.db,
            "error setting query hints"@,
            replies[0]->Object_0,
            None,
        )
        &&& self.made(replies) && replies.len() > e && replies[e] is Executed
            && !self.succeeded(replies) ==> abandons(
            told,
            replies,
            e + 1,
            self.db,
            "error executing query"@,
            self.query(replies),
            self.log_made(replies),
        )
    }
}

/// That from answer `k` on the last error of `db` is asked for, the log and the
/// query are freed, and it fails with the explanation.
pub open spec fn abandons<T>(
    told: Plan<Result<T, ErrorView>>,
    replies: Seq<Answer>,
    k: int,
    db: Handle,
    context: Seq<char>,
    query: Handle,
    log: Option<Handle>,
) -> bool {
    &&& replies.len() == k ==> told == Plan::<Result<T, ErrorView>>::Ask(Call::ErrorCode { db })
    &&& replies.len() > k && replies[k] is Number ==> {
        let code = replies[k]->Number_0;
        // The index after the answers on the last error, and after that on the log.
        let known: int = if code == 0 {
            k + 1
        } else {
            k + 2
        };
        let unlogged: int = if log is Some {
            known + 1
        } else {
            known
        };
        &&& code != 0 && replies.len() == k + 1 ==> told == Plan::<Result<T, ErrorView>>::Ask(
            Call::ErrorMessage { code },
        )
        &&& log matches Some(log) ==> (replies.len() == known ==> told == Plan::<
            Result<T, ErrorView>,
        >::Ask(Call::DeleteLog { log }))
        &&& replies.len() == unlogged ==> told == Plan::<Result<T, ErrorView>>::Ask(
            Call::DeleteQuery { query },
        )
        &&& replies.len() == unlogged + 1 ==> fails(
            told,
            replies,
            context + ": "@ + if code == 0 {
                "unknown error"@
            } else {
                decode_utf8(replies[k + 1]->Text_0)
            },
        )
    }
}

/// A query on a collection is on that collection and for those criteria, and has a
/// log exactly where one was asked for.
pub proof fn law_query<'coll, 'db, 'q>(
    coll: &'coll Collection<'db>,
    sought: &'q query::Query,
    made: Query<'coll, 'db, 'q>,
    logged: Query<'coll, 'db, 'q>,
)
    requires
        call_ensures(Collection::query, (coll, sought), made),
        call_ensures(Query::log_output, (made,), logged),
    ensures
        made.coll == coll && logged.coll == coll,
        made.query == sought && logged.query == sought,
        !made.log_out && logged.log_out,
{
}

/// A query is made of exactly those criteria and hints, and exactly where the
/// encoder takes what has to be encoded of them.
pub proof fn law_criteria_and_hints(
    criteria: Document,
    hints: Document,
    made: Option<query::Query>,
)
    requires
        call_ensures(query::Query::new, (criteria, hints), made),
    ensures
        made is Some <==> encodes(contents(criteria)) && (contents(hints).empty || encodes(
            contents(hints),
        )),
        made matches Some(query) ==> query.criteria() == contents(criteria) && query.hints()
            == contents(hints),
{
}

/// The parts of a query are its hints and its criteria, in this order.
pub proof fn law_build_ref(query: &query::Query, hints: &Document, criteria: &Document)
    requires
        call_ensures(query::Query::build_ref, (query,), (hints, criteria)),
    ensures
        contents(*hints) == query.hints(),
        contents(*criteria) == query.criteria(),
{
}

/// Executing a query asks in order and gives the results and the count that the
/// engine gave.
pub proof fn law_execute(
    query: Query,
    flags: u32,
    step: Step<Executing, Result<(Handle, u32), Error>>,
    replies: Seq<Answer>,
)
    requires
        call_ensures(Query::execute, (query, flags), step),
    ensures
        run_of(query, flags as int).asks_in_order(told(step, replies), replies),
        run_of(query, flags as int).fails_in_order(told(step, replies), replies),
        run_of(query, flags as int).made(replies) && replies.len() == run_of(
            query,
            flags as int,
        ).freed() && run_of(query, flags as int).succeeded(replies) ==> {
            let executed = replies[run_of(query, flags as int).executed()];
            ends(
                told(step, replies),
                replies,
                Ok((executed->Executed_result, executed->count)),
            )
        },
{
    assert(flags & 1 == flags % 2) by (bit_vector);
    assert(flags >= 0x8000_0000 ==> (flags as i32) == flags - 0x1_0000_0000) by (bit_vector);
}

/// Counting executes the query for its count, and gives exactly the count that the
/// engine gave. Updating does the same.
pub proof fn law_count_and_update(
    query: Query,
    step: Step<Counting, Result<u32, Error>>,
    replies: Seq<Answer>,
)
    requires
        call_ensures(Query::count, (query,), step) || call_ensures(Query::update, (query,), step),
    ensures
        run_of(query, 1).asks_in_order(told(step, replies), replies),
        run_of(query, 1).fails_in_order(told(step, replies), replies),
        run_of(query, 1).made(replies) && replies.len() == run_of(query, 1).freed() && run_of(
            query,
            1,
        ).succeeded(replies) ==> ends(
            told(step, replies),
            replies,
            Ok(replies[run_of(query, 1).executed()]->count),
        ),
{
    assert(1u32 & 1u32 == 1) by (bit_vector);
}

/// Finding executes the query, and gives the results that the engine gave, none of
/// them read.
pub proof fn law_find(
    query: Query,
    step: Step<Finding, Result<QueryResult, Error>>,
    replies: Seq<Answer>,
)
    requires
        call_ensures(Query::find, (query,), step),
    ensures
        run_of(query, 0).asks_in_order(told(step, replies), replies),
        run_of(query, 0).fails_in_order(told(step, replies), replies),
        run_of(query, 0).made(replies) && replies.len() == run_of(query, 0).freed() && run_of(
            query,
            0,
        ).succeeded(replies) ==> {
            let executed = replies[run_of(query, 0).executed()];
            ends(
                told(step, replies),
                replies,
                Ok(
                    QueryResult {
                        result: executed->Executed_result,
                        current: 0,
                        total: executed->count,
                    },
                ),
            )
        },
{
    assert(0u32 & 1u32 == 0) by (bit_vector);
}

/// Finding one executes the query, hints and all, for one result, reads the first
/// of the results that the engine gave, frees them, and gives what the decoder
/// makes of it.
pub proof fn law_find_one(
    query: Query,
    step: Step<FindingOne, Result<Option<Document>, Error>>,
    replies: Seq<Answer>,
)
    requires
        call_ensures(Query::find_one, (query,), step),
    ensures
        run_of(query, 2).asks_in_order(told(step, replies), replies),
        run_of(query, 2).fails_in_order(told(step, replies), replies),
        run_of(query, 2).made(replies) && replies.len() >= run_of(query, 2).freed() && run_of(
            query,
            2,
        ).succeeded(replies) ==> {
            let end = run_of(query, 2).freed();
            let result = replies[run_of(query, 2).executed()]->Executed_result;
            &&& replies.len() == end ==> told(step, replies) == Plan::<
                Result<Option<Contents>, ErrorView>,
            >::Ask(Call::ResultItem { result, index: 0 })
            &&& replies.len() == end + 1 ==> told(step, replies) == Plan::<
                Result<Option<Contents>, ErrorView>,
            >::Ask(Call::DisposeResult { result })
            &&& replies.len() == end + 2 && replies[end] == Answer::Bytes(None) ==> ends(
                told(step, replies),
                replies,
                Ok(None),
            )
            &&& replies.len() == end + 2 && replies[end] is Bytes && replies[end]->Bytes_0 is Some
                ==> match decoding(replies[end]->Bytes_0->0) {
                Ok(document) => whole(document) ==> ends(
                    told(step, replies),
                    replies,
                    Ok(Some(document)),
                ),
                Err(error) => ends(
                    told(step, replies),
                    replies,
                    Err(ErrorView::BsonDecoding(error)),
                ),
            }
        },
{
    assert(2u32 & 1u32 == 0) by (bit_vector);
}

/// An execution of what was encoded asks in order and gives the results and the
/// count that the engine gave. Criteria that were not encoded end it at once, and
/// hints that were not encoded end it once the query that was made is freed.
pub proof fn law_start(
    run: Execution,
    criteria: Result<Vec<u8>, EncoderError>,
    hints: Option<Result<Vec<u8>, EncoderError>>,
    step: Step<Executing, Result<(Handle, u32), Error>>,
    replies: Seq<Answer>,
)
    requires
        call_ensures(Execution::start, (run, criteria, hints), step),
    ensures
        criteria matches Err(error) ==> step is Done && ends(
            told(step, Seq::empty()),
            Seq::empty(),
            Err(ErrorView::BsonEncoding(error)),
        ),
        criteria is Ok && !(hints matches Some(Err(_))) ==> {
            let whole_run = Run {
                db: run.db,
                coll: run.coll,
                criteria: criteria->Ok_0@,
                hints: match hints {
                    Some(Ok(hints)) => Some(hints@),
                    _ => None,
                },
                flags: run.flags as int,
                log: run.log,
            };
            let executed = replies[whole_run.executed()];
            &&& whole_run.asks_in_order(told(step, replies), replies)
            &&& whole_run.fails_in_order(told(step, replies), replies)
            &&& whole_run.made(replies) && replies.len() == whole_run.freed()
                && whole_run.succeeded(replies) ==> ends(
                told(step, replies),
                replies,
                Ok((executed->Executed_result, executed->count)),
            )
        },
        criteria is Ok && replies.len() >= 1 && replies[0] is Object && replies[0]->Object_0 != 0
            ==> (hints matches Some(Err(error)) ==> {
            &&& replies.len() == 1 ==> told(step, replies) == Plan::<
                Result<(Handle, u32), ErrorView>,
            >::Ask(Call::DeleteQuery { query: replies[0]->Object_0 })
            &&& replies.len() == 2 ==> ends(
                told(step, replies),
                replies,
                Err(ErrorView::BsonEncoding(error)),
            )
        }),
        criteria matches Ok(bytes) ==> (step matches Step::Ask(
            Request::CreateQuery { db, criteria: asked },
            _,
        ) && db == run.db && asked@ == bytes@),
{
    let flags = run.flags;
    assert(flags & 1 == flags % 2) by (bit_vector);
    assert(flags >= 0x8000_0000 ==> (flags as i32) == flags - 0x1_0000_0000) by (bit_vector);
    assert(criteria is Ok ==> told(step, Seq::<Answer>::empty()) is Ask);
    assert(criteria is Err ==> told(step, Seq::<Answer>::empty()) is Done);
}

} // verus!
