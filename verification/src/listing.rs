//! Listing the collections of a database.

use vstd::prelude::*;
use vstd::pervasive::unreached;

use crate::database::{explained, Database};
use crate::error::{Error, ErrorView};
use crate::last_error::{LastError, LastErrorMsg};
use crate::native::{Answer, Call, Handle, NativeReply, Reply, Request};
use crate::operation::{ask, follows, Operation, Plan, Step};
use crate::text::from_utf8;

verus! {

/// The plan of listing the names of the collections of `db`.
pub open spec fn collection_names_plan(db: Handle, replies: Seq<Answer>, at: int) -> Plan<
    Result<Seq<Seq<char>>, ErrorView>,
> {
    ask(
        Request::ListCollections { db },
        replies,
        at,
        |listed: Answer|
            if listed.object() == 0 {
                explained(db, "cannot get collection names"@, replies, at + 1)
            } else {
                list_plan(listed.object(), replies, at + 1)
            },
    )
}

/// The plan of reading the names off a list.
pub open spec fn list_plan(list: Handle, replies: Seq<Answer>, at: int) -> Plan<
    Result<Seq<Seq<char>>, ErrorView>,
> {
    ask(
        Request::ListLength { list },
        replies,
        at,
        |length: Answer| names_plan(list, length.number(), 0, Seq::empty(), replies, at + 1),
    )
}

/// The plan of reading the names off a list from an index on, after those in
/// `names`, and then of freeing the list.
pub open spec fn names_plan(
    list: Handle,
    length: i32,
    index: int,
    names: Seq<Seq<char>>,
    replies: Seq<Answer>,
    at: int,
) -> Plan<Result<Seq<Seq<char>>, ErrorView>>
    decreases length - index,
{
    if index < length {
        ask(
            Request::ListItem { list, index: index as i32 },
            replies,
            at,
            |item: Answer|
                ask(
                    Request::CollectionName { coll: item.object() },
                    replies,
                    at + 1,
                    |name: Answer|
                        names_plan(
                            list,
                            length,
                            index + 1,
                            names.push(name.text()),
                            replies,
                            at + 2,
                        ),
                ),
        )
    } else {
        ask(Request::DeleteList { list }, replies, at, |freed: Answer| Plan::Done(Ok(names), at + 1))
    }
}

/// Lists the names of the collections of a database.
pub enum ListingCollections {
    List { db: Handle },
    Length { list: Handle },
    Item { list: Handle, length: i32, index: i32, names: Vec<String> },
    Name { list: Handle, length: i32, index: i32, names: Vec<String>, coll: Handle },
    Free { list: Handle, names: Vec<String> },
    Failed(LastError),
}

/// What a list of names means.
pub open spec fn names_view(names: Seq<String>) -> Seq<Seq<char>> {
    names.map_values(|name: String| name@)
}

impl Database {
    /// Lists the names of the collections.
    pub fn get_collection_names(&self) -> (step: Step<
        ListingCollections,
        Result<Vec<String>, Error>,
    >)
        ensures
            follows(
                step,
                |replies: Seq<Answer>, at: int| collection_names_plan(self.handle, replies, at),
            ),
    {
        let db = self.handle;
        Step::Ask(Request::ListCollections { db }, ListingCollections::List { db })
    }
}

/// The step that reads the name at `index`, or frees the list where there is none.
fn next_name(list: Handle, length: i32, index: i64, names: Vec<String>) -> (step: Step<
    ListingCollections,
    Result<Vec<String>, Error>,
>)
    requires
        i32::MIN <= index,
    ensures
        index < length ==> step == Step::<_, Result<Vec<String>, Error>>::Ask(
            Request::ListItem { list, index: index as i32 },
            ListingCollections::Item { list, length, index: index as i32, names },
        ),
        index >= length ==> step == Step::<_, Result<Vec<String>, Error>>::Ask(
            Request::DeleteList { list },
            ListingCollections::Free { list, names },
        ),
{
    if index < length as i64 {
        let index: i32 = index as i32;
        Step::Ask(
            Request::ListItem { list, index },
            ListingCollections::Item { list, length, index, names },
        )
    } else {
        Step::Ask(Request::DeleteList { list }, ListingCollections::Free { list, names })
    }
}

impl Operation for ListingCollections {
    type Output = Result<Vec<String>, Error>;

    type Outcome = Result<Seq<Seq<char>>, ErrorView>;

    open spec fn outcome(output: Result<Vec<String>, Error>) -> Result<Seq<Seq<char>>, ErrorView> {
        match output {
            Ok(names) => Ok(names_view(names@)),
            Err(error) => Err(error@),
        }
    }

    open spec fn awaiting(&self) -> Call {
        match *self {
            ListingCollections::List { db } => Request::ListCollections { db },
            ListingCollections::Length { list } => Request::ListLength { list },
            ListingCollections::Item { list, index, .. } => Request::ListItem { list, index },
            ListingCollections::Name { coll, .. } => Request::CollectionName { coll },
            ListingCollections::Free { list, .. } => Request::DeleteList { list },
            ListingCollections::Failed(error) => error.awaiting(),
        }
    }

    open spec fn after(&self, answer: Answer, replies: Seq<Answer>, at: int) -> Plan<
        Result<Seq<Seq<char>>, ErrorView>,
    > {
        match *self {
            ListingCollections::List { db } => if answer.object() == 0 {
                explained(db, "cannot get collection names"@, replies, at)
            } else {
                list_plan(answer.object(), replies, at)
            },
            ListingCollections::Length { list } => names_plan(
                list,
                answer.number(),
                0,
                Seq::empty(),
                replies,
                at,
            ),
            ListingCollections::Item { list, length, index, names } => ask(
                Request::CollectionName { coll: answer.object() },
                replies,
                at,
                |name: Answer|
                    names_plan(
                        list,
                        length,
                        index + 1,
                        names_view(names@).push(name.text()),
                        replies,
                        at + 1,
                    ),
            ),
            ListingCollections::Name { list, length, index, names, coll } => names_plan(
                list,
                length,
                index + 1,
                names_view(names@).push(answer.text()),
                replies,
                at,
            ),
            ListingCollections::Free { names, .. } => Plan::Done(Ok(names_view(names@)), at),
            ListingCollections::Failed(error) => error.after(answer, replies, at).and_next(
                |error: ErrorView, at: int| Plan::Done(Err(error), at),
            ),
        }
    }

    fn resume(self, reply: NativeReply) -> (step: Step<Self, Result<Vec<String>, Error>>) {
        match (self, reply) {
            (ListingCollections::List { db }, Reply::Object(list)) => if list == 0 {
                Step::Ask(
                    Request::ErrorCode { db },
                    ListingCollections::Failed(
                        LastError {
                            message: LastErrorMsg::Code { db },
                            context: "cannot get collection names",
                        },
                    ),
                )
            } else {
                Step::Ask(Request::ListLength { list }, ListingCollections::Length { list })
            },
            (ListingCollections::Length { list }, Reply::Number(length)) => {
                let names: Vec<String> = Vec::new();
                proof {
                    assert(names_view(names@) =~= Seq::empty());
                }
                next_name(list, length, 0, names)
            },
            (
                ListingCollections::Item { list, length, index, names },
                Reply::Object(coll),
            ) => Step::Ask(
                Request::CollectionName { coll },
                ListingCollections::Name { list, length, index, names, coll },
            ),
            (
                ListingCollections::Name { list, length, index, names, .. },
                Reply::Text(name),
            ) => match from_utf8(name.as_slice()) {
                Some(name) => {
                    let ghost before = names@;
                    let mut names = names;
                    names.push(name);
                    proof {
                        assert(names_view(names@) =~= names_view(before).push(name@));
                    }
                    next_name(list, length, index as i64 + 1, names)
                },
                None => unreached(),
            },
            (ListingCollections::Free { names, .. }, Reply::Made) => Step::Done(Ok(names)),
            (ListingCollections::Failed(error), reply) => match error.resume(reply) {
                Step::Ask(request, error) => Step::Ask(request, ListingCollections::Failed(error)),
                Step::Done(error) => Step::Done(Err(error)),
            },
            _ => unreached(),
        }
    }
}

} // verus!
