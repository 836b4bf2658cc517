//! What the operations on transactions ask and give, answer by answer.

use vstd::prelude::*;

use crate::collection::Collection;
use crate::error::Error;
use crate::laws::conversations::{ends, explains, told};
use crate::native::{Answer, Request};
use crate::operation::Step;
use crate::transaction::{Beginning, Ending, Transaction};

verus! {

/// Opening a transaction asks for one on this collection. It is to be aborted
/// until something else is set.
pub proof fn law_begin<'coll, 'db>(
    coll: &'coll Collection<'db>,
    step: Step<Beginning<'coll, 'db>, Result<Transaction<'coll, 'db>, Error>>,
    replies: Seq<Answer>,
)
    requires
        call_ensures(Collection::begin, (coll,), step) || call_ensures(
            Transaction::new,
            (coll,),
            step,
        ),
    ensures
        step matches Step::Ask(Request::BeginTransaction { coll: asked }, _) && asked == coll.coll,
        replies.len() == 1 && replies[0] == Answer::Status(0) ==> ends(
            told(step, replies),
            replies,
            Ok(Transaction { coll, commit: false, finished: false }),
        ),
        replies.len() >= 1 && replies[0] is Status && replies[0]->Status_0 != 0 ==> explains(
            told(step, replies),
            replies,
            1,
            coll.db.handle,
            "error opening transaction"@,
        ),
{
    assert(told(step, Seq::<Answer>::empty()) is Ask);
}

/// What the end of a transaction asks, answer by answer.
pub open spec fn ended(
    step: Step<Ending, Result<(), Error>>,
    coll: &Collection,
    commit: bool,
    replies: Seq<Answer>,
) -> bool {
    &&& if commit {
        step matches Step::Ask(Request::CommitTransaction { coll: asked }, _) && asked == coll.coll
    } else {
        step matches Step::Ask(Request::AbortTransaction { coll: asked }, _) && asked == coll.coll
    }
    &&& replies.len() == 1 && replies[0] is Status && replies[0]->Status_0 != 0 ==> ends(
        told(step, replies),
        replies,
        Ok(()),
    )
    &&& replies.len() >= 1 && replies[0] == Answer::Status(0) ==> explains(
        told(step, replies),
        replies,
        1,
        coll.db.handle,
        if commit {
            "error commiting transaction"@
        } else {
            "error aborting transaction"@
        },
    )
}

/// Committing commits and aborting aborts, whatever is set.
pub proof fn law_commit_and_abort(
    transaction: Transaction,
    committed: Step<Ending, Result<(), Error>>,
    aborted: Step<Ending, Result<(), Error>>,
    replies: Seq<Answer>,
)
    requires
        call_ensures(Transaction::commit, (transaction,), committed),
        call_ensures(Transaction::abort, (transaction,), aborted),
    ensures
        ended(committed, transaction.coll, true, replies),
        ended(aborted, transaction.coll, false, replies),
{
    assert(told(committed, Seq::<Answer>::empty()) is Ask);
    assert(told(aborted, Seq::<Answer>::empty()) is Ask);
}

/// Finishing does what is set, and nothing where the transaction was ended.
pub proof fn law_finish(
    transaction: Transaction,
    step: Step<Ending, Result<(), Error>>,
    replies: Seq<Answer>,
)
    requires
        call_ensures(Transaction::finish, (transaction,), step),
    ensures
        transaction.finished ==> step is Done && ends(told(step, Seq::empty()), Seq::empty(), Ok(())),
        !transaction.finished ==> ended(step, transaction.coll, transaction.commit, replies),
{
    assert(!transaction.finished ==> told(step, Seq::<Answer>::empty()) is Ask);
}

/// What is set is what will be done.
pub proof fn law_will(transaction: &Transaction, commits: bool, aborts: bool)
    requires
        call_ensures(Transaction::will_commit, (transaction,), commits),
        call_ensures(Transaction::will_abort, (transaction,), aborts),
    ensures
        commits == transaction.commit,
        aborts != commits,
{
}

/// Setting that a transaction is to be committed sets that and nothing else.
pub proof fn law_set_commit(transaction: &mut Transaction)
    requires
        call_ensures(Transaction::set_commit, (transaction,), ()),
    ensures
        final(transaction).commit,
        final(transaction).finished == old(transaction).finished,
        final(transaction).coll == old(transaction).coll,
{
}

/// Setting that a transaction is to be aborted sets that and nothing else.
pub proof fn law_set_abort(transaction: &mut Transaction)
    requires
        call_ensures(Transaction::set_abort, (transaction,), ()),
    ensures
        !final(transaction).commit,
        final(transaction).finished == old(transaction).finished,
        final(transaction).coll == old(transaction).coll,
{
}

/// Finishing a transaction in place does the same, and notes that it is ended and
/// nothing else.
pub proof fn law_finish_mut(
    transaction: &mut Transaction,
    step: Step<Ending, Result<(), Error>>,
    replies: Seq<Answer>,
)
    requires
        call_ensures(Transaction::finish_mut, (transaction,), step),
    ensures
        final(transaction).finished,
        final(transaction).commit == old(transaction).commit,
        final(transaction).coll == old(transaction).coll,
        old(transaction).finished ==> step is Done && ends(
            told(step, Seq::empty()),
            Seq::empty(),
            Ok(()),
        ),
        !old(transaction).finished ==> ended(
            step,
            old(transaction).coll,
            old(transaction).commit,
            replies,
        ),
{
    assert(!transaction.finished ==> told(step, Seq::<Answer>::empty()) is Ask);
}

} // verus!
