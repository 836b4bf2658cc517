use ejdb::collection::Collection;
use ejdb::database::Database;
use ejdb::error::Error;
use ejdb::native::{NativeReply, NativeRequest, Reply, Request};
use ejdb::operation::{proceed, Operation, Step};
use ejdb::transaction::Transaction;

fn run<P: Operation>(
    step: Step<P, P::Output>,
    script: Vec<(NativeRequest, NativeReply)>,
) -> P::Output {
    let mut step = step;
    let mut script = script.into_iter();
    loop {
        match step {
            Step::Ask(request, pending) => {
                let (expected, reply) = script.next().expect("asked more than was expected");
                assert_eq!(request, expected);
                step = proceed(&request, pending, reply).expect("no answer to the request");
            }
            Step::Done(output) => {
                assert!(script.next().is_none(), "asked less than was expected");
                return output;
            }
        }
    }
}

fn message<T>(result: Result<T, Error>) -> String {
    match result {
        Err(Error::Other(message)) => message,
        Err(_) => panic!("another error"),
        Ok(_) => panic!("no error"),
    }
}

fn why(text: &str) -> Vec<(NativeRequest, NativeReply)> {
    vec![
        (Request::ErrorCode { db: 3 }, Reply::Number(11)),
        (Request::ErrorMessage { code: 11 }, Reply::Text(text.as_bytes().to_vec())),
    ]
}

fn begin<'coll, 'db>(coll: &'coll Collection<'db>) -> Transaction<'coll, 'db> {
    run(coll.begin(), vec![(Request::BeginTransaction { coll: 6 }, Reply::Status(0))]).unwrap()
}

#[test]
fn begins_a_transaction_that_aborts() {
    let db = Database { handle: 3 };
    let coll = Collection { coll: 6, db: &db };
    let transaction = begin(&coll);
    assert!(transaction.will_abort());
    assert!(!transaction.will_commit());
    assert!(!transaction.finished);
    let ended = run(
        transaction.finish(),
        vec![(Request::AbortTransaction { coll: 6 }, Reply::Status(1))],
    );
    assert!(ended.is_ok());
}

#[test]
fn cannot_begin_a_transaction() {
    let db = Database { handle: 3 };
    let coll = Collection { coll: 6, db: &db };
    let mut script = vec![(Request::BeginTransaction { coll: 6 }, Reply::Status(1))];
    script.extend(why("locked"));
    assert_eq!(message(run(coll.begin(), script)), "error opening transaction: locked");
}

#[test]
fn the_last_setting_counts() {
    let db = Database { handle: 3 };
    let coll = Collection { coll: 6, db: &db };
    let mut transaction = begin(&coll);
    transaction.set_commit();
    assert!(transaction.will_commit() && !transaction.will_abort());
    transaction.set_abort();
    assert!(transaction.will_abort());
    transaction.set_commit();
    let ended = run(
        transaction.finish(),
        vec![(Request::CommitTransaction { coll: 6 }, Reply::Status(1))],
    );
    assert!(ended.is_ok());
}

#[test]
fn commits_whatever_is_set() {
    let db = Database { handle: 3 };
    let coll = Collection { coll: 6, db: &db };
    let ended = run(
        begin(&coll).commit(),
        vec![(Request::CommitTransaction { coll: 6 }, Reply::Status(1))],
    );
    assert!(ended.is_ok());
}

#[test]
fn aborts_whatever_is_set() {
    let db = Database { handle: 3 };
    let coll = Collection { coll: 6, db: &db };
    let mut transaction = begin(&coll);
    transaction.set_commit();
    let ended = run(
        transaction.abort(),
        vec![(Request::AbortTransaction { coll: 6 }, Reply::Status(1))],
    );
    assert!(ended.is_ok());
}

#[test]
fn is_left_alone_once_it_was_ended() {
    let db = Database { handle: 3 };
    let coll = Collection { coll: 6, db: &db };
    let mut transaction = begin(&coll);
    transaction.set_commit();
    let ended = run(
        transaction.finish_mut(),
        vec![(Request::CommitTransaction { coll: 6 }, Reply::Status(1))],
    );
    assert!(ended.is_ok());
    assert!(transaction.finished);
    assert!(run(transaction.finish_mut(), vec![]).is_ok());
    assert!(run(transaction.finish(), vec![]).is_ok());
}

#[test]
fn is_ended_even_where_the_engine_fails() {
    let db = Database { handle: 3 };
    let coll = Collection { coll: 6, db: &db };
    let mut transaction = begin(&coll);
    let mut script = vec![(Request::AbortTransaction { coll: 6 }, Reply::Status(0))];
    script.extend(why("lost"));
    assert_eq!(
        message(run(transaction.finish_mut(), script)),
        "error aborting transaction: lost"
    );
    assert!(run(transaction.finish_mut(), vec![]).is_ok());
}

#[test]
fn cannot_commit() {
    let db = Database { handle: 3 };
    let coll = Collection { coll: 6, db: &db };
    let mut script = vec![(Request::CommitTransaction { coll: 6 }, Reply::Status(0))];
    script.extend(why("full"));
    assert_eq!(message(run(begin(&coll).commit(), script)), "error commiting transaction: full");
}

#[test]
fn tells_whether_a_transaction_is_open() {
    let db = Database { handle: 3 };
    let coll = Collection { coll: 6, db: &db };
    for (active, expected) in [(0, false), (1, true), (2, true)] {
        let told = run(
            coll.transaction_active(),
            vec![(
                Request::TransactionStatus { coll: 6 },
                Reply::Transaction { status: 1, active },
            )],
        );
        assert_eq!(told.unwrap(), expected);
    }
}

#[test]
fn cannot_tell_whether_a_transaction_is_open() {
    let db = Database { handle: 3 };
    let coll = Collection { coll: 6, db: &db };
    let mut script = vec![(
        Request::TransactionStatus { coll: 6 },
        Reply::Transaction { status: 0, active: 1 },
    )];
    script.extend(why("gone"));
    assert_eq!(
        message(run(coll.transaction_active(), script)),
        "error getting transaction status: gone"
    );
}
