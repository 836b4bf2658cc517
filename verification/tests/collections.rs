use ejdb::collection::Collection;
use ejdb::database::Database;
use ejdb::error::Error;
use ejdb::native::{EngineOptions, NativeReply, NativeRequest, Reply, Request};
use ejdb::operation::{proceed, Operation, Step};
use ejdb::options::CollectionOptions;

fn run<P: Operation>(
    step: Step<P, P::Output>,
    script: Vec<(NativeRequest, NativeReply)>,
) -> P::Output {
    let mut step = step;
    let mut script = script.into_iter();
    loop {
        match step {
            Step::Ask(request, pending) => {
                let (expected, reply) = script.next().expect("asked more than was expected");
                assert_eq!(request, expected);
                step = proceed(&request, pending, reply).expect("no answer to the request");
            }
            Step::Done(output) => {
                assert!(script.next().is_none(), "asked less than was expected");
                return output;
            }
        }
    }
}

fn message<T>(result: Result<T, Error>) -> String {
    match result {
        Err(Error::Other(message)) => message,
        Err(_) => panic!("another error"),
        Ok(_) => panic!("no error"),
    }
}

fn code(number: i32) -> (NativeRequest, NativeReply) {
    (Request::ErrorCode { db: 3 }, Reply::Number(number))
}

fn text(number: i32, text: &str) -> (NativeRequest, NativeReply) {
    (Request::ErrorMessage { code: number }, Reply::Text(text.as_bytes().to_vec()))
}

fn name(coll: usize, name: &str) -> (NativeRequest, NativeReply) {
    (Request::CollectionName { coll }, Reply::Text(name.as_bytes().to_vec()))
}

#[test]
fn names_in_the_order_of_the_list() {
    let db = Database { handle: 3 };
    let names = run(
        db.get_collection_names(),
        vec![
            (Request::ListCollections { db: 3 }, Reply::Object(40)),
            (Request::ListLength { list: 40 }, Reply::Number(3)),
            (Request::ListItem { list: 40, index: 0 }, Reply::Object(51)),
            name(51, "zebra"),
            (Request::ListItem { list: 40, index: 1 }, Reply::Object(50)),
            name(50, "ant"),
            (Request::ListItem { list: 40, index: 2 }, Reply::Object(51)),
            name(51, "zebra"),
            (Request::DeleteList { list: 40 }, Reply::Made),
        ],
    );
    assert_eq!(names.unwrap(), vec!["zebra", "ant", "zebra"]);
}

#[test]
fn no_names_in_an_empty_list() {
    let db = Database { handle: 3 };
    for length in [0, -1] {
        let names = run(
            db.get_collection_names(),
            vec![
                (Request::ListCollections { db: 3 }, Reply::Object(40)),
                (Request::ListLength { list: 40 }, Reply::Number(length)),
                (Request::DeleteList { list: 40 }, Reply::Made),
            ],
        );
        assert!(names.unwrap().is_empty());
    }
}

#[test]
fn no_list_of_names() {
    let db = Database { handle: 3 };
    let names = run(
        db.get_collection_names(),
        vec![
            (Request::ListCollections { db: 3 }, Reply::Object(0)),
            code(8),
            text(8, "broken"),
        ],
    );
    assert_eq!(message(names), "cannot get collection names: broken");
}

#[test]
fn name_of_a_collection() {
    let db = Database { handle: 3 };
    let coll = Collection { coll: 6, db: &db };
    assert_eq!(run(coll.name(), vec![name(6, "naïve")]), "naïve");
    assert_eq!(run(coll.name(), vec![name(6, "")]), "");
}

#[test]
fn finds_a_collection() {
    let db = Database { handle: 3 };
    let found = run(
        db.get_collection(b"things".to_vec()),
        vec![(
            Request::FindCollection { db: 3, name: b"things\0".to_vec() },
            Reply::Object(6),
        )],
    );
    let coll = found.unwrap().unwrap();
    assert_eq!((coll.coll, coll.db.handle), (6, 3));
}

#[test]
fn finds_no_collection() {
    let db = Database { handle: 3 };
    let found = run(
        db.get_collection(b"things".to_vec()),
        vec![
            (Request::FindCollection { db: 3, name: b"things\0".to_vec() }, Reply::Object(0)),
            code(0),
        ],
    );
    assert!(found.unwrap().is_none());
}

#[test]
fn cannot_look_for_a_collection() {
    let db = Database { handle: 3 };
    let found = run(
        db.get_collection(b"things".to_vec()),
        vec![
            (Request::FindCollection { db: 3, name: b"things\0".to_vec() }, Reply::Object(0)),
            code(4),
            text(4, "metadata broken"),
        ],
    );
    assert_eq!(message(found), "metadata broken");
}

#[test]
fn names_with_a_zero_byte_ask_nothing() {
    let db = Database { handle: 3 };
    let bad = || b"thi\0ngs".to_vec();
    assert_eq!(message(run(db.get_collection(bad()), vec![])), "invalid collection name");
    assert_eq!(
        message(run(db.get_or_create_collection(bad(), CollectionOptions::default()), vec![])),
        "invalid collection name"
    );
    assert_eq!(message(run(db.drop_collection(bad(), true), vec![])), "invalid collection name");
}

#[test]
fn makes_a_collection() {
    let db = Database { handle: 3 };
    let options = CollectionOptions::default().large(true).records(9).cached_records(-2);
    let made = run(
        db.get_or_create_collection(b"things".to_vec(), options),
        vec![(
            Request::CreateCollection {
                db: 3,
                name: b"things\0".to_vec(),
                options: EngineOptions {
                    large: 1,
                    compressed: 0,
                    records: 9,
                    cached_records: -2,
                },
            },
            Reply::Object(6),
        )],
    );
    let coll = made.unwrap();
    assert_eq!((coll.coll, coll.db.handle), (6, 3));
}

#[test]
fn cannot_make_a_collection() {
    let db = Database { handle: 3 };
    let made = run(
        db.get_or_create_collection(Vec::new(), CollectionOptions::default().compressed(true)),
        vec![
            (
                Request::CreateCollection {
                    db: 3,
                    name: vec![0],
                    options: EngineOptions {
                        large: 0,
                        compressed: 1,
                        records: 128_000,
                        cached_records: 0,
                    },
                },
                Reply::Object(0),
            ),
            code(0),
        ],
    );
    assert_eq!(message(made), "cannot create or open a collection: unknown error");
}

#[test]
fn removes_a_collection() {
    let db = Database { handle: 3 };
    for (prune, flag) in [(true, 1), (false, 0)] {
        let removed = run(
            db.drop_collection(b"things".to_vec(), prune),
            vec![(
                Request::RemoveCollection { db: 3, name: b"things\0".to_vec(), prune: flag },
                Reply::Status(1),
            )],
        );
        assert!(removed.is_ok());
    }
}

#[test]
fn cannot_remove_a_collection() {
    let db = Database { handle: 3 };
    let removed = run(
        db.drop_collection(b"things".to_vec(), false),
        vec![
            (
                Request::RemoveCollection { db: 3, name: b"things\0".to_vec(), prune: 0 },
                Reply::Status(0),
            ),
            code(1),
            text(1, "read only"),
        ],
    );
    assert_eq!(message(removed), "cannot remove a collection: read only");
}

#[test]
fn options_by_default() {
    assert_eq!(
        CollectionOptions::default(),
        CollectionOptions { large: false, compressed: false, records: 128_000, cached_records: 0 }
    );
}

#[test]
fn options_set_one_by_one() {
    let options = CollectionOptions::default();
    assert_eq!(options.large(true), CollectionOptions { large: true, ..options });
    assert_eq!(options.compressed(true), CollectionOptions { compressed: true, ..options });
    assert_eq!(options.records(-1), CollectionOptions { records: -1, ..options });
    assert_eq!(options.cached_records(7), CollectionOptions { cached_records: 7, ..options });
    assert_eq!(options.large(true).large(false), options);
}

#[test]
fn options_for_the_engine() {
    let options = CollectionOptions {
        large: true,
        compressed: true,
        records: i64::MIN,
        cached_records: i32::MAX,
    };
    assert_eq!(
        options.to_engine(),
        EngineOptions { large: 1, compressed: 1, records: i64::MIN, cached_records: i32::MAX }
    );
}
