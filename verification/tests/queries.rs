use bson::{Bson, DecoderError, Document, EncoderError};
use ejdb::collection::Collection;
use ejdb::database::Database;
use ejdb::error::Error;
use ejdb::execution::{Execution, JBQRYCOUNT, JBQRYFINDONE};
use ejdb::native::{is_answer, NativeReply, NativeRequest, ObjectId, Reply, Request};
use ejdb::open_mode::OpenMode;
use ejdb::operation::{proceed, Operation, Step};
use ejdb::options::CollectionOptions;
use ejdb::query::Query;
use ejdb::results::QueryResult;

fn run<P: Operation>(
    step: Step<P, P::Output>,
    script: Vec<(NativeRequest, NativeReply)>,
) -> P::Output {
    let mut script = script.into_iter();
    let output = drive(step, |request| {
        let (expected, reply) = script.next().expect("asked more than was expected");
        assert_eq!(*request, expected);
        reply
    });
    assert!(script.next().is_none(), "asked less than was expected");
    output
}

fn drive<P: Operation>(
    step: Step<P, P::Output>,
    mut engine: impl FnMut(&NativeRequest) -> NativeReply,
) -> P::Output {
    let mut step = step;
    loop {
        match step {
            Step::Ask(request, pending) => {
                let reply = engine(&request);
                step = proceed(&request, pending, reply).expect("no answer to the request");
            }
            Step::Done(output) => return output,
        }
    }
}

fn message<T>(result: Result<T, Error>) -> String {
    match result {
        Err(Error::Other(message)) => message,
        Err(_) => panic!("another error"),
        Ok(_) => panic!("no error"),
    }
}

fn why(text: &str) -> Vec<(NativeRequest, NativeReply)> {
    vec![
        (Request::ErrorCode { db: 3 }, Reply::Number(11)),
        (Request::ErrorMessage { code: 11 }, Reply::Text(text.as_bytes().to_vec())),
    ]
}

fn one(value: i32) -> Document {
    let mut document = Document::new();
    document.insert("a", value);
    document
}

fn one_bytes(value: u8) -> Vec<u8> {
    vec![12, 0, 0, 0, 0x10, b'a', 0, value, 0, 0, 0, 0]
}

/// Criteria `{ a: 1 }` without hints.
fn plain() -> Query {
    Query::new(one(1), Document::new()).unwrap()
}

/// Criteria `{ a: 1 }` with the hints `{ a: 2 }`.
fn hinted() -> Query {
    Query::new(one(1), one(2)).unwrap()
}

fn create(query: usize) -> (NativeRequest, NativeReply) {
    (Request::CreateQuery { db: 3, criteria: one_bytes(1) }, Reply::Object(query))
}

fn hint(hinted: usize) -> (NativeRequest, NativeReply) {
    (Request::AddHints { db: 3, query: 70, hints: one_bytes(2) }, Reply::Object(hinted))
}

fn execute(query: usize, flags: i32, log: usize, reply: NativeReply) -> (NativeRequest, NativeReply) {
    (Request::ExecuteQuery { coll: 6, query, flags, log }, reply)
}

fn executed(result: usize, count: u32) -> NativeReply {
    Reply::Executed { result, count }
}

fn free(query: usize) -> (NativeRequest, NativeReply) {
    (Request::DeleteQuery { query }, Reply::Made)
}

fn new_log(log: usize) -> (NativeRequest, NativeReply) {
    (Request::NewLog, Reply::Object(log))
}

fn free_log(log: usize) -> (NativeRequest, NativeReply) {
    (Request::DeleteLog { log }, Reply::Made)
}

fn item(index: i32, bytes: Option<Vec<u8>>) -> (NativeRequest, NativeReply) {
    (Request::ResultItem { result: 80, index }, Reply::Bytes(bytes))
}

fn dispose() -> (NativeRequest, NativeReply) {
    (Request::DisposeResult { result: 80 }, Reply::Made)
}

#[test]
fn counts_and_updates() {
    let db = Database { handle: 3 };
    let coll = Collection { coll: 6, db: &db };
    let query = plain();
    let script = || vec![create(70), execute(70, 1, 0, executed(0, 42)), free(70)];
    assert_eq!(run(coll.query(&query).count(), script()).unwrap(), 42);
    assert_eq!(run(coll.query(&query).update(), script()).unwrap(), 42);
}

#[test]
fn counts_with_results() {
    let db = Database { handle: 3 };
    let coll = Collection { coll: 6, db: &db };
    let query = plain();
    let count = run(
        coll.query(&query).count(),
        vec![create(70), execute(70, 1, 0, executed(80, 42)), free(70)],
    );
    assert_eq!(count.unwrap(), 42);
}

#[test]
fn gives_a_query_its_hints() {
    let db = Database { handle: 3 };
    let coll = Collection { coll: 6, db: &db };
    let query = hinted();
    let found = run(
        coll.query(&query).find(),
        vec![create(70), hint(71), execute(71, 0, 0, executed(80, 2)), free(71)],
    );
    assert_eq!(found.unwrap(), QueryResult { result: 80, current: 0, total: 2 });
}

#[test]
fn keeps_a_log() {
    let db = Database { handle: 3 };
    let coll = Collection { coll: 6, db: &db };
    let query = hinted();
    let found = run(
        coll.query(&query).log_output().find(),
        vec![
            create(70),
            hint(71),
            new_log(90),
            execute(71, 0, 90, executed(80, 2)),
            free_log(90),
            free(71),
        ],
    );
    assert_eq!(found.unwrap().count(), 2);
}

#[test]
fn cannot_create_a_query() {
    let db = Database { handle: 3 };
    let coll = Collection { coll: 6, db: &db };
    let query = hinted();
    let mut script = vec![create(0)];
    script.extend(why("bad criteria"));
    assert_eq!(
        message(run(coll.query(&query).log_output().find(), script)),
        "error creating query object: bad criteria"
    );
}

#[test]
fn cannot_set_hints() {
    let db = Database { handle: 3 };
    let coll = Collection { coll: 6, db: &db };
    let query = hinted();
    let mut script = vec![create(70), hint(0)];
    script.extend(why("bad hints"));
    script.push(free(70));
    assert_eq!(
        message(run(coll.query(&query).log_output().count(), script)),
        "error setting query hints: bad hints"
    );
}

#[test]
fn cannot_execute_a_query() {
    let db = Database { handle: 3 };
    let coll = Collection { coll: 6, db: &db };
    let query = plain();
    let mut script = vec![create(70), new_log(90), execute(70, 0, 90, executed(0, 0))];
    script.extend(why("broken"));
    script.extend(vec![free_log(90), free(70)]);
    assert_eq!(
        message(run(coll.query(&query).log_output().find(), script)),
        "error executing query: broken"
    );
}

#[test]
fn cannot_execute_for_one_document() {
    let db = Database { handle: 3 };
    let coll = Collection { coll: 6, db: &db };
    let query = plain();
    let script = vec![
        create(70),
        execute(70, 2, 0, executed(0, 0)),
        (Request::ErrorCode { db: 3 }, Reply::Number(0)),
        free(70),
    ];
    assert_eq!(
        message(run(coll.query(&query).find_one(), script)),
        "error executing query: unknown error"
    );
}

#[test]
fn criteria_that_were_not_encoded() {
    let run_it = Execution { db: 3, coll: 6, flags: JBQRYFINDONE, log: true };
    match run(run_it.start(Err(EncoderError::EmptyState), None), vec![]) {
        Err(Error::BsonEncoding(EncoderError::EmptyState)) => {}
        _ => panic!("another result"),
    }
}

#[test]
fn hints_that_were_not_encoded() {
    let run_it = Execution { db: 3, coll: 6, flags: JBQRYCOUNT, log: true };
    let step = run_it.start(Ok(one_bytes(1)), Some(Err(EncoderError::EmptyState)));
    match run(step, vec![create(70), free(70)]) {
        Err(Error::BsonEncoding(EncoderError::EmptyState)) => {}
        _ => panic!("another result"),
    }
}

#[test]
fn executes_what_was_encoded() {
    let run_it = Execution { db: 3, coll: 6, flags: 0, log: false };
    let step = run_it.start(Ok(one_bytes(1)), Some(Ok(one_bytes(2))));
    let script = vec![create(70), hint(72), execute(72, 0, 0, executed(80, 5)), free(72)];
    assert_eq!(run(step, script).unwrap(), (80, 5));
}

#[test]
fn hints_go_by_their_values() {
    let db = Database { handle: 3 };
    let coll = Collection { coll: 6, db: &db };
    let mut unlisted = one(2);
    unlisted.keys.clear();
    let query = Query::new(one(1), unlisted).unwrap();
    let script = vec![
        create(70),
        (
            Request::AddHints { db: 3, query: 70, hints: vec![5, 0, 0, 0, 0] },
            Reply::Object(70),
        ),
        execute(70, 1, 0, executed(0, 3)),
        free(70),
    ];
    assert_eq!(run(coll.query(&query).count(), script).unwrap(), 3);

    let mut listed = Document::new();
    listed.keys.push("a".to_owned());
    let query = Query::new(one(1), listed).unwrap();
    let script = vec![create(70), execute(70, 1, 0, executed(0, 3)), free(70)];
    assert_eq!(run(coll.query(&query).count(), script).unwrap(), 3);
}

#[test]
fn documents_that_make_no_query() {
    let mut broken = one(1);
    broken.keys.push("b".to_owned());
    assert!(Query::new(broken.clone(), Document::new()).is_none());
    assert!(Query::new(one(1), broken).is_none());
    let query = hinted();
    let (hints, criteria) = query.build_ref();
    assert_eq!((hints, criteria), (&one(2), &one(1)));
}

#[test]
fn finds_one_document() {
    let db = Database { handle: 3 };
    let coll = Collection { coll: 6, db: &db };
    let query = plain();
    let found = run(
        coll.query(&query).find_one(),
        vec![
            create(70),
            execute(70, 2, 0, executed(80, 1)),
            free(70),
            item(0, Some(one_bytes(4))),
            dispose(),
        ],
    );
    assert_eq!(found.unwrap(), Some(one(4)));
}

#[test]
fn finds_not_one_document() {
    let db = Database { handle: 3 };
    let coll = Collection { coll: 6, db: &db };
    let query = plain();
    let found = run(
        coll.query(&query).find_one(),
        vec![
            create(70),
            execute(70, 2, 0, executed(80, 0)),
            free(70),
            item(0, None),
            dispose(),
        ],
    );
    assert_eq!(found.unwrap(), None);
}

#[test]
fn cannot_read_the_one_document() {
    let db = Database { handle: 3 };
    let coll = Collection { coll: 6, db: &db };
    let query = plain();
    let found = run(
        coll.query(&query).find_one(),
        vec![
            create(70),
            execute(70, 2, 0, executed(80, 1)),
            free(70),
            item(0, Some(vec![0, 0, 0, 0, 0x06, b'k', 0])),
            dispose(),
        ],
    );
    match found {
        Err(Error::BsonDecoding(DecoderError::UnrecognizedElementType(6))) => {}
        _ => panic!("another result"),
    }
}

#[test]
fn reads_results_one_after_the_other() {
    let results = QueryResult { result: 80, current: 0, total: 2 };
    assert_eq!(results.count(), 2);
    let (results, first) = run(results.next(), vec![item(0, Some(one_bytes(4)))]);
    assert_eq!(first.unwrap().unwrap(), one(4));
    let (results, second) = run(results.next(), vec![item(1, Some(vec![1]))]);
    match second {
        Some(Err(Error::BsonDecoding(_))) => {}
        _ => panic!("another result"),
    }
    let (results, third) = run(results.next(), vec![item(2, None)]);
    assert!(third.is_none());
    let (results, fourth) = run(results.next(), vec![item(2, None)]);
    assert!(fourth.is_none());
    assert_eq!(results, QueryResult { result: 80, current: 2, total: 2 });
    assert_eq!(results.dispose(), Request::DisposeResult { result: 80 });
}

#[test]
fn no_item_at_the_last_index() {
    let last = || Request::ResultItem { result: 80, index: i32::MAX };
    assert!(!is_answer(&last(), &Reply::Bytes(Some(one_bytes(1)))));
    assert!(is_answer(&last(), &Reply::Bytes(None)));
}

#[test]
fn answers_to_each_request() {
    let coll = 6;
    let answered: Vec<(NativeRequest, NativeReply)> = vec![
        (Request::NewDatabase, Reply::Object(0)),
        (Request::DeleteDatabase { db: 3 }, Reply::Made),
        (Request::OpenDatabase { db: 3, path: vec![0], mode: 0 }, Reply::Status(0)),
        (Request::ErrorCode { db: 3 }, Reply::Number(0)),
        (Request::ErrorMessage { code: 0 }, Reply::Text(vec![])),
        (Request::ListCollections { db: 3 }, Reply::Object(0)),
        (Request::ListLength { list: 1 }, Reply::Number(0)),
        (Request::ListItem { list: 1, index: 0 }, Reply::Object(0)),
        (Request::DeleteList { list: 1 }, Reply::Made),
        (Request::CollectionName { coll }, Reply::Text(vec![])),
        (Request::FindCollection { db: 3, name: vec![0] }, Reply::Object(0)),
        (
            Request::CreateCollection {
                db: 3,
                name: vec![0],
                options: CollectionOptions::default().to_engine(),
            },
            Reply::Object(0),
        ),
        (Request::RemoveCollection { db: 3, name: vec![0], prune: 0 }, Reply::Status(0)),
        (Request::BeginTransaction { coll }, Reply::Status(0)),
        (Request::CommitTransaction { coll }, Reply::Status(0)),
        (Request::AbortTransaction { coll }, Reply::Status(0)),
        (Request::TransactionStatus { coll }, Reply::Transaction { status: 0, active: 0 }),
        (
            Request::SaveDocument { coll, document: vec![] },
            Reply::Saved { status: 0, id: ObjectId { bytes: [0; 12] } },
        ),
        (
            Request::LoadDocument { coll, id: ObjectId { bytes: [0; 12] } },
            Reply::Bytes(Some(vec![])),
        ),
        (Request::NextDocument, Reply::Next(Some(one(1)))),
        (Request::CreateQuery { db: 3, criteria: vec![] }, Reply::Object(0)),
        (Request::AddHints { db: 3, query: 70, hints: vec![] }, Reply::Object(0)),
        (Request::DeleteQuery { query: 70 }, Reply::Made),
        (Request::NewLog, Reply::Object(0)),
        (Request::DeleteLog { log: 90 }, Reply::Made),
        (Request::ExecuteQuery { coll, query: 70, flags: 0, log: 0 }, executed(0, 0)),
        (Request::ResultItem { result: 80, index: 0 }, Reply::Bytes(Some(vec![]))),
        (Request::DisposeResult { result: 80 }, Reply::Made),
    ];
    for (i, (request, reply)) in answered.iter().enumerate() {
        assert!(is_answer(request, reply), "no answer: {}", i);
        for (other, _) in answered.iter() {
            let same = answered.iter().any(|(asked, given)| {
                asked == other
                    && std::mem::discriminant(given) == std::mem::discriminant(reply)
            });
            assert_eq!(is_answer(other, reply), same);
        }
    }
}

/// An engine that keeps the documents of one collection in memory.
struct Memory {
    documents: Vec<Document>,
    found: Vec<Document>,
}

impl Memory {
    fn read(bytes: &[u8]) -> Document {
        let mut rest = bytes;
        bson::decode_document(&mut rest).unwrap()
    }

    fn write(document: &Document) -> Vec<u8> {
        let mut bytes = Vec::new();
        bson::encode_document(&mut bytes, document).unwrap();
        bytes
    }

    fn answer(&mut self, request: &NativeRequest) -> NativeReply {
        match request {
            Request::NewDatabase => Reply::Object(3),
            Request::OpenDatabase { path, mode, .. } => {
                assert_eq!(path, b"/tmp/test_database\0");
                assert_eq!(*mode, 7);
                Reply::Status(1)
            }
            Request::CreateCollection { name, options, .. } => {
                assert_eq!(name, b"example_collection\0");
                assert_eq!(options.records, 128_000);
                Reply::Object(6)
            }
            Request::SaveDocument { document, .. } => {
                self.documents.push(Memory::read(document));
                let id = ObjectId { bytes: [self.documents.len() as u8; 12] };
                Reply::Saved { status: 1, id }
            }
            Request::CreateQuery { criteria, .. } => {
                let least = match Memory::read(criteria).get_document("age") {
                    Ok(age) => f64::from(age.get_i32("$gte").unwrap()),
                    Err(_) => panic!("other criteria"),
                };
                self.found = self
                    .documents
                    .iter()
                    .filter(|document| document.get_f64("age").unwrap() >= least)
                    .cloned()
                    .collect();
                Reply::Object(70)
            }
            Request::ExecuteQuery { flags, .. } => match *flags {
                1 => Reply::Executed { result: 0, count: self.found.len() as u32 },
                2 => {
                    self.found.truncate(1);
                    Reply::Executed { result: 80, count: self.found.len() as u32 }
                }
                _ => Reply::Executed { result: 80, count: self.found.len() as u32 },
            },
            Request::ResultItem { index, .. } => {
                Reply::Bytes(self.found.get(*index as usize).map(Memory::write))
            }
            Request::DeleteQuery { .. } | Request::DisposeResult { .. } => Reply::Made,
            _ => panic!("another request"),
        }
    }
}

#[test]
fn test_save() {
    let mut engine = Memory { documents: Vec::new(), found: Vec::new() };
    let db = drive(
        Database::open(b"/tmp/test_database".to_vec(), OpenMode::default()),
        |request| engine.answer(request),
    )
    .unwrap();
    let coll = drive(
        db.get_or_create_collection(
            b"example_collection".to_vec(),
            CollectionOptions::default(),
        ),
        |request| engine.answer(request),
    )
    .unwrap();

    let mut doc = Document::new();
    doc.insert("name".to_owned(), Bson::String("Me".into()));
    doc.insert("age".to_owned(), Bson::FloatingPoint(23.8));
    drive(coll.save(&doc), |request| engine.answer(request)).unwrap();
    assert_eq!(engine.documents, vec![doc]);
}

#[test]
fn test_find() {
    let mut engine = Memory { documents: Vec::new(), found: Vec::new() };
    let db = drive(
        Database::open(b"/tmp/test_database".to_vec(), OpenMode::default()),
        |request| engine.answer(request),
    )
    .unwrap();
    let coll = drive(
        db.get_or_create_collection(
            b"example_collection".to_vec(),
            CollectionOptions::default(),
        ),
        |request| engine.answer(request),
    )
    .unwrap();

    let mut items = (0..10).map(|i| {
        let mut doc = Document::new();
        doc.insert("name", format!("Me #{}", i));
        doc.insert("age", 23.8 + i as f64);
        doc
    });
    let ids = drive(coll.save_all(), |request| match request {
        Request::NextDocument => Reply::Next(items.next()),
        request => engine.answer(request),
    })
    .unwrap();
    assert_eq!(ids.len(), 10);

    let mut least = Document::new();
    least.insert("$gte", 25);
    let mut criteria = Document::new();
    criteria.insert("age", least);
    let q = Query::new(criteria, Document::new()).unwrap();

    let mut found = drive(coll.query(&q).find(), |request| engine.answer(request)).unwrap();
    assert_eq!(found.count(), 8);
    let mut ages = Vec::new();
    loop {
        let (rest, item) = drive(found.next(), |request| engine.answer(request));
        found = rest;
        match item {
            Some(item) => ages.push(item.unwrap().get_f64("age").unwrap()),
            None => break,
        }
    }
    assert_eq!(ages, (2..10).map(|i| 23.8 + i as f64).collect::<Vec<f64>>());

    let count = drive(coll.query(&q).count(), |request| engine.answer(request)).unwrap();
    println!("Count: {}", count);
    assert_eq!(count, 8);

    let one = drive(coll.query(&q).find_one(), |request| engine.answer(request)).unwrap();
    println!("One: {}", one.as_ref().unwrap());
    assert_eq!(one.unwrap().get_str("name"), Ok("Me #2"));
}
