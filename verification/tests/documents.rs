use bson::{Bson, DecoderError, Document, EncoderError};
use ejdb::collection::Collection;
use ejdb::database::Database;
use ejdb::document::read;
use ejdb::error::Error;
use ejdb::limits::encodable;
use ejdb::native::{NativeReply, NativeRequest, ObjectId, Reply, Request};
use ejdb::operation::{proceed, Operation, Step};
use ejdb::wire::{decodable, FIRST_DATE, LAST_DATE};

fn run<P: Operation>(
    step: Step<P, P::Output>,
    script: Vec<(NativeRequest, NativeReply)>,
) -> P::Output {
    let mut step = step;
    let mut script = script.into_iter();
    loop {
        match step {
            Step::Ask(request, pending) => {
                let (expected, reply) = script.next().expect("asked more than was expected");
                assert_eq!(request, expected);
                step = proceed(&request, pending, reply).expect("no answer to the request");
            }
            Step::Done(output) => {
                assert!(script.next().is_none(), "asked less than was expected");
                return output;
            }
        }
    }
}

fn message<T>(result: Result<T, Error>) -> String {
    match result {
        Err(Error::Other(message)) => message,
        Err(_) => panic!("another error"),
        Ok(_) => panic!("no error"),
    }
}

fn why(text: &str) -> Vec<(NativeRequest, NativeReply)> {
    vec![
        (Request::ErrorCode { db: 3 }, Reply::Number(11)),
        (Request::ErrorMessage { code: 11 }, Reply::Text(text.as_bytes().to_vec())),
    ]
}

/// A document with the key `a`, and its binary form.
fn one(value: i32) -> Document {
    let mut document = Document::new();
    document.insert("a", value);
    document
}

fn one_bytes(value: u8) -> Vec<u8> {
    vec![12, 0, 0, 0, 0x10, b'a', 0, value, 0, 0, 0, 0]
}

fn id(last: u8) -> ObjectId {
    ObjectId { bytes: [1, 2, 3, 4, 5, 6, 7, 8, 9, 10, 11, last] }
}

fn save_call(value: u8) -> NativeRequest {
    Request::SaveDocument { coll: 6, document: one_bytes(value) }
}

/// A document with one value, given by its tag and bytes.
fn wired(tag: u8, value: &[u8]) -> Vec<u8> {
    let mut bytes = vec![0, 0, 0, 0, tag, b'k', 0];
    bytes.extend_from_slice(value);
    bytes.push(0);
    bytes
}

#[test]
fn saves_a_document() {
    let db = Database { handle: 3 };
    let coll = Collection { coll: 6, db: &db };
    let saved = run(
        coll.save(&one(5)),
        vec![(save_call(5), Reply::Saved { status: 1, id: id(12) })],
    );
    assert_eq!(saved.unwrap(), id(12));
}

#[test]
fn saves_the_entries_in_order() {
    let db = Database { handle: 3 };
    let coll = Collection { coll: 6, db: &db };
    let mut document = Document::new();
    document.insert("\u{e9}", "ab");
    document.insert("", true);
    document.insert("in", one(2));
    let mut bytes = vec![35, 0, 0, 0];
    bytes.extend_from_slice(&[0x02, 0xc3, 0xa9, 0, 3, 0, 0, 0, b'a', b'b', 0]);
    bytes.extend_from_slice(&[0x08, 0, 1]);
    bytes.extend_from_slice(&[0x03, b'i', b'n', 0]);
    bytes.extend_from_slice(&one_bytes(2));
    bytes.push(0);
    let saved = run(
        coll.save(&document),
        vec![(Request::SaveDocument { coll: 6, document: bytes }, Reply::Saved {
            status: 1,
            id: id(12),
        })],
    );
    assert_eq!(saved.unwrap(), id(12));
}

#[test]
fn stores_a_loaded_document_again() {
    let db = Database { handle: 3 };
    let coll = Collection { coll: 6, db: &db };
    let mut stored = vec![0, 0, 0, 0];
    stored.extend_from_slice(&[0x10, b'a', 0, 1, 0, 0, 0]);
    stored.extend_from_slice(&[0x10, b'a', 0, 2, 0, 0, 0]);
    stored.push(0);
    let loaded = run(
        coll.load(id(1)),
        vec![(Request::LoadDocument { coll: 6, id: id(1) }, Reply::Bytes(Some(stored)))],
    );
    let document = loaded.unwrap().unwrap();
    assert_eq!(document.keys, vec!["a"]);
    assert!(encodable(&document));
    let saved = run(
        coll.try_save(&document).unwrap(),
        vec![(save_call(2), Reply::Saved { status: 1, id: id(1) })],
    );
    assert_eq!(saved.unwrap(), id(1));
}

#[test]
fn saves_three_empty_documents_in_part() {
    let db = Database { handle: 3 };
    let coll = Collection { coll: 6, db: &db };
    let call = || Request::SaveDocument { coll: 6, document: vec![5, 0, 0, 0, 0] };
    let mut script = vec![
        (Request::NextDocument, Reply::Next(Some(Document::new()))),
        (call(), Reply::Saved { status: 1, id: id(1) }),
        (Request::NextDocument, Reply::Next(Some(Document::new()))),
        (call(), Reply::Saved { status: 1, id: id(2) }),
        (Request::NextDocument, Reply::Next(Some(Document::new()))),
        (call(), Reply::Saved { status: 0, id: id(3) }),
    ];
    script.extend(why("no room"));
    match run(coll.save_all(), script) {
        Err(Error::PartialSave(partial)) => {
            assert_eq!(partial.successful_ids, vec![id(1), id(2)])
        }
        _ => panic!("another result"),
    }
}

#[test]
fn saves_an_empty_document() {
    let db = Database { handle: 3 };
    let coll = Collection { coll: 6, db: &db };
    let saved = run(
        coll.try_save(&Document::new()).unwrap(),
        vec![(
            Request::SaveDocument { coll: 6, document: vec![5, 0, 0, 0, 0] },
            Reply::Saved { status: 1, id: id(0) },
        )],
    );
    assert_eq!(saved.unwrap(), id(0));
}

#[test]
fn cannot_save_a_document() {
    let db = Database { handle: 3 };
    let coll = Collection { coll: 6, db: &db };
    let mut script = vec![(save_call(5), Reply::Saved { status: 0, id: id(12) })];
    script.extend(why("no room"));
    assert_eq!(message(run(coll.save(&one(5)), script)), "error saving BSON document: no room");
}

#[test]
fn cannot_save_what_was_not_encoded() {
    let db = Database { handle: 3 };
    let coll = Collection { coll: 6, db: &db };
    match run(coll.save_encoded(Err(EncoderError::EmptyState)), vec![]) {
        Err(Error::BsonEncoding(EncoderError::EmptyState)) => {}
        _ => panic!("another result"),
    }
}

#[test]
fn saves_what_was_encoded() {
    let db = Database { handle: 3 };
    let coll = Collection { coll: 6, db: &db };
    let saved = run(
        coll.save_encoded(Ok(one_bytes(9))),
        vec![(save_call(9), Reply::Saved { status: 1, id: id(1) })],
    );
    assert_eq!(saved.unwrap(), id(1));
}

#[test]
fn loads_a_document() {
    let db = Database { handle: 3 };
    let coll = Collection { coll: 6, db: &db };
    let loaded = run(
        coll.load(id(1)),
        vec![(Request::LoadDocument { coll: 6, id: id(1) }, Reply::Bytes(Some(one_bytes(7))))],
    );
    assert_eq!(loaded.unwrap(), Some(one(7)));
}

#[test]
fn loads_no_document() {
    let db = Database { handle: 3 };
    let coll = Collection { coll: 6, db: &db };
    let loaded = run(
        coll.load(id(1)),
        vec![
            (Request::LoadDocument { coll: 6, id: id(1) }, Reply::Bytes(None)),
            (Request::ErrorCode { db: 3 }, Reply::Number(0)),
        ],
    );
    assert_eq!(loaded.unwrap(), None);
}

#[test]
fn cannot_load_a_document() {
    let db = Database { handle: 3 };
    let coll = Collection { coll: 6, db: &db };
    let mut script =
        vec![(Request::LoadDocument { coll: 6, id: id(1) }, Reply::Bytes(None))];
    script.extend(why("first"));
    script.extend(why("second"));
    assert_eq!(message(run(coll.load(id(1)), script)), "error loading BSON document: second");
}

#[test]
fn cannot_explain_why_a_document_is_not_loaded() {
    let db = Database { handle: 3 };
    let coll = Collection { coll: 6, db: &db };
    let mut script =
        vec![(Request::LoadDocument { coll: 6, id: id(1) }, Reply::Bytes(None))];
    script.extend(why("first"));
    script.push((Request::ErrorCode { db: 3 }, Reply::Number(0)));
    assert_eq!(
        message(run(coll.load(id(1)), script)),
        "error loading BSON document: unknown error"
    );
}

#[test]
fn cannot_read_a_loaded_document() {
    let db = Database { handle: 3 };
    let coll = Collection { coll: 6, db: &db };
    let loaded = run(
        coll.load(id(1)),
        vec![(
            Request::LoadDocument { coll: 6, id: id(1) },
            Reply::Bytes(Some(wired(0x06, &[]))),
        )],
    );
    match loaded {
        Err(Error::BsonDecoding(DecoderError::UnrecognizedElementType(6))) => {}
        _ => panic!("another result"),
    }
}

#[test]
fn reading_what_was_decoded() {
    assert_eq!(read(Ok(one(4))).unwrap(), one(4));
    match read(Err(DecoderError::SyntaxError)) {
        Err(Error::BsonDecoding(DecoderError::SyntaxError)) => {}
        _ => panic!("another result"),
    }
}

#[test]
fn saves_all_in_order() {
    let db = Database { handle: 3 };
    let coll = Collection { coll: 6, db: &db };
    let saved = run(
        coll.save_all(),
        vec![
            (Request::NextDocument, Reply::Next(Some(one(1)))),
            (save_call(1), Reply::Saved { status: 1, id: id(30) }),
            (Request::NextDocument, Reply::Next(Some(one(2)))),
            (save_call(2), Reply::Saved { status: 1, id: id(20) }),
            (Request::NextDocument, Reply::Next(None)),
        ],
    );
    assert_eq!(saved.unwrap(), vec![id(30), id(20)]);
}

#[test]
fn saves_all_of_nothing() {
    let db = Database { handle: 3 };
    let coll = Collection { coll: 6, db: &db };
    let saved = run(coll.save_all(), vec![(Request::NextDocument, Reply::Next(None))]);
    assert_eq!(saved.unwrap(), vec![]);
}

#[test]
fn saves_some_before_one_is_refused() {
    let db = Database { handle: 3 };
    let coll = Collection { coll: 6, db: &db };
    let mut script = vec![
        (Request::NextDocument, Reply::Next(Some(one(1)))),
        (save_call(1), Reply::Saved { status: 1, id: id(30) }),
        (Request::NextDocument, Reply::Next(Some(one(2)))),
        (save_call(2), Reply::Saved { status: 0, id: id(20) }),
    ];
    script.extend(why("no room"));
    match run(coll.save_all(), script) {
        Err(Error::PartialSave(partial)) => {
            assert_eq!(partial.successful_ids, vec![id(30)]);
            assert_eq!(
                message::<()>(Err(*partial.cause)),
                "error saving BSON document: no room"
            );
        }
        _ => panic!("another result"),
    }
}

#[test]
fn saves_none_where_the_first_is_refused() {
    let db = Database { handle: 3 };
    let coll = Collection { coll: 6, db: &db };
    let mut script = vec![
        (Request::NextDocument, Reply::Next(Some(one(1)))),
        (save_call(1), Reply::Saved { status: 0, id: id(30) }),
    ];
    script.push((Request::ErrorCode { db: 3 }, Reply::Number(0)));
    match run(coll.save_all(), script) {
        Err(Error::PartialSave(partial)) => {
            assert!(partial.successful_ids.is_empty());
            assert_eq!(
                message::<()>(Err(*partial.cause)),
                "error saving BSON document: unknown error"
            );
        }
        _ => panic!("another result"),
    }
}

#[test]
fn encoder_takes_ordinary_documents() {
    let mut scope = Document::new();
    scope.insert("x", Bson::Null);
    let mut document = one(1);
    document.insert("text", "words");
    document.insert("list", vec![Bson::I32(1), Bson::String("b".to_owned())]);
    document.insert("inner", one(2));
    document.insert("code", Bson::JavaScriptCodeWithScope("f()".to_owned(), scope));
    assert!(encodable(&document));
    assert!(encodable(&Document::new()));
}

#[test]
fn encoder_does_not_take_a_key_without_a_value() {
    let db = Database { handle: 3 };
    let coll = Collection { coll: 6, db: &db };
    let mut broken = one(1);
    broken.keys.push("b".to_owned());
    assert!(!encodable(&broken));
    assert!(coll.try_save(&broken).is_none());

    let mut outer = Document::new();
    outer.insert("inner", broken.clone());
    assert!(!encodable(&outer));

    let mut listing = Document::new();
    listing.insert("list", vec![Bson::Null, Bson::Document(broken.clone())]);
    assert!(!encodable(&listing));

    let mut code = Document::new();
    code.insert("code", Bson::JavaScriptCodeWithScope("f()".to_owned(), broken.clone()));
    assert!(!encodable(&code));

    match coll.save_all() {
        Step::Ask(request, pending) => {
            assert!(proceed(&request, pending, Reply::Next(Some(broken))).is_none())
        }
        Step::Done(_) => panic!("done at once"),
    }
}

#[test]
fn encoder_takes_a_value_that_is_not_listed() {
    let mut hidden = one(1);
    hidden.keys.clear();
    assert!(encodable(&hidden));
    let mut bytes = Vec::new();
    bson::encode_document(&mut bytes, &hidden).unwrap();
    assert_eq!(bytes, vec![5, 0, 0, 0, 0]);
}

#[test]
fn decoder_takes_documents() {
    assert!(decodable(&one_bytes(3)));
    assert!(decodable(&[5, 0, 0, 0, 0]));
    assert!(decodable(&wired(0x01, &[0; 8])));
    assert!(decodable(&wired(0x02, &[2, 0, 0, 0, b'x', 0])));
    assert!(decodable(&wired(0x03, &one_bytes(1))));
    assert!(decodable(&wired(0x04, &[0, 0, 0, 0, 0x0a, b'0', 0, 0x0a, b'1', 0, 0])));
    assert!(decodable(&wired(0x05, &[1, 0, 0, 0, 0, 9])));
    assert!(decodable(&wired(0x07, &[7; 12])));
    assert!(decodable(&wired(0x08, &[1])));
    assert!(decodable(&wired(0x0b, b"a\0i\0")));
    assert!(decodable(&wired(0x0f, &[2, 0, 0, 0, b'x', 0, 5, 0, 0, 0, 0])));
    assert!(decodable(&wired(0x12, &[1; 8])));
}

#[test]
fn decoder_takes_what_it_answers_with_an_error() {
    for bytes in [
        vec![],
        vec![1, 2, 3],
        vec![5, 0, 0, 0],
        wired(0x06, &[]),
        wired(0x02, &[9, 0, 0, 0, b'x', 0]),
        wired(0x02, &[2, 0, 0, 0, 0xff, 0]),
        wired(0x04, &[0, 0, 0, 0, 0x0a, b'1', 0, 0]),
        wired(0x10, &[1]),
    ] {
        assert!(decodable(&bytes));
        assert!(bson::decode_document(&mut bytes.as_slice()).is_err());
    }
}

#[test]
fn decoder_reads_binary_data_that_is_cut_off() {
    let bytes = vec![0, 0, 0, 0, 0x05, b'k', 0, 9, 0, 0, 0, 0, 1, 2];
    assert!(decodable(&bytes));
    assert!(bson::decode_document(&mut bytes.as_slice()).is_err());
}

#[test]
fn decoder_does_not_take_texts_without_room_for_their_end() {
    assert!(!decodable(&wired(0x02, &[0, 0, 0, 0])));
    assert!(!decodable(&wired(0x02, &[0xff, 0xff, 0xff, 0xff])));
    assert!(!decodable(&wired(0x0d, &[0, 0, 0, 0x80])));
    assert!(!decodable(&wired(0x0f, &[0, 0, 0, 0])));
    assert!(!decodable(&wired(0x05, &[0xff, 0xff, 0xff, 0xff, 0])));
}

#[test]
fn decoder_takes_the_dates_of_the_calendar() {
    for date in [FIRST_DATE, -1000, 0, 1, 999, LAST_DATE] {
        let bytes = wired(0x09, &date.to_le_bytes());
        assert!(decodable(&bytes));
        assert!(bson::decode_document(&mut bytes.as_slice()).is_ok());
    }
    for date in [i64::MIN, FIRST_DATE - 1000, -1, -999, -1001, LAST_DATE + 1, i64::MAX] {
        assert!(!decodable(&wired(0x09, &date.to_le_bytes())));
    }
}

#[test]
fn undecodable_bytes_are_no_answer() {
    let db = Database { handle: 3 };
    let coll = Collection { coll: 6, db: &db };
    match coll.load(id(1)) {
        Step::Ask(request, pending) => {
            let bytes = wired(0x02, &[0, 0, 0, 0]);
            assert!(proceed(&request, pending, Reply::Bytes(Some(bytes))).is_none())
        }
        Step::Done(_) => panic!("done at once"),
    }
}
