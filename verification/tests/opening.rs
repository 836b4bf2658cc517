use ejdb::database::Database;
use ejdb::error::Error;
use ejdb::native::{NativeReply, NativeRequest, Reply, Request};
use ejdb::open_mode::{
    OpenMode, ALL_FLAGS, JBOCREAT, JBOLCKNB, JBONOLCK, JBOREADER, JBOTRUNC, JBOTSYNC, JBOWRITER,
};
use ejdb::operation::{proceed, Operation, Step};
use ejdb::text::{c_string, explain};

fn run<P: Operation>(
    step: Step<P, P::Output>,
    script: Vec<(NativeRequest, NativeReply)>,
) -> P::Output {
    let mut step = step;
    let mut script = script.into_iter();
    loop {
        match step {
            Step::Ask(request, pending) => {
                let (expected, reply) = script.next().expect("asked more than was expected");
                assert_eq!(request, expected);
                step = proceed(&request, pending, reply).expect("no answer to the request");
            }
            Step::Done(output) => {
                assert!(script.next().is_none(), "asked less than was expected");
                return output;
            }
        }
    }
}

fn message<T>(result: Result<T, Error>) -> String {
    match result {
        Err(Error::Other(message)) => message,
        Err(_) => panic!("another error"),
        Ok(_) => panic!("no error"),
    }
}

fn path() -> Vec<u8> {
    b"/tmp/db".to_vec()
}

fn open_call(db: usize, mode: i32) -> NativeRequest {
    Request::OpenDatabase { db, path: b"/tmp/db\0".to_vec(), mode }
}

#[test]
fn opens_with_the_default_mode() {
    let db = run(
        Database::open(path(), OpenMode::default()),
        vec![(Request::NewDatabase, Reply::Object(5)), (open_call(5, 7), Reply::Status(1))],
    );
    assert_eq!(db.unwrap().handle, 5);
}

#[test]
fn opens_with_all_flags() {
    let db = run(
        Database::open(path(), OpenMode::all()),
        vec![(Request::NewDatabase, Reply::Object(9)), (open_call(9, 127), Reply::Status(255))],
    );
    assert_eq!(db.unwrap().handle, 9);
}

#[test]
fn refuses_without_an_object() {
    let db = run(
        Database::open(path(), OpenMode::default()),
        vec![(Request::NewDatabase, Reply::Object(0))],
    );
    assert_eq!(message(db), "cannot create database");
}

#[test]
fn refuses_a_path_with_a_zero_byte() {
    let db = run(
        Database::open(b"/tmp\0/db".to_vec(), OpenMode::default()),
        vec![(Request::NewDatabase, Reply::Object(5))],
    );
    assert_eq!(message(db), "invalid path specified");
}

#[test]
fn reports_why_the_files_do_not_open() {
    let db = run(
        Database::open(path(), OpenMode::default()),
        vec![
            (Request::NewDatabase, Reply::Object(5)),
            (open_call(5, 7), Reply::Status(0)),
            (Request::ErrorCode { db: 5 }, Reply::Number(3)),
            (Request::ErrorMessage { code: 3 }, Reply::Text(b"file not found".to_vec())),
        ],
    );
    assert_eq!(message(db), "file not found");
}

#[test]
fn asks_for_the_message_of_code_zero_too_when_opening() {
    let db = run(
        Database::open(path(), OpenMode::default()),
        vec![
            (Request::NewDatabase, Reply::Object(5)),
            (open_call(5, 7), Reply::Status(0)),
            (Request::ErrorCode { db: 5 }, Reply::Number(0)),
            (Request::ErrorMessage { code: 0 }, Reply::Text(b"success".to_vec())),
        ],
    );
    assert_eq!(message(db), "success");
}

#[test]
fn opens_an_empty_path() {
    let db = run(
        Database::open(Vec::new(), OpenMode::empty()),
        vec![
            (Request::NewDatabase, Reply::Object(5)),
            (Request::OpenDatabase { db: 5, path: vec![0], mode: 0 }, Reply::Status(1)),
        ],
    );
    assert_eq!(db.unwrap().handle, 5);
}

#[test]
fn closes_the_object() {
    assert_eq!(Database { handle: 5 }.close(), Request::DeleteDatabase { db: 5 });
}

#[test]
fn last_error_message_in_utf8() {
    let db = Database { handle: 5 };
    let text = run(
        db.last_error_msg(),
        vec![
            (Request::ErrorCode { db: 5 }, Reply::Number(-7)),
            (Request::ErrorMessage { code: -7 }, Reply::Text("échec ☃".as_bytes().to_vec())),
        ],
    );
    assert_eq!(text, Some("échec ☃".to_owned()));
}

#[test]
fn no_last_error() {
    let db = Database { handle: 5 };
    let text = run(
        db.last_error_msg(),
        vec![(Request::ErrorCode { db: 5 }, Reply::Number(0))],
    );
    assert_eq!(text, None);
}

#[test]
fn last_error_with_its_context() {
    let db = Database { handle: 5 };
    let error = run(
        db.last_error("cannot do it"),
        vec![
            (Request::ErrorCode { db: 5 }, Reply::Number(2)),
            (Request::ErrorMessage { code: 2 }, Reply::Text(b"no room".to_vec())),
        ],
    );
    assert_eq!(message::<()>(Err(error)), "cannot do it: no room");
}

#[test]
fn last_error_that_is_unknown() {
    let db = Database { handle: 5 };
    let error = run(
        db.last_error("cannot do it"),
        vec![(Request::ErrorCode { db: 5 }, Reply::Number(0))],
    );
    assert_eq!(message::<()>(Err(error)), "cannot do it: unknown error");
}

#[test]
fn refuses_a_message_that_is_no_utf8() {
    let db = Database { handle: 5 };
    let step = match db.last_error_msg() {
        Step::Ask(request, pending) => proceed(&request, pending, Reply::Number(1)).unwrap(),
        Step::Done(_) => panic!("done at once"),
    };
    match step {
        Step::Ask(request, pending) => {
            assert!(proceed(&request, pending, Reply::Text(vec![0xff])).is_none())
        }
        Step::Done(_) => panic!("done without the message"),
    }
}

#[test]
fn refuses_a_reply_of_another_kind() {
    match Database::open(path(), OpenMode::default()) {
        Step::Ask(request, pending) => {
            assert!(proceed(&request, pending, Reply::Status(1)).is_none())
        }
        Step::Done(_) => panic!("done at once"),
    }
}

#[test]
fn values_of_the_flags() {
    assert_eq!(
        [JBOREADER, JBOWRITER, JBOCREAT, JBOTRUNC, JBONOLCK, JBOLCKNB, JBOTSYNC],
        [1, 2, 4, 8, 16, 32, 64]
    );
    assert_eq!(ALL_FLAGS, 127);
    assert_eq!(OpenMode::default().bits(), 7);
    assert_eq!(OpenMode::empty().bits(), 0);
    assert_eq!(OpenMode::all().bits(), 127);
}

#[test]
fn modes_from_bits() {
    assert_eq!(OpenMode::from_bits(9).unwrap().bits(), 9);
    assert_eq!(OpenMode::from_bits(128), None);
    assert_eq!(OpenMode::from_bits(129), None);
    assert_eq!(OpenMode::from_bits_truncate(129).bits(), 1);
    assert_eq!(OpenMode::from_bits_truncate(u32::MAX), OpenMode::all());
}

#[test]
fn modes_as_sets() {
    let reader = OpenMode::from_bits(JBOREADER).unwrap();
    let writer = OpenMode::from_bits(JBOWRITER).unwrap();
    let mut mode = OpenMode::default();
    assert!(mode.contains(reader));
    assert!(mode.intersects(writer));
    assert!(!reader.intersects(writer));
    assert!(!reader.contains(mode));
    mode.remove(writer);
    assert_eq!(mode.bits(), 5);
    mode.insert(OpenMode::from_bits(JBOTSYNC).unwrap());
    assert_eq!(mode.bits(), 69);
    mode.toggle(OpenMode::default());
    assert_eq!(mode.bits(), 66);
    assert!(!mode.is_empty() && !mode.is_all());
    assert!(OpenMode::empty().is_empty());
    assert!(OpenMode::all().is_all());
}

#[test]
fn modes_with_operators() {
    let reader = OpenMode::from_bits(JBOREADER).unwrap();
    let writer = OpenMode::from_bits(JBOWRITER).unwrap();
    let creat = OpenMode::from_bits(JBOCREAT).unwrap();
    assert_eq!(reader | writer | creat, OpenMode::default());
    assert_eq!((reader | writer).bits(), 3);
    assert_eq!((OpenMode::default() & (writer | creat)).bits(), 6);
    assert_eq!(((reader | writer) ^ (writer | creat)).bits(), 5);
    assert_eq!((OpenMode::default() - writer).bits(), 5);
    assert_eq!((OpenMode::all() - OpenMode::default()).bits(), 120);
}

#[test]
fn c_strings() {
    assert_eq!(c_string(vec![1, 0, 2]), None);
    assert_eq!(c_string(vec![0]), None);
    assert_eq!(c_string(vec![1, 2]), Some(vec![1, 2, 0]));
    assert_eq!(c_string(Vec::new()), Some(vec![0]));
}

#[test]
fn explanations() {
    assert_eq!(explain("a", &Some("b".to_owned())), "a: b");
    assert_eq!(explain("", &None), ": unknown error");
}
