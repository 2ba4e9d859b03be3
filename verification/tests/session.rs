use std::cell::RefCell;
use std::collections::HashMap;

use jwt_session::claims::Claims;
use jwt_session::error::Error;
use jwt_session::session::{read_reply, FromStoreValue, Session, ToStoreValue};
use jwt_session::store::{StoreCommand, StoreFault, StoreReply};

type Records = RefCell<HashMap<(String, String), Vec<u8>>>;

fn carry_out(records: &Records, command: StoreCommand) -> StoreReply {
    match command {
        StoreCommand::Write { key, field, value } => {
            records.borrow_mut().insert((key, field), value);
            StoreReply::Other
        }
        StoreCommand::Read { key, field } => match records.borrow().get(&(key, field)) {
            Some(bytes) => StoreReply::Data(bytes.clone()),
            None => StoreReply::Nil,
        },
    }
}

fn session_for(uid: &str, key: &str) -> Session {
    Session::new(key.to_string(), Claims { exp: 10, uid: uid.to_string(), data: None })
}

#[test]
fn session_holds_key_and_claims() {
    let session = session_for("42", "42_bodysign");
    assert_eq!(session.session_id(), "42_bodysign");
    let claims = session.get_claims();
    assert_eq!(claims.uid, "42");
    assert_eq!(claims.exp, 10);
    assert_eq!(claims.data, None);
}

#[test]
fn set_then_get_gives_the_value() {
    let records = Records::default();
    let backend = |command: StoreCommand| carry_out(&records, command);
    let session = session_for("42", "42_bodysign");
    assert_eq!(session.set(&backend, "color", "blue"), Ok(()));
    assert_eq!(session.get::<String, _>(&backend, "color"), Ok("blue".to_string()));
}

#[test]
fn get_of_a_missing_field_is_not_found() {
    let records = Records::default();
    let backend = |command: StoreCommand| carry_out(&records, command);
    let session = session_for("42", "42_bodysign");
    assert_eq!(session.get::<String, _>(&backend, "missing_field"), Err(Error::NotFound));
    assert_eq!(session.get::<Vec<u8>, _>(&backend, "missing_field"), Err(Error::NotFound));
}

#[test]
fn empty_value_is_found() {
    let records = Records::default();
    let backend = |command: StoreCommand| carry_out(&records, command);
    let session = session_for("42", "42_bodysign");
    assert_eq!(session.set(&backend, "note", String::new()), Ok(()));
    assert_eq!(session.get::<String, _>(&backend, "note"), Ok(String::new()));
}

#[test]
fn set_hands_the_backend_one_write_command() {
    let seen: RefCell<Vec<StoreCommand>> = RefCell::new(Vec::new());
    let backend = |command: StoreCommand| {
        seen.borrow_mut().push(command);
        StoreReply::Other
    };
    let session = session_for("42", "42_bodysign");
    assert_eq!(session.set(&backend, "color", "blue"), Ok(()));
    let seen = seen.into_inner();
    assert_eq!(seen.len(), 1);
    match &seen[0] {
        StoreCommand::Write { key, field, value } => {
            assert_eq!(key, "42_bodysign");
            assert_eq!(field, "color");
            assert_eq!(value, &vec![98u8, 108, 117, 101]);
        }
        other => panic!("not a write: {:?}", other),
    }
}

#[test]
fn get_hands_the_backend_one_read_command() {
    let seen: RefCell<Vec<StoreCommand>> = RefCell::new(Vec::new());
    let backend = |command: StoreCommand| {
        seen.borrow_mut().push(command);
        StoreReply::Data(vec![98, 108, 117, 101])
    };
    let session = session_for("42", "42_bodysign");
    assert_eq!(session.get::<String, _>(&backend, "color"), Ok("blue".to_string()));
    let seen = seen.into_inner();
    assert_eq!(seen.len(), 1);
    match &seen[0] {
        StoreCommand::Read { key, field } => {
            assert_eq!(key, "42_bodysign");
            assert_eq!(field, "color");
        }
        other => panic!("not a read: {:?}", other),
    }
}

#[test]
fn bytes_that_are_no_text_are_a_type_error() {
    let backend = |_command: StoreCommand| StoreReply::Data(vec![0xff, 0xfe]);
    let session = session_for("42", "42_bodysign");
    assert_eq!(session.get::<String, _>(&backend, "color"), Err(Error::TypeError));
    assert_eq!(session.get::<Vec<u8>, _>(&backend, "color"), Ok(vec![0xff, 0xfe]));
}

#[test]
fn answer_of_another_shape_is_a_type_error() {
    let backend = |_command: StoreCommand| StoreReply::Other;
    let session = session_for("42", "42_bodysign");
    assert_eq!(session.get::<String, _>(&backend, "color"), Err(Error::TypeError));
}

#[test]
fn failures_of_the_backend_come_through() {
    let session = session_for("42", "42_bodysign");
    let exhausted = |_command: StoreCommand| StoreReply::Failed(StoreFault::PoolExhausted);
    assert_eq!(session.set(&exhausted, "color", "blue"), Err(Error::ConnectionError));
    assert_eq!(session.get::<String, _>(&exhausted, "color"), Err(Error::ConnectionError));
    let broken = |_command: StoreCommand| StoreReply::Failed(StoreFault::Transport);
    assert_eq!(session.set(&broken, "color", "blue"), Err(Error::ConnectionError));
    assert_eq!(session.get::<String, _>(&broken, "color"), Err(Error::ConnectionError));
    let refusing = |_command: StoreCommand| StoreReply::Failed(StoreFault::Rejected);
    assert_eq!(session.set(&refusing, "color", "blue"), Err(Error::StoreError));
    assert_eq!(session.get::<String, _>(&refusing, "color"), Err(Error::StoreError));
    let mismatched = |_command: StoreCommand| StoreReply::Failed(StoreFault::TypeMismatch);
    assert_eq!(session.get::<String, _>(&mismatched, "color"), Err(Error::TypeError));
}

#[test]
fn writes_under_one_session_do_not_show_under_another() {
    let records = Records::default();
    let backend = |command: StoreCommand| carry_out(&records, command);
    let first = session_for("1", "1_bodyone");
    let second = session_for("2", "2_bodytwo");
    assert_eq!(first.set(&backend, "color", "blue"), Ok(()));
    assert_eq!(second.get::<String, _>(&backend, "color"), Err(Error::NotFound));
    assert_eq!(second.set(&backend, "color", "red"), Ok(()));
    assert_eq!(first.get::<String, _>(&backend, "color"), Ok("blue".to_string()));
    assert_eq!(second.get::<String, _>(&backend, "color"), Ok("red".to_string()));
}

#[test]
fn later_write_replaces_the_earlier() {
    let records = Records::default();
    let backend = |command: StoreCommand| carry_out(&records, command);
    let session = session_for("42", "42_bodysign");
    assert_eq!(session.set(&backend, "color", "blue"), Ok(()));
    assert_eq!(session.set(&backend, "color", "green".to_string()), Ok(()));
    assert_eq!(session.get::<String, _>(&backend, "color"), Ok("green".to_string()));
}

#[test]
fn text_is_stored_as_utf8() {
    assert_eq!("blue".to_store_value(), vec![98, 108, 117, 101]);
    assert_eq!("é".to_string().to_store_value(), vec![0xc3, 0xa9]);
    assert_eq!(vec![1u8, 2, 3].to_store_value(), vec![1, 2, 3]);
}

#[test]
fn stored_bytes_read_as_text_or_bytes() {
    assert_eq!(String::from_store_value(vec![0xc3, 0xa9]), Some("é".to_string()));
    assert_eq!(String::from_store_value(vec![0xc3]), None);
    assert_eq!(<Vec<u8>>::from_store_value(vec![0xc3]), Some(vec![0xc3]));
}

#[test]
fn reply_reads_as_the_type_asked_for() {
    assert_eq!(read_reply::<String>(StoreReply::Data(vec![104, 105])), Ok("hi".to_string()));
    assert_eq!(read_reply::<String>(StoreReply::Data(vec![0x80])), Err(Error::TypeError));
    assert_eq!(read_reply::<String>(StoreReply::Nil), Err(Error::NotFound));
    assert_eq!(read_reply::<Vec<u8>>(StoreReply::Other), Err(Error::TypeError));
    assert_eq!(
        read_reply::<Vec<u8>>(StoreReply::Failed(StoreFault::Transport)),
        Err(Error::ConnectionError)
    );
}
