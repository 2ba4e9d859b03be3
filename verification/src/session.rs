//! The per-request session: typed access to the fields of one record of the
//! store, and the claims of the request.

use vstd::prelude::*;
use vstd::string::StrSliceExecFns;
use vstd::utf8::{decode_utf8, encode_utf8, valid_utf8};
use crate::claims::{Claims, ClaimsModel};
use crate::error::Error;
use crate::store::{
    read_outcome,
    store_after,
    store_answer,
    write_outcome,
    CommandModel,
    HashStore,
    ReplyModel,
    StoreCommand,
    StoreReply,
};

verus! {

/// A value that can be stored under a field.
pub trait ToStoreValue {
    /// The bytes that stand for the value in the store.
    spec fn stored(&self) -> Seq<u8>;

    /// Writes the value as bytes.
    fn to_store_value(&self) -> (bytes: Vec<u8>)
        ensures
            bytes@ == self.stored(),
    ;
}

/// A type that stored bytes can be read as.
pub trait FromStoreValue: Sized {
    /// Whether the bytes stand for a value of this type.
    spec fn readable(bytes: Seq<u8>) -> bool;

    /// Whether `value` is what the bytes stand for.
    spec fn reads_as(bytes: Seq<u8>, value: Self) -> bool;

    /// Reads the bytes as a value; nothing where they stand for none.
    fn from_store_value(bytes: Vec<u8>) -> (value: Option<Self>)
        ensures
            match value {
                Some(v) => Self::readable(bytes@) && Self::reads_as(bytes@, v),
                None => !Self::readable(bytes@),
            },
    ;
}

/// `String::from_utf8`: the text that the bytes encode, nothing where they
/// are not valid UTF-8.
#[verifier::external_body]
fn text_from_utf8(bytes: Vec<u8>) -> (text: Option<String>)
    ensures
        match text {
            Some(t) => valid_utf8(bytes@) && t@ == decode_utf8(bytes@),
            None => !valid_utf8(bytes@),
        },
{
    match String::from_utf8(bytes) {
        Ok(text) => Some(text),
        Err(_) => None,
    }
}

/// Bytes are stored as they are.
impl ToStoreValue for Vec<u8> {
    open spec fn stored(&self) -> Seq<u8> {
        self@
    }

    fn to_store_value(&self) -> (bytes: Vec<u8>) {
        self.clone()
    }
}

/// Every stored value reads as its bytes.
impl FromStoreValue for Vec<u8> {
    open spec fn readable(bytes: Seq<u8>) -> bool {
        true
    }

    open spec fn reads_as(bytes: Seq<u8>, value: Vec<u8>) -> bool {
        value@ == bytes
    }

    fn from_store_value(bytes: Vec<u8>) -> (value: Option<Vec<u8>>) {
        Some(bytes)
    }
}

/// Text is stored as its UTF-8 encoding.
impl ToStoreValue for String {
    open spec fn stored(&self) -> Seq<u8> {
        encode_utf8(self@)
    }

    fn to_store_value(&self) -> (bytes: Vec<u8>) {
        self.as_str().as_bytes_vec()
    }
}

/// Text is stored as its UTF-8 encoding.
impl<'a> ToStoreValue for &'a str {
    open spec fn stored(&self) -> Seq<u8> {
        encode_utf8(self@)
    }

    fn to_store_value(&self) -> (bytes: Vec<u8>) {
        self.as_bytes_vec()
    }
}

/// Stored bytes read as text where they are valid UTF-8.
impl FromStoreValue for String {
    open spec fn readable(bytes: Seq<u8>) -> bool {
        valid_utf8(bytes)
    }

    open spec fn reads_as(bytes: Seq<u8>, value: String) -> bool {
        value@ == decode_utf8(bytes)
    }

    fn from_store_value(bytes: Vec<u8>) -> (value: Option<String>) {
        text_from_utf8(bytes)
    }
}

/// Whether `outcome` is the result of a read of type `T` that the store
/// answered with `reply`: the store's failure or `NotFound` as it stands,
/// `TypeError` for bytes that do not read as a `T`, the value otherwise.
pub open spec fn typed_read_outcome<T: FromStoreValue>(
    reply: ReplyModel,
    outcome: Result<T, Error>,
) -> bool {
    match read_outcome(reply) {
        Ok(bytes) => match outcome {
            Ok(value) => T::readable(bytes) && T::reads_as(bytes, value),
            Err(error) => error == Error::TypeError && !T::readable(bytes),
        },
        Err(error) => outcome == Err::<T, Error>(error),
    }
}

/// Reads the store's answer to a read as a value of type `T`.
pub fn read_reply<T: FromStoreValue>(reply: StoreReply) -> (outcome: Result<T, Error>)
    ensures
        typed_read_outcome(reply@, outcome),
{
    match reply.into_read_outcome() {
        Ok(bytes) => match T::from_store_value(bytes) {
            Some(value) => Ok(value),
            None => Err(Error::TypeError),
        },
        Err(error) => Err(error),
    }
}

/// The session of one authenticated request.
#[derive(Debug)]
pub struct Session {
    session_id: String,
    claims: Claims,
}

/// What a [`Session`] holds.
pub struct SessionModel {
    pub session_id: Seq<char>,
    pub claims: ClaimsModel,
}

impl View for Session {
    type V = SessionModel;

    closed spec fn view(&self) -> SessionModel {
        SessionModel { session_id: self.session_id@, claims: self.claims@ }
    }
}

impl SessionModel {
    /// The command that writes `value` under `field` of this session's record.
    pub open spec fn write_command(self, field: Seq<char>, value: Seq<u8>) -> CommandModel {
        CommandModel::Write { key: self.session_id, field, value }
    }

    /// The command that reads `field` of this session's record.
    pub open spec fn read_command(self, field: Seq<char>) -> CommandModel {
        CommandModel::Read { key: self.session_id, field }
    }
}

impl Session {
    /// Binds a session key and the claims of a request.
    pub fn new(session_id: String, claims: Claims) -> (session: Session)
        ensures
            session@ == (SessionModel { session_id: session_id@, claims: claims@ }),
    {
        Session { session_id, claims }
    }

    /// The key of this session's record in the store.
    pub fn session_id(&self) -> (key: &str)
        ensures
            key@ == self@.session_id,
    {
        self.session_id.as_str()
    }

    /// The claims of the request.
    pub fn get_claims(&self) -> (claims: Claims)
        ensures
            claims@ == self@.claims,
    {
        self.claims.clone()
    }

    /// Writes `value` under `field` of this session's record. The backend is
    /// handed one write command; its answer decides the result.
    pub fn set<V: ToStoreValue, B: Fn(StoreCommand) -> StoreReply>(
        &self,
        backend: &B,
        field: &str,
        value: V,
    ) -> (outcome: Result<(), Error>)
        requires
            forall|command: StoreCommand| backend.requires((command,)),
        ensures
            exists|command: StoreCommand, reply: StoreReply|
                {
                    &&& command@ == self@.write_command(field@, value.stored())
                    &&& #[trigger] backend.ensures((command,), reply)
                    &&& outcome == write_outcome(reply@)
                },
    {
        let command = StoreCommand::Write {
            key: self.session_id.clone(),
            field: field.to_owned(),
            value: value.to_store_value(),
        };
        let reply = backend(command);
        reply.into_write_outcome()
    }

    /// Reads `field` of this session's record as a value of type `T`. The
    /// backend is handed one read command; its answer decides the result.
    pub fn get<T: FromStoreValue, B: Fn(StoreCommand) -> StoreReply>(
        &self,
        backend: &B,
        field: &str,
    ) -> (outcome: Result<T, Error>)
        requires
            forall|command: StoreCommand| backend.requires((command,)),
        ensures
            exists|command: StoreCommand, reply: StoreReply|
                {
                    &&& command@ == self@.read_command(field@)
                    &&& #[trigger] backend.ensures((command,), reply)
                    &&& typed_read_outcome(reply@, outcome)
                },
    {
        let command = StoreCommand::Read { key: self.session_id.clone(), field: field.to_owned() };
        let reply = backend(command);
        read_reply(reply)
    }
}

/// Text that was stored reads back as the same text.
pub proof fn lemma_text_reads_back(text: Seq<char>, value: String)
    ensures
        <String as FromStoreValue>::readable(encode_utf8(text)),
        <String as FromStoreValue>::reads_as(encode_utf8(text), value) ==> value@ == text,
{
    vstd::utf8::encode_utf8_valid_utf8(text);
    vstd::utf8::encode_utf8_decode_utf8(text);
}

/// With a store that carries out its commands, a text written under a field
/// of a session is what a read of that field of that session gives.
pub proof fn lemma_get_after_set(
    store: HashStore,
    session: SessionModel,
    field: Seq<char>,
    text: Seq<char>,
    outcome: Result<String, Error>,
)
    requires
        typed_read_outcome(
            store_answer(
                store_after(store, session.write_command(field, encode_utf8(text))),
                session.read_command(field),
            ),
            outcome,
        ),
    ensures
        write_outcome(store_answer(store, session.write_command(field, encode_utf8(text))))
            == Ok::<(), Error>(()),
        outcome matches Ok(value) && value@ == text,
{
    vstd::utf8::encode_utf8_valid_utf8(text);
    vstd::utf8::encode_utf8_decode_utf8(text);
}

/// A read of a field that nothing is stored under is `NotFound` for every
/// type asked for: no value is made up in its place.
pub proof fn lemma_get_missing<T: FromStoreValue>(
    store: HashStore,
    session: SessionModel,
    field: Seq<char>,
    outcome: Result<T, Error>,
)
    requires
        !store.contains_key((session.session_id, field)),
        typed_read_outcome(store_answer(store, session.read_command(field)), outcome),
    ensures
        outcome == Err::<T, Error>(Error::NotFound),
{
}

/// Sessions with different keys do not see each other's writes: a write
/// under one leaves every read under the other as it was.
pub proof fn lemma_sessions_are_apart(
    store: HashStore,
    writer: SessionModel,
    field: Seq<char>,
    value: Seq<u8>,
    reader: SessionModel,
    other_field: Seq<char>,
)
    requires
        writer.session_id != reader.session_id,
    ensures
        store_answer(
            store_after(store, writer.write_command(field, value)),
            reader.read_command(other_field),
        ) == store_answer(store, reader.read_command(other_field)),
{
}

} // verus!
