//! The hash store as this layer sees it: commands, answers, and what is
//! expected of a store that carries them out.

use vstd::prelude::*;
use crate::error::Error;

verus! {

/// A command for the store.
#[derive(Debug)]
pub enum StoreCommand {
    /// Put `value` under `field` of the record at `key`.
    Write { key: String, field: String, value: Vec<u8> },
    /// Fetch what is under `field` of the record at `key`.
    Read { key: String, field: String },
}

/// What a [`StoreCommand`] holds.
pub enum CommandModel {
    Write { key: Seq<char>, field: Seq<char>, value: Seq<u8> },
    Read { key: Seq<char>, field: Seq<char> },
}

impl View for StoreCommand {
    type V = CommandModel;

    open spec fn view(&self) -> CommandModel {
        match *self {
            StoreCommand::Write { key, field, value } => CommandModel::Write {
                key: key@,
                field: field@,
                value: value@,
            },
            StoreCommand::Read { key, field } => CommandModel::Read { key: key@, field: field@ },
        }
    }
}

/// Why the store gave no answer to a command.
#[derive(Debug, Clone, Copy, PartialEq, Eq, Structural)]
pub enum StoreFault {
    /// No connection could be checked out of the pool.
    PoolExhausted,
    /// The connection failed while the command was under way.
    Transport,
    /// The store's answer does not have the shape the command calls for.
    TypeMismatch,
    /// The store refused the command.
    Rejected,
}

/// The store's answer to a command.
#[derive(Debug)]
pub enum StoreReply {
    /// Nothing is stored there.
    Nil,
    /// The bytes stored there.
    Data(Vec<u8>),
    /// An answer of another shape: a count, a status, a list.
    Other,
    /// No answer.
    Failed(StoreFault),
}

/// What a [`StoreReply`] holds.
pub enum ReplyModel {
    Nil,
    Data(Seq<u8>),
    Other,
    Failed(StoreFault),
}

impl View for StoreReply {
    type V = ReplyModel;

    open spec fn view(&self) -> ReplyModel {
        match *self {
            StoreReply::Nil => ReplyModel::Nil,
            StoreReply::Data(bytes) => ReplyModel::Data(bytes@),
            StoreReply::Other => ReplyModel::Other,
            StoreReply::Failed(fault) => ReplyModel::Failed(fault),
        }
    }
}

/// The error that a fault is reported as.
pub open spec fn fault_error(fault: StoreFault) -> Error {
    match fault {
        StoreFault::PoolExhausted => Error::ConnectionError,
        StoreFault::Transport => Error::ConnectionError,
        StoreFault::TypeMismatch => Error::TypeError,
        StoreFault::Rejected => Error::StoreError,
    }
}

/// The result of a write, given the store's answer: it succeeded unless the
/// store gave no answer.
pub open spec fn write_outcome(reply: ReplyModel) -> Result<(), Error> {
    match reply {
        ReplyModel::Failed(fault) => Err(fault_error(fault)),
        _ => Ok(()),
    }
}

/// The result of a read, given the store's answer: the bytes stored, or why
/// there are none. An absent field is `NotFound`, never an empty value.
pub open spec fn read_outcome(reply: ReplyModel) -> Result<Seq<u8>, Error> {
    match reply {
        ReplyModel::Data(bytes) => Ok(bytes),
        ReplyModel::Nil => Err(Error::NotFound),
        ReplyModel::Other => Err(Error::TypeError),
        ReplyModel::Failed(fault) => Err(fault_error(fault)),
    }
}

impl Error {
    /// Reports a fault as an error.
    pub fn of_fault(fault: StoreFault) -> (error: Error)
        ensures
            error == fault_error(fault),
    {
        match fault {
            StoreFault::PoolExhausted => Error::ConnectionError,
            StoreFault::Transport => Error::ConnectionError,
            StoreFault::TypeMismatch => Error::TypeError,
            StoreFault::Rejected => Error::StoreError,
        }
    }
}

impl StoreReply {
    /// Reads the answer to a write.
    pub fn into_write_outcome(self) -> (outcome: Result<(), Error>)
        ensures
            outcome == write_outcome(self@),
    {
        match self {
            StoreReply::Failed(fault) => Err(Error::of_fault(fault)),
            _ => Ok(()),
        }
    }

    /// Reads the answer to a read.
    pub fn into_read_outcome(self) -> (outcome: Result<Vec<u8>, Error>)
        ensures
            match outcome {
                Ok(bytes) => read_outcome(self@) == Ok::<Seq<u8>, Error>(bytes@),
                Err(error) => read_outcome(self@) == Err::<Seq<u8>, Error>(error),
            },
    {
        match self {
            StoreReply::Data(bytes) => Ok(bytes),
            StoreReply::Nil => Err(Error::NotFound),
            StoreReply::Other => Err(Error::TypeError),
            StoreReply::Failed(fault) => Err(Error::of_fault(fault)),
        }
    }
}

/// The contents of a hash store: the bytes under each pair of key and field.
pub type HashStore = Map<(Seq<char>, Seq<char>), Seq<u8>>;

/// The contents of a store after it has carried out a command.
pub open spec fn store_after(store: HashStore, command: CommandModel) -> HashStore {
    match command {
        CommandModel::Write { key, field, value } => store.insert((key, field), value),
        CommandModel::Read { .. } => store,
    }
}

/// The answer of a store that carries out a command.
pub open spec fn store_answer(store: HashStore, command: CommandModel) -> ReplyModel {
    match command {
        CommandModel::Write { .. } => ReplyModel::Other,
        CommandModel::Read { key, field } => if store.contains_key((key, field)) {
            ReplyModel::Data(store[(key, field)])
        } else {
            ReplyModel::Nil
        },
    }
}

/// In a store that carries out its commands, a read that follows a write to
/// the same field of the same record succeeds with the bytes written.
pub proof fn lemma_read_after_write(
    store: HashStore,
    key: Seq<char>,
    field: Seq<char>,
    value: Seq<u8>,
)
    ensures
        ({
            let write = CommandModel::Write { key, field, value };
            let read = CommandModel::Read { key, field };
            &&& write_outcome(store_answer(store, write)) == Ok::<(), Error>(())
            &&& read_outcome(store_answer(store_after(store, write), read)) == Ok::<
                Seq<u8>,
                Error,
            >(value)
        }),
{
}

/// A read of a field that nothing was stored under is `NotFound`.
pub proof fn lemma_read_absent(store: HashStore, key: Seq<char>, field: Seq<char>)
    requires
        !store.contains_key((key, field)),
    ensures
        read_outcome(store_answer(store, CommandModel::Read { key, field })) == Err::<
            Seq<u8>,
            Error,
        >(Error::NotFound),
{
}

/// A write under one key or field leaves every read of another key or field
/// as it was.
pub proof fn lemma_write_is_local(
    store: HashStore,
    key: Seq<char>,
    field: Seq<char>,
    value: Seq<u8>,
    other_key: Seq<char>,
    other_field: Seq<char>,
)
    requires
        key != other_key || field != other_field,
    ensures
        ({
            let write = CommandModel::Write { key, field, value };
            let read = CommandModel::Read { key: other_key, field: other_field };
            store_answer(store_after(store, write), read) == store_answer(store, read)
        }),
{
}

/// Reads change nothing.
pub proof fn lemma_read_changes_nothing(store: HashStore, key: Seq<char>, field: Seq<char>)
    ensures
        store_after(store, CommandModel::Read { key, field }) == store,
{
}

} // verus!
