//! The slice of a committed ledger transaction that the decoders read:
//! version, timestamp, emitted events, table-item writes and the
//! entry-function call payload.

use vstd::prelude::*;

use crate::json::{deep_vals, JsonValue, SpecJson};

verus! {

/// An event emitted by a transaction: a fully-qualified type tag and a
/// loosely-typed data value.
#[derive(Debug)]
pub struct Event {
    pub typ: String,
    pub data: JsonValue,
}

pub struct SpecEvent {
    pub typ: Seq<char>,
    pub data: SpecJson,
}

impl DeepView for Event {
    type V = SpecEvent;

    open spec fn deep_view(&self) -> SpecEvent {
        SpecEvent { typ: self.typ@, data: self.data.deep_view() }
    }
}

/// The decoded content of one table-item write: the key's type tag, the
/// key and the value.
#[derive(Debug)]
pub struct TableItemData {
    pub key_type: String,
    pub key: JsonValue,
    pub value_type: String,
    pub value: JsonValue,
}

pub struct SpecTableItemData {
    pub key_type: Seq<char>,
    pub key: SpecJson,
    pub value_type: Seq<char>,
    pub value: SpecJson,
}

impl DeepView for TableItemData {
    type V = SpecTableItemData;

    open spec fn deep_view(&self) -> SpecTableItemData {
        SpecTableItemData {
            key_type: self.key_type@,
            key: self.key.deep_view(),
            value_type: self.value_type@,
            value: self.value.deep_view(),
        }
    }
}

/// A write of one table item; `data` carries the decoded key and value
/// when the fetcher decoded them.
#[derive(Debug)]
pub struct WriteTableItem {
    pub data: Option<TableItemData>,
}

pub struct SpecWriteTableItem {
    pub data: Option<SpecTableItemData>,
}

impl DeepView for WriteTableItem {
    type V = SpecWriteTableItem;

    open spec fn deep_view(&self) -> SpecWriteTableItem {
        SpecWriteTableItem { data: self.data.deep_view() }
    }
}

/// One entry of a transaction's write set. Only table-item writes are
/// decoded; every other change kind is carried as `Other`.
#[derive(Debug)]
pub enum WriteSetChange {
    WriteTableItem(WriteTableItem),
    Other,
}

pub enum SpecWriteSetChange {
    WriteTableItem(SpecWriteTableItem),
    Other,
}

impl DeepView for WriteSetChange {
    type V = SpecWriteSetChange;

    open spec fn deep_view(&self) -> SpecWriteSetChange {
        match self {
            WriteSetChange::WriteTableItem(w) => SpecWriteSetChange::WriteTableItem(w.deep_view()),
            WriteSetChange::Other => SpecWriteSetChange::Other,
        }
    }
}

/// An entry-function call: the fully-qualified function name and its
/// ordered argument values.
#[derive(Debug)]
pub struct EntryFunctionPayload {
    pub function: String,
    pub arguments: Vec<JsonValue>,
}

pub struct SpecEntryFunctionPayload {
    pub function: Seq<char>,
    pub arguments: Seq<SpecJson>,
}

impl DeepView for EntryFunctionPayload {
    type V = SpecEntryFunctionPayload;

    open spec fn deep_view(&self) -> SpecEntryFunctionPayload {
        SpecEntryFunctionPayload { function: self.function@, arguments: deep_vals(self.arguments@) }
    }
}

/// The payload of a user transaction. Only entry-function calls are
/// decoded.
#[derive(Debug)]
pub enum TransactionPayload {
    EntryFunctionPayload(EntryFunctionPayload),
    Other,
}

pub enum SpecTransactionPayload {
    EntryFunctionPayload(SpecEntryFunctionPayload),
    Other,
}

impl DeepView for TransactionPayload {
    type V = SpecTransactionPayload;

    open spec fn deep_view(&self) -> SpecTransactionPayload {
        match self {
            TransactionPayload::EntryFunctionPayload(p) => {
                SpecTransactionPayload::EntryFunctionPayload(p.deep_view())
            },
            TransactionPayload::Other => SpecTransactionPayload::Other,
        }
    }
}

/// A user-submitted transaction with everything the decoders read.
#[derive(Debug)]
pub struct UserTransaction {
    pub version: u64,
    pub timestamp_micros: i64,
    pub payload: TransactionPayload,
    pub events: Vec<Event>,
    pub changes: Vec<WriteSetChange>,
}

pub struct SpecUserTransaction {
    pub version: int,
    pub timestamp_micros: int,
    pub payload: SpecTransactionPayload,
    pub events: Seq<SpecEvent>,
    pub changes: Seq<SpecWriteSetChange>,
}

impl DeepView for UserTransaction {
    type V = SpecUserTransaction;

    open spec fn deep_view(&self) -> SpecUserTransaction {
        SpecUserTransaction {
            version: self.version as int,
            timestamp_micros: self.timestamp_micros as int,
            payload: self.payload.deep_view(),
            events: self.events.deep_view(),
            changes: self.changes.deep_view(),
        }
    }
}

/// A committed ledger transaction. Only user transactions carry decodable
/// content; every other kind is carried as `Other`.
#[derive(Debug)]
pub enum Transaction {
    User(UserTransaction),
    Other,
}

pub enum SpecTransaction {
    User(SpecUserTransaction),
    Other,
}

impl DeepView for Transaction {
    type V = SpecTransaction;

    open spec fn deep_view(&self) -> SpecTransaction {
        match self {
            Transaction::User(u) => SpecTransaction::User(u.deep_view()),
            Transaction::Other => SpecTransaction::Other,
        }
    }
}

impl UserTransaction {
    /// A user transaction the processor accepts: its version fits the
    /// store's signed column, every table-item write carries decoded data
    /// (the fetcher populates it), and a call of a registered marketplace
    /// function carries at least one argument (the chain rejects a call
    /// with too few).
    pub open spec fn spec_well_formed(self) -> bool {
        &&& self.version <= i64::MAX as u64
        &&& forall|i: int|
            0 <= i < self.changes@.len() ==> match #[trigger] self.changes@[i] {
                WriteSetChange::WriteTableItem(w) => w.data is Some,
                WriteSetChange::Other => true,
            }
        &&& match self.payload {
            TransactionPayload::EntryFunctionPayload(p) => {
                crate::marketplace::utils::spec_known_function(p.function@)
                    ==> p.arguments@.len() > 0
            },
            TransactionPayload::Other => true,
        }
    }
}

impl Transaction {
    pub open spec fn spec_well_formed(self) -> bool {
        match self {
            Transaction::User(u) => u.spec_well_formed(),
            Transaction::Other => true,
        }
    }
}

pub open spec fn spec_all_well_formed(txns: Seq<Transaction>) -> bool {
    forall|i: int| 0 <= i < txns.len() ==> txns[i].spec_well_formed()
}

/// Checks the processor's input conditions; callers outside verified code
/// test a batch with this before handing it to the processor.
#[verifier::loop_isolation(false)]
pub fn transactions_well_formed(txns: &Vec<Transaction>) -> (r: bool)
    ensures
        r == spec_all_well_formed(txns@),
{
    let n = txns.len();
    let mut i: usize = 0;
    while i < n
        invariant
            n == txns@.len(),
            i <= n,
            forall|j: int| 0 <= j < i ==> txns@[j].spec_well_formed(),
        decreases n - i,
    {
        match &txns[i] {
            Transaction::User(u) => {
                if u.version > i64::MAX as u64 {
                    return false;
                }
                let m = u.changes.len();
                let mut k: usize = 0;
                while k < m
                    invariant
                        m == u.changes@.len(),
                        k <= m,
                        forall|j: int|
                            0 <= j < k ==> match #[trigger] u.changes@[j] {
                                WriteSetChange::WriteTableItem(w) => w.data is Some,
                                WriteSetChange::Other => true,
                            },
                    decreases m - k,
                {
                    match &u.changes[k] {
                        WriteSetChange::WriteTableItem(w) => {
                            if w.data.is_none() {
                                return false;
                            }
                        },
                        WriteSetChange::Other => {},
                    }
                    k += 1;
                }
                match &u.payload {
                    TransactionPayload::EntryFunctionPayload(p) => {
                        if crate::marketplace::utils::known_function(p.function.as_str())
                            && p.arguments.len() == 0 {
                            return false;
                        }
                    },
                    TransactionPayload::Other => {},
                }
            },
            Transaction::Other => {},
        }
        i += 1;
    }
    true
}

} // verus!
