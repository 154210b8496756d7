//! Task and event vocabulary exchanged with the blockchain syncers.
//!
//! Tasks ask a syncer to watch or act on a chain; events report back what
//! happened.  Chain-specific values (addresses, keys, scripts, raw
//! transactions) are carried as plain bytes and text: the syncer owns their
//! chain encodings.

use vstd::prelude::*;

verus! {

/// Address watch data for either chain.
#[derive(Clone, Debug, Eq, PartialEq, Hash)]
pub enum AddressAddendum {
    Monero(XmrAddressAddendum),
    Bitcoin(BtcAddressAddendum),
}

#[derive(Clone, Debug, Eq, PartialEq, Hash)]
pub struct BtcAddressAddendum {
    /// The address the syncer will watch and query, in its text encoding.
    pub address: Option<String>,
    /// The blockchain height where to start the query (not inclusive).
    pub from_height: u64,
    /// The associated script pubkey used by server like Electrum.
    pub script_pubkey: Vec<u8>,
}

#[derive(Clone, Debug, Eq, PartialEq, Hash)]
pub struct XmrAddressAddendum {
    pub spend_key: [u8; 32],
    pub view_key: [u8; 32],
    /// The blockchain height where to start the query (not inclusive).
    pub from_height: u64,
}

#[derive(Clone, Debug, Eq, PartialEq, Hash)]
pub struct SweepAddress {
    pub id: u32,
    pub lifetime: u64,
    pub addendum: SweepAddressAddendum,
}

#[derive(Clone, Debug, Eq, PartialEq, Hash)]
pub enum SweepAddressAddendum {
    Monero(SweepXmrAddress),
    Bitcoin(SweepBitcoinAddress),
}

#[derive(Clone, Debug, Eq, PartialEq, Hash)]
pub struct SweepXmrAddress {
    pub spend_key: [u8; 32],
    pub view_key: [u8; 32],
    pub address: String,
}

#[derive(Clone, Debug, Eq, PartialEq, Hash)]
pub struct SweepBitcoinAddress {
    pub private_key: [u8; 32],
    pub address: String,
}

#[derive(Clone, Debug, Eq, PartialEq, Hash)]
pub struct Abort {
    pub id: u32,
}

#[derive(Clone, Debug, Eq, PartialEq, Hash)]
pub struct WatchHeight {
    pub id: u32,
    pub lifetime: u64,
}

#[derive(Clone, Debug, Eq, PartialEq, Hash)]
pub struct WatchAddress {
    pub id: u32,
    pub lifetime: u64,
    pub addendum: AddressAddendum,
    pub include_tx: Boolean,
}

/// A boolean with a stable wire encoding of its own.
#[derive(Clone, Copy, Debug, Eq, PartialEq, Structural, Hash)]
pub enum Boolean {
    True,
    False,
}

impl From<Boolean> for bool {
    fn from(w: Boolean) -> (r: bool) {
        match w {
            Boolean::True => true,
            Boolean::False => false,
        }
    }
}

impl vstd::std_specs::convert::FromSpecImpl<Boolean> for bool {
    open spec fn obeys_from_spec() -> bool {
        true
    }

    open spec fn from_spec(w: Boolean) -> bool {
        w == Boolean::True
    }
}

#[derive(Clone, Debug, Eq, PartialEq, Hash)]
pub struct WatchTransaction {
    pub id: u32,
    pub lifetime: u64,
    pub hash: Vec<u8>,
    pub confirmation_bound: u32,
}

#[derive(Clone, Debug, Eq, PartialEq, Hash)]
pub struct BroadcastTransaction {
    pub id: u32,
    pub tx: Vec<u8>,
}

/// Tasks created by the daemon and handled by syncers to process a
/// blockchain and generate [`Event`]s back.
#[derive(Clone, Debug, Eq, PartialEq, Hash)]
pub enum Task {
    Abort(Abort),
    WatchHeight(WatchHeight),
    WatchAddress(WatchAddress),
    WatchTransaction(WatchTransaction),
    BroadcastTransaction(BroadcastTransaction),
    SweepAddress(SweepAddress),
}

#[derive(Clone, Debug, Eq, PartialEq, Hash)]
pub struct TaskAborted {
    pub id: u32,
    pub error: Option<String>,
}

#[derive(Clone, Debug, Eq, PartialEq, Hash)]
pub struct HeightChanged {
    pub id: u32,
    pub block: Vec<u8>,
    pub height: u64,
}

#[derive(Clone, Debug, Eq, PartialEq, Hash)]
pub struct AddressTransaction {
    pub id: u32,
    pub hash: Vec<u8>,
    pub amount: u64,
    pub block: Vec<u8>,
    pub tx: Vec<u8>,
}

#[derive(Clone, Debug, Eq, PartialEq, Hash)]
pub struct TransactionConfirmations {
    pub id: u32,
    pub block: Vec<u8>,
    pub confirmations: Option<u32>,
}

#[derive(Clone, Debug, Eq, PartialEq, Hash)]
pub struct TransactionBroadcasted {
    pub id: u32,
    pub tx: Vec<u8>,
    pub error: Option<String>,
}

#[derive(Clone, Debug, Eq, PartialEq, Hash)]
pub struct SweepSuccess {
    pub id: u32,
    pub txids: Vec<Vec<u8>>,
}

/// Events returned by syncers to the daemon to update the blockchain states.
/// Events are identified with a unique 32-bits integer that match the
/// [`Task`] id.
#[derive(Clone, Debug, Eq, PartialEq, Hash)]
pub enum Event {
    /// Notify the daemon the blockchain height changed.
    HeightChanged(HeightChanged),
    AddressTransaction(AddressTransaction),
    TransactionConfirmations(TransactionConfirmations),
    TransactionBroadcasted(TransactionBroadcasted),
    SweepSuccess(SweepSuccess),
    /// Notify the daemon the task has been aborted with success or failure.
    /// Carries the status for the task abortion.
    TaskAborted(TaskAborted),
}

} // verus!
