//! Plain data types shared across the coordinator: identifiers, roles,
//! service addressing and the error taxonomy.

use vstd::prelude::*;

verus! {

/// Identifier of one swap: a 128-bit identifier held as two words.
/// Stable for the swap's lifetime and used as the registry key.
#[derive(Clone, Copy, PartialEq, Eq, Structural, Hash, Debug)]
pub struct SwapId {
    pub hi: u64,
    pub lo: u64,
}

/// The two asymmetric cryptographic roles of a swap: Alice holds the
/// confidential-ledger asset, Bob the UTXO asset that funds the arbitrating
/// chain.
#[derive(Clone, Copy, PartialEq, Eq, Structural, Hash, Debug)]
pub enum SwapRole {
    Alice,
    Bob,
}

impl SwapRole {
    /// The complementary swap role.
    pub fn other(&self) -> (r: SwapRole)
        ensures
            r == (match *self {
                SwapRole::Alice => SwapRole::Bob,
                SwapRole::Bob => SwapRole::Alice,
            }),
    {
        match self {
            SwapRole::Alice => SwapRole::Bob,
            SwapRole::Bob => SwapRole::Alice,
        }
    }
}

/// Whether this node created the offer (maker) or accepted it (taker).
#[derive(Clone, Copy, PartialEq, Eq, Structural, Hash, Debug)]
pub enum TradeRole {
    Maker,
    Taker,
}

impl TradeRole {
    /// The complementary trade role.
    pub fn other(&self) -> (r: TradeRole)
        ensures
            r == (match *self {
                TradeRole::Maker => TradeRole::Taker,
                TradeRole::Taker => TradeRole::Maker,
            }),
    {
        match self {
            TradeRole::Maker => TradeRole::Taker,
            TradeRole::Taker => TradeRole::Maker,
        }
    }
}

/// Blockchain network selector.
#[derive(Clone, Copy, PartialEq, Eq, Structural, Hash, Debug)]
pub enum Network {
    Mainnet,
    Testnet,
    Local,
}

/// Fee politic applied when the engine sets transaction fees.
#[derive(Clone, Copy, PartialEq, Eq, Structural, Hash, Debug)]
pub enum FeePriority {
    Low,
    High,
}

/// The logical channels of the service bus.
#[derive(Clone, Copy, PartialEq, Eq, Structural, Hash, Debug)]
pub enum ServiceBus {
    /// Peer-protocol messages forwarded between counterparties.
    Msg,
    /// Local control messages.
    Ctl,
    /// Inter-broker bridge; never legal for the wallet.
    Bridge,
}

/// Address of a service endpoint on the bus.
#[derive(Clone, Copy, PartialEq, Eq, Structural, Hash, Debug)]
pub enum ServiceId {
    Wallet,
    Farcasterd,
    /// The dedicated executor of one swap.
    Swap(SwapId),
    /// An RPC client, identified by a connection number.
    Client(u64),
}

/// The swap identifier addressed by a service identity: only a per-swap
/// executor carries one.
pub fn swap_id(source: ServiceId) -> (r: Result<SwapId, NodeError>)
    ensures
        (match source {
            ServiceId::Swap(id) => r == Result::<SwapId, NodeError>::Ok(id),
            _ => (r matches Err(NodeError::Farcaster(_))),
        }),
{
    match source {
        ServiceId::Swap(id) => Ok(id),
        _ => Err(NodeError::Farcaster("source is not a swap executor".to_string())),
    }
}

/// Token gating access to key material over the control channel.
#[derive(Clone, PartialEq, Eq, Hash, Debug)]
pub struct Token(pub Vec<u8>);

impl Token {
    /// Whole-value comparison of a presented token against this one.
    pub fn matches(&self, other: &Token) -> (r: bool)
        ensures
            r <==> self.0@ == other.0@,
    {
        let a = &self.0;
        let b = &other.0;
        if a.len() != b.len() {
            return false;
        }
        let mut i: usize = 0;
        let mut ok: bool = true;
        while i < a.len()
            invariant
                a@.len() == b@.len(),
                0 <= i <= a@.len(),
                ok <==> (forall|j: int| 0 <= j < i ==> a@[j] == b@[j]),
            decreases a@.len() - i,
        {
            if a[i] != b[i] {
                ok = false;
            }
            i = i + 1;
        }
        if ok {
            assert(a@ =~= b@);
        }
        ok
    }
}

/// Secrets the wallet holds for the node: the wallet seed the key manager is
/// derived from, and the peer-connection identity key pair.
pub struct NodeSecrets {
    pub wallet_seed: [u8; 32],
    pub peerd_secret_key: bitcoin::secp256k1::SecretKey,
    pub node_id: bitcoin::secp256k1::PublicKey,
}

/// Error taxonomy of the coordinator.
#[derive(Debug)]
pub enum NodeError {
    /// Domain error with a human-readable cause.
    Farcaster(String),
    /// Presented token does not equal the configured one.
    InvalidToken,
    /// A request arrived on a channel that cannot carry it; holds the channel
    /// and the request's numeric type.
    NotSupported(ServiceBus, u16),
    /// Error surfaced by the swap protocol engine.
    Core(farcaster_core::Error),
}

} // verus!
