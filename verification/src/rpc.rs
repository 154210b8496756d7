//! The request vocabulary of the service bus, and the outbox that collects
//! what the coordinator emits.
//!
//! Each request mirrors one logical message of the swap protocol or of the
//! local control plane.  Cryptographic payloads are the engine's opaque
//! values; everything the dispatch logic reads (swap identifiers, roles,
//! variant tags) is a plain value beside them.

use vstd::prelude::*;

use crate::engine::OfferInfo;
use crate::types::{NodeError, ServiceBus, ServiceId, SwapId, Token, TradeRole};

verus! {

/// A role-tagged commitment to a counterparty's parameters, before they are
/// revealed.  The swap identifier is carried beside the opaque payload;
/// whoever builds one must copy it out of the payload.
pub enum Commit {
    Alice {
        swap_id: SwapId,
        commit: farcaster_core::swap::btcxmr::message::CommitAliceParameters,
    },
    Bob {
        swap_id: SwapId,
        commit: farcaster_core::swap::btcxmr::message::CommitBobParameters,
    },
}

impl Commit {
    /// The swap this commitment addresses.
    pub open spec fn spec_swap_id(self) -> SwapId {
        match self {
            Commit::Alice { swap_id, .. } => swap_id,
            Commit::Bob { swap_id, .. } => swap_id,
        }
    }

    /// The swap this commitment addresses.
    pub fn swap_id(&self) -> (r: SwapId)
        ensures
            r == self.spec_swap_id(),
    {
        match self {
            Commit::Alice { swap_id, .. } => *swap_id,
            Commit::Bob { swap_id, .. } => *swap_id,
        }
    }

    /// A copy of this commitment.
    pub fn duplicate(&self) -> (r: Commit)
        ensures
            r == *self,
    {
        match self {
            Commit::Alice { swap_id, commit } => Commit::Alice {
                swap_id: *swap_id,
                commit: crate::engine::clone_alice_commit(commit),
            },
            Commit::Bob { swap_id, commit } => Commit::Bob {
                swap_id: *swap_id,
                commit: crate::engine::clone_bob_commit(commit),
            },
        }
    }
}

/// A role-tagged set of revealed parameters.
pub enum Reveal {
    Alice(farcaster_core::swap::btcxmr::message::RevealAliceParameters),
    Bob(farcaster_core::swap::btcxmr::message::RevealBobParameters),
}

/// A role-tagged set of local protocol parameters.
pub enum Params {
    Alice(farcaster_core::swap::btcxmr::Parameters),
    Bob(farcaster_core::swap::btcxmr::Parameters),
}

/// The first protocol message of a taker, routed to the maker's wallet.
pub struct TakeCommit {
    pub commit: Commit,
    /// The negotiated offer, in its text encoding.
    pub public_offer_hex: String,
    pub swap_id: SwapId,
}

/// The peer-protocol messages of the handshake.
pub enum Msg {
    TakerCommit(TakeCommit),
    MakerCommit(Commit),
    Reveal(Reveal),
    CoreArbitratingSetup(farcaster_core::swap::btcxmr::message::CoreArbitratingSetup),
    RefundProcedureSignatures(farcaster_core::swap::btcxmr::message::RefundProcedureSignatures),
    BuyProcedureSignature(farcaster_core::swap::btcxmr::message::BuyProcedureSignature),
}

/// A request to begin a swap as taker of the given offer.
pub struct PubOffer {
    pub public_offer: OfferInfo,
    /// A taker may attach a dedicated peer key; the wallet only serves
    /// requests without one.
    pub peer_secret_key: Option<bitcoin::secp256k1::SecretKey>,
}

/// Token-gated request for the node's key material.
pub struct GetKeys(pub Token, pub u64);

/// The node's key material, sent only after a successful [`GetKeys`].
pub struct Keys(
    pub bitcoin::secp256k1::SecretKey,
    pub bitcoin::secp256k1::PublicKey,
    pub u64,
);

/// Capsule to the orchestrator asking it to start the dedicated per-swap
/// executor.
pub struct LaunchSwap {
    /// Text encoding of the maker daemon's listening address.
    pub peer: String,
    pub local_trade_role: TradeRole,
    pub public_offer: OfferInfo,
    pub local_params: Params,
    pub swap_id: SwapId,
    pub remote_commit: Option<Commit>,
    pub funding_address: Option<bitcoin::Address>,
}

/// Everything that can travel on the service bus.
pub enum Request {
    Hello,
    Progress(String),
    TakeOffer(PubOffer),
    GetKeys(GetKeys),
    LaunchSwap(LaunchSwap),
    Keys(Keys),
    Protocol(Msg),
}

impl Request {
    /// Numeric tag of the request shape, for diagnostics.
    pub open spec fn spec_get_type(self) -> u16 {
        match self {
            Request::Hello => 0u16,
            Request::Progress(_) => 1u16,
            Request::TakeOffer(_) => 2u16,
            Request::GetKeys(_) => 3u16,
            Request::LaunchSwap(_) => 4u16,
            Request::Keys(_) => 5u16,
            Request::Protocol(_) => 6u16,
        }
    }

    /// Numeric tag of the request shape, for diagnostics.
    pub fn get_type(&self) -> (r: u16)
        ensures
            r == self.spec_get_type(),
    {
        match self {
            Request::Hello => 0u16,
            Request::Progress(_) => 1u16,
            Request::TakeOffer(_) => 2u16,
            Request::GetKeys(_) => 3u16,
            Request::LaunchSwap(_) => 4u16,
            Request::Keys(_) => 5u16,
            Request::Protocol(_) => 6u16,
        }
    }
}

/// One message handed to the bus: its channel, endpoints and payload.
pub struct BusMsg {
    pub bus: ServiceBus,
    pub source: ServiceId,
    pub dest: ServiceId,
    pub req: Request,
}

/// The outbox: messages the coordinator has emitted, in order, waiting for
/// the bus to carry them.
pub struct Senders {
    msgs: Vec<BusMsg>,
}

impl Senders {
    /// The emitted messages, oldest first.
    pub closed spec fn view(&self) -> Seq<BusMsg> {
        self.msgs@
    }

    /// An empty outbox.
    pub fn new() -> (r: Senders)
        ensures
            r@ =~= Seq::<BusMsg>::empty(),
    {
        Senders { msgs: Vec::new() }
    }

    /// Queue one message for delivery.
    pub fn send_to(
        &mut self,
        bus: ServiceBus,
        source: ServiceId,
        dest: ServiceId,
        req: Request,
    ) -> (r: Result<(), NodeError>)
        ensures
            r.is_ok(),
            final(self)@ =~= old(self)@.push(BusMsg { bus, source, dest, req }),
    {
        self.msgs.push(BusMsg { bus, source, dest, req });
        Ok(())
    }

    /// Hand every queued message to the caller, leaving the outbox empty.
    pub fn take_all(&mut self) -> (r: Vec<BusMsg>)
        ensures
            r@ =~= old(self)@,
            final(self)@ =~= Seq::<BusMsg>::empty(),
    {
        let mut out: Vec<BusMsg> = Vec::new();
        core::mem::swap(&mut out, &mut self.msgs);
        out
    }

    /// How many messages wait in the outbox.
    pub fn len(&self) -> (r: usize)
        ensures
            r == self@.len(),
    {
        self.msgs.len()
    }
}

} // verus!
