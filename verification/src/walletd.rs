//! The wallet coordinator: the per-swap handshake state machine and its
//! registry.
//!
//! Inbound requests are classified by logical channel ([`ServiceBus`]) and
//! dispatched.  Peer-protocol messages drive the commit -> reveal ->
//! arbitrating-setup -> refund/buy-signature sequence of the role this
//! wallet plays in each swap; control messages create swaps, flush buffered
//! requests and gate key disclosure.  The spec functions beside the handlers
//! state each transition exactly; the handlers' contracts tie the executable
//! code to them.

use vstd::prelude::*;

use crate::engine;
use crate::engine::OfferInfo;
use crate::registry::Registry;
use crate::rpc::{BusMsg, Commit, GetKeys, Keys, LaunchSwap, Msg, Params, PubOffer, Request,
    Reveal, Senders, TakeCommit};
use crate::types::{swap_id, FeePriority, Network, NodeError, NodeSecrets, ServiceBus, ServiceId,
    SwapId, SwapRole, Token, TradeRole};

verus! {

/// The text encoding of the wallet's external chain address.
pub const EXTERNAL_ADDRESS: &'static str = "tb1qdk49um4fyc7306lp9mhhlkacxz9cmhnr6k8e37";

/// Alice-side per-swap state: the role's own data and the ordered optional
/// slots the handshake fills.
pub struct AliceWallet {
    /// Where the swapped-in funds are to be sent.  Immutable.
    pub destination_address: bitcoin::Address,
    /// Fee politic of this role.  Immutable.
    pub fee: FeePriority,
    /// Own generated protocol parameters.  Immutable.
    pub local_params: farcaster_core::swap::btcxmr::Parameters,
    /// Handle to the key material derived from the wallet seed.
    pub key_manager: farcaster_core::swap::btcxmr::KeyManager,
    /// The negotiated offer.  Immutable.
    pub offer: OfferInfo,
    /// Bob's commitment, set once.
    pub remote_commit: Option<farcaster_core::swap::btcxmr::message::CommitBobParameters>,
    /// Bob's revealed parameters, set once after commitment verification.
    pub remote_params: Option<farcaster_core::swap::btcxmr::Parameters>,
    /// Whether the refund procedure signatures were emitted.
    pub refund_sigs_sent: bool,
    /// Whether the terminal buy-procedure-signature acknowledgement arrived.
    pub done: bool,
}

/// Bob-side per-swap state.
pub struct BobWallet {
    /// Where a refund is to be sent.  Immutable.
    pub refund_address: bitcoin::Address,
    /// Fee politic of this role.  Immutable.
    pub fee: FeePriority,
    /// Own generated protocol parameters.  Immutable.
    pub local_params: farcaster_core::swap::btcxmr::Parameters,
    /// Handle to the key material derived from the wallet seed.
    pub key_manager: farcaster_core::swap::btcxmr::KeyManager,
    /// The negotiated offer.  Immutable.
    pub offer: OfferInfo,
    /// The funding transaction handle, created once per Bob-role swap.
    pub funding: Option<crate::engine::FundingHandle>,
    /// Alice's commitment, set once.
    pub remote_commit: Option<farcaster_core::swap::btcxmr::message::CommitAliceParameters>,
    /// Alice's revealed parameters, set once.
    pub remote_params: Option<farcaster_core::swap::btcxmr::Parameters>,
    /// The core arbitrating transaction bundle, computed once.
    pub core_arb_txs: Option<farcaster_core::swap::btcxmr::CoreArbitratingTransactions>,
    /// Whether the buy procedure signature was emitted.
    pub buy_sig_sent: bool,
}

/// Per-role accumulated protocol state of one swap.
pub enum Wallet {
    Alice(AliceWallet),
    Bob(BobWallet),
}

/// Where a wallet stands in its role's handshake sequence.
#[derive(Clone, Copy, PartialEq, Eq, Structural, Debug)]
pub enum Phase {
    /// Own parameters generated; nothing of the counterparty yet.
    LocalParamsReady,
    /// Bob only: the funding handle exists.
    FundingReady,
    /// The counterparty's commitment is stored.
    RemoteCommitKnown,
    /// The counterparty's parameters are stored.
    RemoteParamsRevealed,
    /// Bob only: the arbitrating transactions are computed and the setup was
    /// emitted; refund signatures are awaited.
    SetupSent,
    /// Alice only: the refund procedure signatures were emitted.
    RefundSigsSent,
    /// Terminal.
    Complete,
}

/// The phase a wallet state is in, derived from its slots and flags.
pub open spec fn phase(w: Wallet) -> Phase {
    match w {
        Wallet::Alice(a) => {
            if a.done {
                Phase::Complete
            } else if a.refund_sigs_sent {
                Phase::RefundSigsSent
            } else if a.remote_params is Some {
                Phase::RemoteParamsRevealed
            } else if a.remote_commit is Some {
                Phase::RemoteCommitKnown
            } else {
                Phase::LocalParamsReady
            }
        },
        Wallet::Bob(b) => {
            if b.buy_sig_sent {
                Phase::Complete
            } else if b.core_arb_txs is Some {
                Phase::SetupSent
            } else if b.remote_params is Some {
                Phase::RemoteParamsRevealed
            } else if b.remote_commit is Some {
                Phase::RemoteCommitKnown
            } else if b.funding is Some {
                Phase::FundingReady
            } else {
                Phase::LocalParamsReady
            }
        },
    }
}

// ---------------------------------------------------------------------------
// Spec-level transitions of a single wallet state.
// ---------------------------------------------------------------------------

/// Effect of an inbound MakerCommit on one wallet: the matching empty
/// commitment slot is filled; a filled slot, or a commitment whose role does
/// not match the wallet's counterparty, leaves the state unchanged (the
/// message is logged and dropped).
pub open spec fn apply_maker_commit(w: Wallet, c: Commit) -> Wallet {
    match w {
        Wallet::Alice(a) => match c {
            Commit::Bob { commit, .. } => if a.remote_commit is None {
                Wallet::Alice(AliceWallet { remote_commit: Some(commit), ..a })
            } else {
                Wallet::Alice(a)
            },
            _ => Wallet::Alice(a),
        },
        Wallet::Bob(b) => match c {
            Commit::Alice { commit, .. } => if b.remote_commit is None {
                Wallet::Bob(BobWallet { remote_commit: Some(commit), ..b })
            } else {
                Wallet::Bob(b)
            },
            _ => Wallet::Bob(b),
        },
    }
}

/// After a verified Reveal(Bob) on an Alice wallet: only the remote
/// parameter slot changed, and it is now filled.
pub open spec fn alice_params_stored(a: AliceWallet, w2: Wallet) -> bool {
    match w2 {
        Wallet::Alice(a2) => {
            &&& a2 == AliceWallet { remote_params: a2.remote_params, ..a }
            &&& a2.remote_params is Some
        },
        _ => false,
    }
}

/// After Reveal(Alice) stored parameters on a Bob wallet but a later
/// signing step did not finish: only the remote parameter slot changed
/// (and the key manager may have derived further keys).
pub open spec fn bob_params_stored(b: BobWallet, w2: Wallet) -> bool {
    match w2 {
        Wallet::Bob(b2) => {
            &&& b2 == BobWallet {
                remote_params: b2.remote_params,
                key_manager: b2.key_manager,
                ..b
            }
            &&& b2.remote_params is Some
        },
        _ => false,
    }
}

/// After a completed Reveal(Alice) on a Bob wallet: the remote parameter
/// slot and the arbitrating transaction slot are filled; nothing else
/// changed.
pub open spec fn bob_params_and_txs_stored(b: BobWallet, w2: Wallet) -> bool {
    match w2 {
        Wallet::Bob(b2) => {
            &&& b2 == BobWallet {
                remote_params: b2.remote_params,
                core_arb_txs: b2.core_arb_txs,
                key_manager: b2.key_manager,
                ..b
            }
            &&& b2.remote_params is Some
            &&& b2.core_arb_txs is Some
        },
        _ => false,
    }
}

/// After CoreArbitratingSetup was served on an Alice wallet: only the
/// refund-signatures-sent flag was raised (and the key manager may have
/// derived further keys).
pub open spec fn alice_refund_sigs_sent(a: AliceWallet, w2: Wallet) -> bool {
    match w2 {
        Wallet::Alice(a2) => a2 == AliceWallet {
            refund_sigs_sent: true,
            key_manager: a2.key_manager,
            ..a
        },
        _ => false,
    }
}

/// After RefundProcedureSignatures was served on a Bob wallet: only the
/// buy-signature-sent flag was raised (and the key manager may have derived
/// further keys).
pub open spec fn bob_buy_sig_sent(b: BobWallet, w2: Wallet) -> bool {
    match w2 {
        Wallet::Bob(b2) => b2 == BobWallet {
            buy_sig_sent: true,
            key_manager: b2.key_manager,
            ..b
        },
        _ => false,
    }
}

/// The wallet is unchanged but for the key manager, which may have derived
/// further keys during a failed signing attempt.
pub open spec fn wallet_km_refreshed(w: Wallet, w2: Wallet) -> bool {
    match (w, w2) {
        (Wallet::Alice(a), Wallet::Alice(a2)) => a2 == AliceWallet {
            key_manager: a2.key_manager,
            ..a
        },
        (Wallet::Bob(b), Wallet::Bob(b2)) => b2 == BobWallet { key_manager: b2.key_manager, ..b },
        _ => false,
    }
}

/// Effect of the terminal BuyProcedureSignature acknowledgement.
pub open spec fn apply_buy_sig(w: Wallet) -> Wallet {
    match w {
        Wallet::Alice(a) => Wallet::Alice(AliceWallet { done: true, ..a }),
        Wallet::Bob(b) => Wallet::Bob(b),
    }
}

/// Whether a commitment's role tag is the counterparty of the given local
/// swap role.
pub open spec fn commit_matches_role(c: Commit, local: SwapRole) -> bool {
    match (c, local) {
        (Commit::Alice { .. }, SwapRole::Bob) => true,
        (Commit::Bob { .. }, SwapRole::Alice) => true,
        _ => false,
    }
}

/// A freshly created wallet for the maker path: the local role is the
/// offer's maker role, the counterparty commitment is stored, all later
/// slots are empty.
pub open spec fn maker_wallet_created(w: Wallet, off: OfferInfo, c: Commit) -> bool {
    match off.maker_role {
        SwapRole::Bob => match (w, c) {
            (Wallet::Bob(b), Commit::Alice { commit, .. }) => {
                &&& b.offer == off
                &&& b.fee == FeePriority::High
                &&& b.funding is Some
                &&& b.remote_commit == Some(commit)
                &&& b.remote_params is None
                &&& b.core_arb_txs is None
                &&& !b.buy_sig_sent
            },
            _ => false,
        },
        SwapRole::Alice => match (w, c) {
            (Wallet::Alice(a), Commit::Bob { commit, .. }) => {
                &&& a.offer == off
                &&& a.fee == FeePriority::High
                &&& a.remote_commit == Some(commit)
                &&& a.remote_params is None
                &&& !a.refund_sigs_sent
                &&& !a.done
            },
            _ => false,
        },
    }
}

/// A freshly created wallet for the taker path: the local role is the
/// complement of the offer's maker role and every counterparty slot is
/// empty.
pub open spec fn taker_wallet_created(w: Wallet, off: OfferInfo) -> bool {
    match off.maker_role {
        SwapRole::Alice => match w {
            Wallet::Bob(b) => {
                &&& b.offer == off
                &&& b.fee == FeePriority::High
                &&& b.funding is Some
                &&& b.remote_commit is None
                &&& b.remote_params is None
                &&& b.core_arb_txs is None
                &&& !b.buy_sig_sent
            },
            _ => false,
        },
        SwapRole::Bob => match w {
            Wallet::Alice(a) => {
                &&& a.offer == off
                &&& a.fee == FeePriority::High
                &&& a.remote_commit is None
                &&& a.remote_params is None
                &&& !a.refund_sigs_sent
                &&& !a.done
            },
            _ => false,
        },
    }
}

/// The local parameters carried by a launch capsule match the stored wallet:
/// same parameter value, tagged with the wallet's role.
pub open spec fn launch_params_match(p: Params, w: Wallet) -> bool {
    match (p, w) {
        (Params::Alice(lp), Wallet::Alice(a)) => lp == a.local_params,
        (Params::Bob(lp), Wallet::Bob(b)) => lp == b.local_params,
        _ => false,
    }
}

/// The launch capsule emitted on wallet creation, checked against the stored
/// wallet state.
pub open spec fn launch_emitted(
    m: BusMsg,
    identity: ServiceId,
    bus_source: ServiceId,
    off: OfferInfo,
    sid: SwapId,
    trade_role: TradeRole,
    remote_commit: Option<Commit>,
    w: Wallet,
) -> bool {
    &&& m.bus == ServiceBus::Ctl
    &&& m.source == bus_source
    &&& m.dest == ServiceId::Farcasterd
    &&& match m.req {
        Request::LaunchSwap(ls) => {
            &&& ls.local_trade_role == trade_role
            &&& ls.public_offer == off
            &&& ls.swap_id == sid
            &&& ls.remote_commit == remote_commit
            &&& launch_params_match(ls.local_params, w)
            &&& (ls.funding_address is Some <==> w is Bob)
        },
        _ => false,
    }
}

/// The per-swap coordinator runtime: identity, key material and the two
/// per-swap registries.
pub struct Runtime {
    pub identity: ServiceId,
    pub wallet_token: Token,
    pub node_secrets: NodeSecrets,
    pub node_id: bitcoin::secp256k1::PublicKey,
    /// Swap id -> accumulated wallet state.
    pub wallets: Registry<Wallet>,
    /// Swap id -> at most one control request buffered until that swap's
    /// executor signals readiness.
    pub swaps: Registry<Option<Request>>,
}

/// Configuration and key material never change while requests are handled.
pub open spec fn same_config(pre: Runtime, post: Runtime) -> bool {
    &&& post.identity == pre.identity
    &&& post.wallet_token == pre.wallet_token
    &&& post.node_secrets == pre.node_secrets
    &&& post.node_id == pre.node_id
}

impl Runtime {
    /// Both registries are well formed.
    pub open spec fn wf(&self) -> bool {
        &&& self.wallets.wf()
        &&& self.swaps.wf()
    }

    /// A fresh coordinator with empty registries.
    pub fn new(
        wallet_token: Token,
        node_secrets: NodeSecrets,
        node_id: bitcoin::secp256k1::PublicKey,
    ) -> (r: Runtime)
        ensures
            r.wf(),
            r.identity == ServiceId::Wallet,
            r.wallet_token == wallet_token,
            r.node_secrets == node_secrets,
            r.node_id == node_id,
            r.wallets@ =~= Map::<SwapId, Wallet>::empty(),
            r.swaps@ =~= Map::<SwapId, Option<Request>>::empty(),
    {
        Runtime {
            identity: ServiceId::Wallet,
            wallet_token,
            node_secrets,
            node_id,
            wallets: Registry::new(),
            swaps: Registry::new(),
        }
    }

    /// The service identity of this coordinator.
    pub fn identity(&self) -> (r: ServiceId)
        ensures
            r == self.identity,
    {
        self.identity
    }

    /// Bus-level errors are already reported by the controller; propagating
    /// them would bring the whole daemon down, so they are swallowed.
    pub fn handle_err(&mut self) -> (r: Result<(), NodeError>)
        ensures
            r.is_ok(),
            *final(self) == *old(self),
    {
        Ok(())
    }

    /// Queue a control message to the orchestrator.
    pub fn send_farcasterd(&self, senders: &mut Senders, message: Request) -> (r: Result<
        (),
        NodeError,
    >)
        ensures
            r.is_ok(),
            final(senders)@ =~= old(senders)@.push(BusMsg {
                bus: ServiceBus::Ctl,
                source: self.identity,
                dest: ServiceId::Farcasterd,
                req: message,
            }),
    {
        senders.send_to(ServiceBus::Ctl, self.identity(), ServiceId::Farcasterd, message)
    }
}

impl Runtime {
    /// Queue a control message from this coordinator to a destination.
    pub fn send_ctl(&self, senders: &mut Senders, dest: ServiceId, request: Request) -> (r:
        Result<(), NodeError>)
        ensures
            r.is_ok(),
            final(senders)@ =~= old(senders)@.push(BusMsg {
                bus: ServiceBus::Ctl,
                source: self.identity,
                dest: dest,
                req: request,
            }),
    {
        senders.send_to(ServiceBus::Ctl, self.identity(), dest, request)
    }

    /// Flush the control request buffered for a swap's executor, exactly
    /// once, when that executor says hello.  Hello from anything else is
    /// only observed.
    pub fn hello(&mut self, senders: &mut Senders, source: ServiceId) -> (r: Result<
        (),
        NodeError,
    >)
        requires
            old(self).wf(),
        ensures
            final(self).wf(),
            r.is_ok(),
            same_config(*old(self), *final(self)),
            final(self).wallets == old(self).wallets,
            (match source {
                ServiceId::Swap(sid) => {
                    if old(self).swaps@.contains_key(sid) {
                        match old(self).swaps@[sid] {
                            Some(req) => {
                                &&& final(self).swaps@ =~= old(self).swaps@.insert(sid, None)
                                &&& final(senders)@ =~= old(senders)@.push(BusMsg {
                                    bus: ServiceBus::Ctl,
                                    source: old(self).identity,
                                    dest: source,
                                    req: req,
                                })
                            },
                            None => final(self).swaps == old(self).swaps
                                && final(senders)@ =~= old(senders)@,
                        }
                    } else {
                        final(self).swaps == old(self).swaps
                            && final(senders)@ =~= old(senders)@
                    }
                },
                _ => final(self).swaps == old(self).swaps && final(senders)@ =~= old(senders)@,
            }),
    {
        match source {
            ServiceId::Swap(sid) => {
                let has_pending = match self.swaps.get(sid) {
                    Some(slot) => slot.is_some(),
                    None => false,
                };
                if !has_pending {
                    return Ok(());
                }
                match self.swaps.take(sid) {
                    Some(slot) => match slot {
                        Some(req) => {
                            let ok = self.swaps.insert(sid, None);
                            proof {
                                assert(old(self).swaps@.remove(sid).insert(sid, None)
                                    =~= old(self).swaps@.insert(sid, None));
                            }
                            self.send_ctl(senders, source, req)
                        },
                        None => Ok(()),
                    },
                    None => Ok(()),
                }
            },
            _ => Ok(()),
        }
    }

    /// Token-gated disclosure of the node's key material: an equal token is
    /// answered with exactly one Keys message to the orchestrator; an
    /// unequal one fails with InvalidToken and discloses nothing.
    pub fn get_keys(&self, senders: &mut Senders, token: &Token, request_id: u64) -> (r: Result<
        (),
        NodeError,
    >)
        ensures
            (if token.0@ == self.wallet_token.0@ {
                &&& r.is_ok()
                &&& final(senders)@ =~= old(senders)@.push(BusMsg {
                    bus: ServiceBus::Ctl,
                    source: self.identity,
                    dest: ServiceId::Farcasterd,
                    req: Request::Keys(Keys(
                        self.node_secrets.peerd_secret_key,
                        self.node_secrets.node_id,
                        request_id,
                    )),
                })
            } else {
                &&& (r matches Err(NodeError::InvalidToken))
                &&& final(senders)@ =~= old(senders)@
            }),
    {
        if !token.matches(&self.wallet_token) {
            return Err(NodeError::InvalidToken);
        }
        self.send_farcasterd(
            senders,
            Request::Keys(Keys(
                engine::clone_secret_key(&self.node_secrets.peerd_secret_key),
                engine::clone_public_key(&self.node_secrets.node_id),
                request_id,
            )),
        )
    }

    /// Store an inbound MakerCommit in the matching empty commitment slot.
    /// A filled slot, a role mismatch, an unknown swap or a commitment whose
    /// id differs from the source's are logged and dropped without any
    /// mutation.
    pub fn maker_commit(&mut self, source: ServiceId, commit: Commit) -> (r: Result<
        (),
        NodeError,
    >)
        requires
            old(self).wf(),
        ensures
            final(self).wf(),
            same_config(*old(self), *final(self)),
            final(self).swaps == old(self).swaps,
            (match source {
                ServiceId::Swap(sid) => {
                    &&& r.is_ok()
                    &&& if sid == commit.spec_swap_id() && old(self).wallets@.contains_key(sid) {
                            final(self).wallets@ =~= old(self).wallets@.insert(
                                sid,
                                apply_maker_commit(old(self).wallets@[sid], commit),
                            )
                        } else {
                            final(self).wallets == old(self).wallets
                        }
                },
                _ => (r matches Err(NodeError::Farcaster(_))) && final(self).wallets == old(
                    self,
                ).wallets,
            }),
    {
        let sid = match swap_id(source) {
            Ok(s) => s,
            Err(e) => {
                return Err(e);
            },
        };
        if sid != commit.swap_id() {
            return Ok(());
        }
        match self.wallets.take(sid) {
            None => Ok(()),
            Some(w) => {
                let w2 = step_maker_commit(w, commit);
                let ok = self.wallets.insert(sid, w2);
                proof {
                    assert(old(self).wallets@.remove(sid).insert(
                        sid,
                        apply_maker_commit(old(self).wallets@[sid], commit),
                    ) =~= old(self).wallets@.insert(
                        sid,
                        apply_maker_commit(old(self).wallets@[sid], commit),
                    ));
                }
                Ok(())
            },
        }
    }

    /// Terminal acknowledgement of a BuyProcedureSignature for the swap's
    /// Alice wallet.  Verifying the signature and publishing the lock
    /// transaction are an explicit extension point, deliberately not
    /// completed here.
    pub fn buy_procedure_signature(&mut self, source: ServiceId) -> (r: Result<(), NodeError>)
        requires
            old(self).wf(),
        ensures
            final(self).wf(),
            same_config(*old(self), *final(self)),
            final(self).swaps == old(self).swaps,
            (match source {
                ServiceId::Swap(sid) => {
                    &&& r.is_ok()
                    &&& if old(self).wallets@.contains_key(sid) {
                            final(self).wallets@ =~= old(self).wallets@.insert(
                                sid,
                                apply_buy_sig(old(self).wallets@[sid]),
                            )
                        } else {
                            final(self).wallets == old(self).wallets
                        }
                },
                _ => (r matches Err(NodeError::Farcaster(_))) && final(self).wallets == old(
                    self,
                ).wallets,
            }),
    {
        let sid = match swap_id(source) {
            Ok(s) => s,
            Err(e) => {
                return Err(e);
            },
        };
        match self.wallets.take(sid) {
            None => Ok(()),
            Some(w) => {
                let w2 = match w {
                    Wallet::Alice(a) => Wallet::Alice(AliceWallet { done: true, ..a }),
                    Wallet::Bob(b) => Wallet::Bob(b),
                };
                let ok = self.wallets.insert(sid, w2);
                proof {
                    assert(old(self).wallets@.remove(sid).insert(
                        sid,
                        apply_buy_sig(old(self).wallets@[sid]),
                    ) =~= old(self).wallets@.insert(
                        sid,
                        apply_buy_sig(old(self).wallets@[sid]),
                    ));
                }
                Ok(())
            },
        }
    }
}

/// Executable mirror of [`apply_maker_commit`].
fn step_maker_commit(w: Wallet, c: Commit) -> (r: Wallet)
    ensures
        r == apply_maker_commit(w, c),
{
    match w {
        Wallet::Alice(a) => match c {
            Commit::Bob { commit, .. } => {
                if a.remote_commit.is_none() {
                    Wallet::Alice(AliceWallet { remote_commit: Some(commit), ..a })
                } else {
                    Wallet::Alice(a)
                }
            },
            _ => Wallet::Alice(a),
        },
        Wallet::Bob(b) => match c {
            Commit::Alice { commit, .. } => {
                if b.remote_commit.is_none() {
                    Wallet::Bob(BobWallet { remote_commit: Some(commit), ..b })
                } else {
                    Wallet::Bob(b)
                }
            },
            _ => Wallet::Bob(b),
        },
    }
}

/// The wallet's external chain address: the parse of the fixed text
/// [`EXTERNAL_ADDRESS`].  Succeeds exactly when that constant parses, a
/// deterministic fact of the text; the failure is a domain error.
pub fn address() -> (r: Result<bitcoin::Address, NodeError>)
    ensures
        r.is_ok() == crate::engine::btc_address_ok(EXTERNAL_ADDRESS@),
        r.is_err() ==> (r matches Err(NodeError::Farcaster(_))),
{
    match engine::parse_btc_address(EXTERNAL_ADDRESS) {
        Some(a) => Ok(a),
        None => Err(NodeError::Farcaster("external address is not parsable".to_string())),
    }
}

/// Create the funding handle for a Bob-role swap from the node's wallet
/// seed.  Succeeds exactly when the seed bytes encode a valid funding secret
/// key, a deterministic fact of the bytes; the failure is a domain error.
pub fn create_funding(node_secrets: &NodeSecrets) -> (r: Result<
    crate::engine::FundingHandle,
    NodeError,
>)
    ensures
        r.is_ok() == crate::engine::seed_key_ok(node_secrets.wallet_seed@),
        (r matches Ok(f) ==> f.seen_tx() is None),
        r.is_err() ==> (r matches Err(NodeError::Farcaster(_))),
{
    match engine::derive_funding_pubkey(&node_secrets.wallet_seed) {
        None => Err(NodeError::Farcaster("impossible to initialize funding tx".to_string())),
        Some(pk) => match engine::funding_initialize(pk, Network::Testnet) {
            Ok(f) => Ok(crate::engine::FundingHandle::new(f)),
            Err(e) => Err(NodeError::Core(e)),
        },
    }
}

/// Record a funding transaction, handed in as raw consensus bytes, on the
/// funding handle.  Succeeds exactly when the bytes decode as a chain
/// transaction.
pub fn funding_update(
    funding: &mut crate::engine::FundingHandle,
    raw_tx: &Vec<u8>,
) -> (r: Result<(), NodeError>)
    ensures
        r.is_ok() <==> crate::engine::tx_decode_ok(raw_tx@),
        r.is_ok() ==> final(funding).seen_tx() is Some,
        r.is_err() ==> *final(funding) == *old(funding),
{
    match engine::deserialize_tx(raw_tx) {
        None => Err(NodeError::Farcaster("could not update funding".to_string())),
        Some(tx) => match funding.record_seen(tx) {
            Ok(()) => Ok(()),
            Err(e) => Err(NodeError::Core(e)),
        },
    }
}

impl Runtime {
    /// Handle a counterparty's Reveal.  Reveal(Bob) reaches this wallet's
    /// Alice side: the revealed parameters are verified against the stored
    /// commitment and stored only when verification succeeds; a failure is a
    /// hard error that mutates nothing.  Reveal(Alice) reaches the Bob side:
    /// the parameters are stored and the core arbitrating transactions are
    /// computed, stored and answered with a CoreArbitratingSetup.
    /// Structurally wrong states are logged and dropped.
    pub fn handle_reveal(&mut self, senders: &mut Senders, source: ServiceId, msg: Reveal) -> (r: Result<
        (),
        NodeError,
    >)
        requires
            old(self).wf(),
        ensures
            final(self).wf(),
            same_config(*old(self), *final(self)),
            final(self).swaps == old(self).swaps,
            (match source {
                ServiceId::Swap(sid) => (match msg {
                    Reveal::Bob(_) => {
                        &&& final(senders)@ =~= old(senders)@
                        &&& (if old(self).wallets@.contains_key(sid) {
                            match old(self).wallets@[sid] {
                                Wallet::Alice(a) => {
                                    if a.remote_commit is Some && a.remote_params is None {
                                        if r.is_ok() {
                                            &&& final(self).wallets@.contains_key(sid)
                                            &&& final(self).wallets@ =~= old(
                                                self,
                                            ).wallets@.insert(sid, final(self).wallets@[sid])
                                            &&& alice_params_stored(
                                                a,
                                                final(self).wallets@[sid],
                                            )
                                        } else {
                                            final(self).wallets == old(self).wallets
                                        }
                                    } else {
                                        r.is_ok() && final(self).wallets == old(self).wallets
                                    }
                                },
                                _ => r.is_ok() && final(self).wallets == old(self).wallets,
                            }
                        } else {
                            r.is_ok() && final(self).wallets == old(self).wallets
                        })
                    },
                    Reveal::Alice(_) => {
                        if old(self).wallets@.contains_key(sid) {
                            match old(self).wallets@[sid] {
                                Wallet::Bob(b) => {
                                    if b.funding is Some && b.remote_commit is Some
                                        && b.remote_params is None && b.core_arb_txs is None {
                                        if r.is_ok() {
                                            &&& final(self).wallets@.contains_key(sid)
                                            &&& final(self).wallets@ =~= old(
                                                self,
                                            ).wallets@.insert(sid, final(self).wallets@[sid])
                                            &&& bob_params_and_txs_stored(
                                                b,
                                                final(self).wallets@[sid],
                                            )
                                            &&& final(senders)@.len() == old(senders)@.len() + 1
                                            &&& final(senders)@.subrange(
                                                0,
                                                old(senders)@.len() as int,
                                            ) =~= old(senders)@
                                            &&& setup_emitted(
                                                final(senders)@.last(),
                                                old(self).identity,
                                                source,
                                            )
                                        } else {
                                            &&& final(self).wallets@.contains_key(sid)
                                            &&& final(self).wallets@ =~= old(
                                                self,
                                            ).wallets@.insert(sid, final(self).wallets@[sid])
                                            &&& bob_params_stored(b, final(self).wallets@[sid])
                                            &&& final(senders)@ =~= old(senders)@
                                        }
                                    } else {
                                        r.is_ok() && final(self).wallets == old(self).wallets
                                            && final(senders)@ =~= old(senders)@
                                    }
                                },
                                _ => r.is_ok() && final(self).wallets == old(self).wallets
                                    && final(senders)@ =~= old(senders)@,
                            }
                        } else {
                            r.is_ok() && final(self).wallets == old(self).wallets
                                && final(senders)@ =~= old(senders)@
                        }
                    },
                }),
                _ => (r matches Err(NodeError::Farcaster(_))) && final(self).wallets == old(
                    self,
                ).wallets && final(senders)@ =~= old(senders)@,
            }),
    {
        let sid = match swap_id(source) {
            Ok(s) => s,
            Err(e) => {
                return Err(e);
            },
        };
        match msg {
            Reveal::Bob(rv) => {
                match self.wallets.get(sid) {
                    Some(w) => match w {
                        Wallet::Alice(a) => {
                            if a.remote_params.is_some() {
                                return Ok(());
                            }
                            match &a.remote_commit {
                                Some(c) => {
                                    match engine::verify_bob_reveal(c, &rv) {
                                        Ok(()) => {},
                                        Err(e) => {
                                            return Err(NodeError::Core(e));
                                        },
                                    }
                                },
                                None => {
                                    return Ok(());
                                },
                            }
                        },
                        _ => {
                            return Ok(());
                        },
                    },
                    None => {
                        return Ok(());
                    },
                }
                // The commitment is present, the slot empty and the reveal
                // verified; store the parameters.
                match self.wallets.take(sid) {
                    Some(w) => match w {
                        Wallet::Alice(a) => {
                            let p = engine::reveal_bob_into_parameters(rv);
                            let a2 = AliceWallet { remote_params: Some(p), ..a };
                            let ok = self.wallets.insert(sid, Wallet::Alice(a2));
                            Ok(())
                        },
                        Wallet::Bob(_) => vstd::pervasive::unreached(),
                    },
                    None => vstd::pervasive::unreached(),
                }
            },
            Reveal::Alice(rv) => {
                match self.wallets.get(sid) {
                    Some(w) => match w {
                        Wallet::Bob(b) => {
                            if b.funding.is_none() || b.remote_commit.is_none()
                                || b.remote_params.is_some() || b.core_arb_txs.is_some() {
                                return Ok(());
                            }
                        },
                        _ => {
                            return Ok(());
                        },
                    },
                    None => {
                        return Ok(());
                    },
                }
                match self.wallets.take(sid) {
                    Some(w) => match w {
                        Wallet::Bob(b) => {
                            let mut b = b;
                            let p = engine::reveal_alice_into_parameters(rv);
                            let arb = engine::arb_params(&b.offer.deal);
                            let core_r = match &b.funding {
                                Some(f) => engine::core_arbitrating_transactions(
                                    &b.refund_address,
                                    b.fee,
                                    &p,
                                    &b.local_params,
                                    f,
                                    arb,
                                ),
                                None => vstd::pervasive::unreached(),
                            };
                            match core_r {
                                Ok(core) => {
                                    let sig_r = engine::bob_cosign_arbitrating_cancel(
                                        &b.refund_address,
                                        b.fee,
                                        &mut b.key_manager,
                                        &core,
                                    );
                                    match sig_r {
                                        Ok(sig) => {
                                            let setup = engine::into_arbitrating_setup(
                                                sid,
                                                &core,
                                                sig,
                                            );
                                            let b2 = BobWallet {
                                                remote_params: Some(p),
                                                core_arb_txs: Some(core),
                                                ..b
                                            };
                                            let ok = self.wallets.insert(sid, Wallet::Bob(b2));
                                            self.send_ctl(
                                                senders,
                                                source,
                                                Request::Protocol(Msg::CoreArbitratingSetup(
                                                    setup,
                                                )),
                                            )
                                        },
                                        Err(e) => {
                                            let b2 = BobWallet {
                                                remote_params: Some(p),
                                                ..b
                                            };
                                            let ok = self.wallets.insert(sid, Wallet::Bob(b2));
                                            Err(NodeError::Core(e))
                                        },
                                    }
                                },
                                Err(e) => {
                                    let b2 = BobWallet { remote_params: Some(p), ..b };
                                    let ok = self.wallets.insert(sid, Wallet::Bob(b2));
                                    Err(NodeError::Core(e))
                                },
                            }
                        },
                        Wallet::Alice(_) => vstd::pervasive::unreached(),
                    },
                    None => vstd::pervasive::unreached(),
                }
            },
        }
    }
}

/// A CoreArbitratingSetup answer queued for the swap's executor.
pub open spec fn setup_emitted(m: BusMsg, identity: ServiceId, dest: ServiceId) -> bool {
    &&& m.bus == ServiceBus::Ctl
    &&& m.source == identity
    &&& m.dest == dest
    &&& (m.req matches Request::Protocol(Msg::CoreArbitratingSetup(_)))
}

/// A RefundProcedureSignatures answer queued for the swap's executor.
pub open spec fn refund_sigs_emitted(m: BusMsg, identity: ServiceId, dest: ServiceId) -> bool {
    &&& m.bus == ServiceBus::Ctl
    &&& m.source == identity
    &&& m.dest == dest
    &&& (m.req matches Request::Protocol(Msg::RefundProcedureSignatures(_)))
}

/// A BuyProcedureSignature answer queued for the swap's executor.
pub open spec fn buy_sig_emitted(m: BusMsg, identity: ServiceId, dest: ServiceId) -> bool {
    &&& m.bus == ServiceBus::Ctl
    &&& m.source == identity
    &&& m.dest == dest
    &&& (m.req matches Request::Protocol(Msg::BuyProcedureSignature(_)))
}

impl Runtime {
    /// Serve an inbound CoreArbitratingSetup on this wallet's Alice side:
    /// produce the adaptor refund signature and the cancel cosignature and
    /// answer with RefundProcedureSignatures.  Mismatched preconditions are
    /// a domain error; a failed signing step propagates and leaves every
    /// slot as it was.
    pub fn core_arbitrating_setup(
        &mut self,
        senders: &mut Senders,
        source: ServiceId,
        setup: farcaster_core::swap::btcxmr::message::CoreArbitratingSetup,
    ) -> (r: Result<(), NodeError>)
        requires
            old(self).wf(),
        ensures
            final(self).wf(),
            same_config(*old(self), *final(self)),
            final(self).swaps == old(self).swaps,
            (match source {
                ServiceId::Swap(sid) => {
                    if alice_awaiting_setup(old(self).wallets@, sid) {
                        if r.is_ok() {
                            &&& final(self).wallets@.contains_key(sid)
                            &&& final(self).wallets@ =~= old(self).wallets@.insert(
                                sid,
                                final(self).wallets@[sid],
                            )
                            &&& alice_refund_sigs_sent(
                                alice_of(old(self).wallets@[sid]),
                                final(self).wallets@[sid],
                            )
                            &&& final(senders)@.len() == old(senders)@.len() + 1
                            &&& final(senders)@.subrange(0, old(senders)@.len() as int)
                                =~= old(senders)@
                            &&& refund_sigs_emitted(
                                final(senders)@.last(),
                                old(self).identity,
                                source,
                            )
                        } else {
                            &&& final(self).wallets@ =~= old(self).wallets@.insert(
                                sid,
                                final(self).wallets@[sid],
                            )
                            &&& wallet_km_refreshed(
                                old(self).wallets@[sid],
                                final(self).wallets@[sid],
                            )
                            &&& final(senders)@ =~= old(senders)@
                        }
                    } else {
                        (r matches Err(NodeError::Farcaster(_))) && final(self).wallets == old(
                            self,
                        ).wallets && final(senders)@ =~= old(senders)@
                    }
                },
                _ => (r matches Err(NodeError::Farcaster(_))) && final(self).wallets == old(
                    self,
                ).wallets && final(senders)@ =~= old(senders)@,
            }),
    {
        let sid = match swap_id(source) {
            Ok(s) => s,
            Err(e) => {
                return Err(e);
            },
        };
        match self.wallets.get(sid) {
            Some(w) => match w {
                Wallet::Alice(a) => {
                    if a.remote_params.is_none() {
                        return Err(NodeError::Farcaster(
                            "counterparty parameters are not known yet".to_string(),
                        ));
                    }
                    if !engine::params_punish_present(&a.local_params) {
                        proof {
                            lemma_wallets_untouched_is_refreshed(self.wallets@, sid);
                        }
                        return Err(NodeError::Farcaster(
                            "own parameters lack the punish key".to_string(),
                        ));
                    }
                },
                _ => {
                    return Err(NodeError::Farcaster(
                        "no Alice wallet for this swap".to_string(),
                    ));
                },
            },
            None => {
                return Err(NodeError::Farcaster("no Alice wallet for this swap".to_string()));
            },
        }
        // The engine's validation indexes the setup's partial transactions
        // without checking their shape; a malformed message is dropped here
        // with a domain error instead of reaching it.
        let txs = engine::setup_into_arbitrating_tx(&setup);
        if !engine::core_txs_shape(&txs) {
            proof {
                lemma_wallets_untouched_is_refreshed(self.wallets@, sid);
            }
            return Err(NodeError::Farcaster(
                "malformed core arbitrating transactions".to_string(),
            ));
        }
        match self.wallets.take(sid) {
            Some(w) => match w {
                Wallet::Alice(a) => {
                    let mut a = a;
                    let arb = engine::arb_params(&a.offer.deal);
                    let refund_r = match &a.remote_params {
                        Some(bp) => engine::alice_sign_adaptor_refund(
                            &a.destination_address,
                            a.fee,
                            &mut a.key_manager,
                            &a.local_params,
                            bp,
                            &txs,
                            arb,
                        ),
                        None => vstd::pervasive::unreached(),
                    };
                    let refund_sig = match refund_r {
                        Ok(s) => s,
                        Err(e) => {
                            let ok = self.wallets.insert(sid, Wallet::Alice(a));
                            return Err(NodeError::Core(e));
                        },
                    };
                    let arb2 = engine::arb_params(&a.offer.deal);
                    let cancel_r = match &a.remote_params {
                        Some(bp) => engine::alice_cosign_arbitrating_cancel(
                            &a.destination_address,
                            a.fee,
                            &mut a.key_manager,
                            &a.local_params,
                            bp,
                            &txs,
                            arb2,
                        ),
                        None => vstd::pervasive::unreached(),
                    };
                    let cancel_sig = match cancel_r {
                        Ok(s) => s,
                        Err(e) => {
                            let ok = self.wallets.insert(sid, Wallet::Alice(a));
                            return Err(NodeError::Core(e));
                        },
                    };
                    let sigs = engine::refund_procedure_signatures_msg(sid, cancel_sig, refund_sig);
                    let a2 = AliceWallet { refund_sigs_sent: true, ..a };
                    let ok = self.wallets.insert(sid, Wallet::Alice(a2));
                    self.send_ctl(
                        senders,
                        source,
                        Request::Protocol(Msg::RefundProcedureSignatures(sigs)),
                    )
                },
                Wallet::Bob(_) => vstd::pervasive::unreached(),
            },
            None => vstd::pervasive::unreached(),
        }
    }

    /// Serve inbound RefundProcedureSignatures on this wallet's Bob side:
    /// produce the adaptor buy signature and the arbitrating lock signature
    /// and answer with BuyProcedureSignature.  Mismatched preconditions are
    /// a domain error; a failed signing step propagates and leaves every
    /// slot as it was.
    pub fn refund_procedure_signatures(
        &mut self,
        senders: &mut Senders,
        source: ServiceId,
        sigs: farcaster_core::swap::btcxmr::message::RefundProcedureSignatures,
    ) -> (r: Result<(), NodeError>)
        requires
            old(self).wf(),
        ensures
            final(self).wf(),
            same_config(*old(self), *final(self)),
            final(self).swaps == old(self).swaps,
            (match source {
                ServiceId::Swap(sid) => {
                    if bob_awaiting_refund_sigs(old(self).wallets@, sid) {
                        if r.is_ok() {
                            &&& final(self).wallets@.contains_key(sid)
                            &&& final(self).wallets@ =~= old(self).wallets@.insert(
                                sid,
                                final(self).wallets@[sid],
                            )
                            &&& bob_buy_sig_sent(
                                bob_of(old(self).wallets@[sid]),
                                final(self).wallets@[sid],
                            )
                            &&& final(senders)@.len() == old(senders)@.len() + 1
                            &&& final(senders)@.subrange(0, old(senders)@.len() as int)
                                =~= old(senders)@
                            &&& buy_sig_emitted(
                                final(senders)@.last(),
                                old(self).identity,
                                source,
                            )
                        } else {
                            &&& final(self).wallets@ =~= old(self).wallets@.insert(
                                sid,
                                final(self).wallets@[sid],
                            )
                            &&& wallet_km_refreshed(
                                old(self).wallets@[sid],
                                final(self).wallets@[sid],
                            )
                            &&& final(senders)@ =~= old(senders)@
                        }
                    } else {
                        (r matches Err(NodeError::Farcaster(_))) && final(self).wallets == old(
                            self,
                        ).wallets && final(senders)@ =~= old(senders)@
                    }
                },
                _ => (r matches Err(NodeError::Farcaster(_))) && final(self).wallets == old(
                    self,
                ).wallets && final(senders)@ =~= old(senders)@,
            }),
    {
        let sid = match swap_id(source) {
            Ok(s) => s,
            Err(e) => {
                return Err(e);
            },
        };
        match self.wallets.get(sid) {
            Some(w) => match w {
                Wallet::Bob(b) => {
                    if b.funding.is_none() || b.remote_params.is_none()
                        || b.core_arb_txs.is_none() {
                        return Err(NodeError::Farcaster(
                            "unknown wallet and swap id".to_string(),
                        ));
                    }
                    // The stored bundle and counterparty parameters are
                    // engine-built and carry the shape the signing calls
                    // assume; re-establish that here before signing.
                    let shape_ok = match &b.core_arb_txs {
                        Some(c) => engine::core_txs_shape(c),
                        None => false,
                    };
                    let punish_ok = match &b.remote_params {
                        Some(p) => engine::params_punish_present(p),
                        None => false,
                    };
                    if !shape_ok || !punish_ok {
                        proof {
                            lemma_wallets_untouched_is_refreshed(self.wallets@, sid);
                        }
                        return Err(NodeError::Farcaster(
                            "malformed core arbitrating transactions".to_string(),
                        ));
                    }
                },
                _ => {
                    return Err(NodeError::Farcaster("unknown wallet and swap id".to_string()));
                },
            },
            None => {
                return Err(NodeError::Farcaster("unknown wallet and swap id".to_string()));
            },
        }
        match self.wallets.take(sid) {
            Some(w) => match w {
                Wallet::Bob(b) => {
                    let mut b = b;
                    let arb = engine::arb_params(&b.offer.deal);
                    let buy_r = match (&b.remote_params, &b.core_arb_txs) {
                        (Some(ap), Some(core)) => engine::bob_sign_adaptor_buy(
                            sid,
                            &b.refund_address,
                            b.fee,
                            &mut b.key_manager,
                            ap,
                            &b.local_params,
                            core,
                            arb,
                        ),
                        _ => vstd::pervasive::unreached(),
                    };
                    let buy = match buy_r {
                        Ok(m) => m,
                        Err(e) => {
                            let ok = self.wallets.insert(sid, Wallet::Bob(b));
                            return Err(NodeError::Core(e));
                        },
                    };
                    let lock_r = match &b.core_arb_txs {
                        Some(core) => engine::bob_sign_arbitrating_lock(
                            &b.refund_address,
                            b.fee,
                            &mut b.key_manager,
                            core,
                        ),
                        None => vstd::pervasive::unreached(),
                    };
                    match lock_r {
                        Ok(_lock_sig) => {},
                        Err(e) => {
                            let ok = self.wallets.insert(sid, Wallet::Bob(b));
                            return Err(NodeError::Core(e));
                        },
                    }
                    let b2 = BobWallet { buy_sig_sent: true, ..b };
                    let ok = self.wallets.insert(sid, Wallet::Bob(b2));
                    self.send_ctl(
                        senders,
                        source,
                        Request::Protocol(Msg::BuyProcedureSignature(buy)),
                    )
                },
                Wallet::Alice(_) => vstd::pervasive::unreached(),
            },
            None => vstd::pervasive::unreached(),
        }
    }
}


/// An untouched registry satisfies the failed-signing postcondition shape:
/// re-inserting the stored value changes nothing, and a wallet is its own
/// key-manager refresh.
proof fn lemma_wallets_untouched_is_refreshed(m: Map<SwapId, Wallet>, sid: SwapId)
    requires
        m.contains_key(sid),
    ensures
        m =~= m.insert(sid, m[sid]),
        wallet_km_refreshed(m[sid], m[sid]),
{
    match m[sid] {
        Wallet::Alice(a) => {
            assert(a == AliceWallet { key_manager: a.key_manager, ..a });
        },
        Wallet::Bob(b) => {
            assert(b == BobWallet { key_manager: b.key_manager, ..b });
        },
    }
}

/// An Alice wallet awaiting the arbitrating setup: counterparty parameters
/// known.
pub open spec fn alice_awaiting_setup(m: Map<SwapId, Wallet>, sid: SwapId) -> bool {
    &&& m.contains_key(sid)
    &&& match m[sid] {
        Wallet::Alice(a) => a.remote_params is Some,
        _ => false,
    }
}

/// A Bob wallet awaiting the refund signatures: funding, counterparty
/// parameters and core transactions all known.
pub open spec fn bob_awaiting_refund_sigs(m: Map<SwapId, Wallet>, sid: SwapId) -> bool {
    &&& m.contains_key(sid)
    &&& match m[sid] {
        Wallet::Bob(b) => b.funding is Some && b.remote_params is Some && b.core_arb_txs is Some,
        _ => false,
    }
}

/// The Alice state inside a wallet known to be Alice-sided.
pub open spec fn alice_of(w: Wallet) -> AliceWallet
    recommends
        w is Alice,
{
    match w {
        Wallet::Alice(a) => a,
        Wallet::Bob(_) => arbitrary(),
    }
}

/// The Bob state inside a wallet known to be Bob-sided.
pub open spec fn bob_of(w: Wallet) -> BobWallet
    recommends
        w is Bob,
{
    match w {
        Wallet::Bob(b) => b,
        Wallet::Alice(_) => arbitrary(),
    }
}

impl Runtime {
    /// Begin a swap as maker: first TakerCommit for a swap id creates the
    /// wallet whose role is the offer's maker role, stores the taker's
    /// commitment unverified, and asks the orchestrator to launch the
    /// per-swap executor.  A live wallet for the id, or a commitment whose
    /// role does not match, is rejected as a domain error before any state
    /// is created; a failed engine step likewise leaves everything
    /// unchanged.
    pub fn taker_commit(
        &mut self,
        senders: &mut Senders,
        off: OfferInfo,
        commit: Commit,
        sid: SwapId,
    ) -> (r: Result<(), NodeError>)
        requires
            old(self).wf(),
        ensures
            final(self).wf(),
            same_config(*old(self), *final(self)),
            (if old(self).wallets@.contains_key(sid) {
                &&& (r matches Err(NodeError::Farcaster(_)))
                &&& final(self).wallets == old(self).wallets
                &&& final(self).swaps == old(self).swaps
                &&& final(senders)@ =~= old(senders)@
            } else if !commit_matches_role(commit, off.maker_role) {
                &&& (r matches Err(NodeError::Farcaster(_)))
                &&& final(self).wallets == old(self).wallets
                &&& final(self).swaps == old(self).swaps
                &&& final(senders)@ =~= old(senders)@
            } else if r.is_ok() {
                &&& final(self).wallets@.contains_key(sid)
                &&& final(self).wallets@ =~= old(self).wallets@.insert(
                    sid,
                    final(self).wallets@[sid],
                )
                &&& maker_wallet_created(final(self).wallets@[sid], off, commit)
                &&& (off.maker_role == SwapRole::Bob ==> final(self).swaps@ =~= old(
                    self,
                ).swaps@.insert(sid, None))
                &&& (off.maker_role == SwapRole::Alice ==> final(self).swaps == old(self).swaps)
                &&& final(senders)@.len() == old(senders)@.len() + 1
                &&& final(senders)@.subrange(0, old(senders)@.len() as int) =~= old(senders)@
                &&& launch_emitted(
                    final(senders)@.last(),
                    old(self).identity,
                    old(self).identity,
                    off,
                    sid,
                    TradeRole::Maker,
                    Some(commit),
                    final(self).wallets@[sid],
                )
            } else {
                &&& final(self).wallets == old(self).wallets
                &&& final(self).swaps == old(self).swaps
                &&& final(senders)@ =~= old(senders)@
            }),
    {
        if self.wallets.contains(sid) {
            return Err(NodeError::Farcaster("wallet already exists".to_string()));
        }
        match off.maker_role {
            SwapRole::Bob => {
                let payload = match &commit {
                    Commit::Alice { commit: c, .. } => engine::clone_alice_commit(c),
                    Commit::Bob { .. } => {
                        return Err(NodeError::Farcaster(
                            "commitment variant does not match the resolved role".to_string(),
                        ));
                    },
                };
                let addr = match address() {
                    Ok(a) => a,
                    Err(e) => {
                        return Err(e);
                    },
                };
                let mut km = match engine::key_manager_new(&self.node_secrets.wallet_seed, 0) {
                    Ok(k) => k,
                    Err(e) => {
                        return Err(NodeError::Core(e));
                    },
                };
                let local_params = match engine::bob_generate_parameters(
                    &addr,
                    FeePriority::High,
                    &mut km,
                    &off.deal,
                ) {
                    Ok(p) => p,
                    Err(e) => {
                        return Err(NodeError::Core(e));
                    },
                };
                let funding = match create_funding(&self.node_secrets) {
                    Ok(f) => f,
                    Err(e) => {
                        return Err(e);
                    },
                };
                let funding_addr = match engine::funding_address(&funding) {
                    Ok(a) => a,
                    Err(e) => {
                        return Err(NodeError::Core(e));
                    },
                };
                let peer = engine::deal_peer(&off.deal);
                let launch_off = engine::clone_offer(&off);
                let launch_params = engine::clone_parameters(&local_params);
                let w = Wallet::Bob(BobWallet {
                    refund_address: addr,
                    fee: FeePriority::High,
                    local_params,
                    key_manager: km,
                    offer: off,
                    funding: Some(funding),
                    remote_commit: Some(payload),
                    remote_params: None,
                    core_arb_txs: None,
                    buy_sig_sent: false,
                });
                let ok = self.wallets.insert(sid, w);
                let _ = self.swaps.take(sid);
                let ok2 = self.swaps.insert(sid, None);
                proof {
                    assert(old(self).swaps@.remove(sid).insert(sid, None) =~= old(
                        self,
                    ).swaps@.insert(sid, None));
                }
                self.send_ctl(
                    senders,
                    ServiceId::Farcasterd,
                    Request::LaunchSwap(LaunchSwap {
                        peer,
                        local_trade_role: TradeRole::Maker,
                        public_offer: launch_off,
                        local_params: Params::Bob(launch_params),
                        swap_id: sid,
                        remote_commit: Some(commit),
                        funding_address: Some(funding_addr),
                    }),
                )
            },
            SwapRole::Alice => {
                let payload = match &commit {
                    Commit::Bob { commit: c, .. } => engine::clone_bob_commit(c),
                    Commit::Alice { .. } => {
                        return Err(NodeError::Farcaster(
                            "commitment variant does not match the resolved role".to_string(),
                        ));
                    },
                };
                let addr = match address() {
                    Ok(a) => a,
                    Err(e) => {
                        return Err(e);
                    },
                };
                let mut km = match engine::key_manager_new(&self.node_secrets.wallet_seed, 0) {
                    Ok(k) => k,
                    Err(e) => {
                        return Err(NodeError::Core(e));
                    },
                };
                let local_params = match engine::alice_generate_parameters(
                    &addr,
                    FeePriority::High,
                    &mut km,
                    &off.deal,
                ) {
                    Ok(p) => p,
                    Err(e) => {
                        return Err(NodeError::Core(e));
                    },
                };
                let peer = engine::deal_peer(&off.deal);
                let launch_off = engine::clone_offer(&off);
                let launch_params = engine::clone_parameters(&local_params);
                let w = Wallet::Alice(AliceWallet {
                    destination_address: addr,
                    fee: FeePriority::High,
                    local_params,
                    key_manager: km,
                    offer: off,
                    remote_commit: Some(payload),
                    remote_params: None,
                    refund_sigs_sent: false,
                    done: false,
                });
                let ok = self.wallets.insert(sid, w);
                self.send_ctl(
                    senders,
                    ServiceId::Farcasterd,
                    Request::LaunchSwap(LaunchSwap {
                        peer,
                        local_trade_role: TradeRole::Maker,
                        public_offer: launch_off,
                        local_params: Params::Alice(launch_params),
                        swap_id: sid,
                        remote_commit: Some(commit),
                        funding_address: None,
                    }),
                )
            },
        }
    }

    /// Begin a swap as taker of an offer: draw a fresh swap id, create the
    /// wallet whose role is the complement of the offer's maker role, and
    /// ask the orchestrator to launch the per-swap executor.  No commitment
    /// is known yet.  On success the fresh swap id is returned.
    pub fn take_offer(&mut self, senders: &mut Senders, source: ServiceId, off: OfferInfo) -> (r:
        Result<SwapId, NodeError>)
        requires
            old(self).wf(),
        ensures
            final(self).wf(),
            same_config(*old(self), *final(self)),
            (match r {
                Ok(sid) => {
                    &&& !old(self).wallets@.contains_key(sid)
                    &&& final(self).wallets@.contains_key(sid)
                    &&& final(self).wallets@ =~= old(self).wallets@.insert(
                        sid,
                        final(self).wallets@[sid],
                    )
                    &&& taker_wallet_created(final(self).wallets@[sid], off)
                    &&& final(self).swaps@ =~= old(self).swaps@.insert(sid, None)
                    &&& final(senders)@.len() == old(senders)@.len() + 1
                    &&& final(senders)@.subrange(0, old(senders)@.len() as int)
                        =~= old(senders)@
                    &&& launch_emitted(
                        final(senders)@.last(),
                        old(self).identity,
                        source,
                        off,
                        sid,
                        TradeRole::Taker,
                        None,
                        final(self).wallets@[sid],
                    )
                },
                Err(_) => {
                    &&& final(self).wallets == old(self).wallets
                    &&& final(self).swaps == old(self).swaps
                    &&& final(senders)@ =~= old(senders)@
                },
            }),
    {
        let sid = engine::random_swap_id();
        if self.wallets.contains(sid) {
            return Err(NodeError::Farcaster("wallet already exists".to_string()));
        }
        let taker_role = off.maker_role.other();
        let addr = match address() {
            Ok(a) => a,
            Err(e) => {
                return Err(e);
            },
        };
        let mut km = match engine::key_manager_new(&self.node_secrets.wallet_seed, 0) {
            Ok(k) => k,
            Err(e) => {
                return Err(NodeError::Core(e));
            },
        };
        match taker_role {
            SwapRole::Bob => {
                let local_params = match engine::bob_generate_parameters(
                    &addr,
                    FeePriority::High,
                    &mut km,
                    &off.deal,
                ) {
                    Ok(p) => p,
                    Err(e) => {
                        return Err(NodeError::Core(e));
                    },
                };
                let funding = match create_funding(&self.node_secrets) {
                    Ok(f) => f,
                    Err(e) => {
                        return Err(e);
                    },
                };
                let funding_addr = match engine::funding_address(&funding) {
                    Ok(a) => a,
                    Err(e) => {
                        return Err(NodeError::Core(e));
                    },
                };
                let peer = engine::deal_peer(&off.deal);
                let launch_off = engine::clone_offer(&off);
                let launch_params = engine::clone_parameters(&local_params);
                let w = Wallet::Bob(BobWallet {
                    refund_address: addr,
                    fee: FeePriority::High,
                    local_params,
                    key_manager: km,
                    offer: off,
                    funding: Some(funding),
                    remote_commit: None,
                    remote_params: None,
                    core_arb_txs: None,
                    buy_sig_sent: false,
                });
                let ok = self.wallets.insert(sid, w);
                let _ = self.swaps.take(sid);
                let ok2 = self.swaps.insert(sid, None);
                proof {
                    assert(old(self).swaps@.remove(sid).insert(sid, None) =~= old(
                        self,
                    ).swaps@.insert(sid, None));
                }
                let sent = senders.send_to(
                    ServiceBus::Ctl,
                    source,
                    ServiceId::Farcasterd,
                    Request::LaunchSwap(LaunchSwap {
                        peer,
                        local_trade_role: TradeRole::Taker,
                        public_offer: launch_off,
                        local_params: Params::Bob(launch_params),
                        swap_id: sid,
                        remote_commit: None,
                        funding_address: Some(funding_addr),
                    }),
                );
                match sent {
                    Ok(()) => Ok(sid),
                    Err(_) => vstd::pervasive::unreached(),
                }
            },
            SwapRole::Alice => {
                let local_params = match engine::alice_generate_parameters(
                    &addr,
                    FeePriority::High,
                    &mut km,
                    &off.deal,
                ) {
                    Ok(p) => p,
                    Err(e) => {
                        return Err(NodeError::Core(e));
                    },
                };
                let peer = engine::deal_peer(&off.deal);
                let launch_off = engine::clone_offer(&off);
                let launch_params = engine::clone_parameters(&local_params);
                let w = Wallet::Alice(AliceWallet {
                    destination_address: addr,
                    fee: FeePriority::High,
                    local_params,
                    key_manager: km,
                    offer: off,
                    remote_commit: None,
                    remote_params: None,
                    refund_sigs_sent: false,
                    done: false,
                });
                let ok = self.wallets.insert(sid, w);
                let _ = self.swaps.take(sid);
                let ok2 = self.swaps.insert(sid, None);
                proof {
                    assert(old(self).swaps@.remove(sid).insert(sid, None) =~= old(
                        self,
                    ).swaps@.insert(sid, None));
                }
                let sent = senders.send_to(
                    ServiceBus::Ctl,
                    source,
                    ServiceId::Farcasterd,
                    Request::LaunchSwap(LaunchSwap {
                        peer,
                        local_trade_role: TradeRole::Taker,
                        public_offer: launch_off,
                        local_params: Params::Alice(launch_params),
                        swap_id: sid,
                        remote_commit: None,
                        funding_address: None,
                    }),
                );
                match sent {
                    Ok(()) => Ok(sid),
                    Err(_) => vstd::pervasive::unreached(),
                }
            },
        }
    }
}

// ---------------------------------------------------------------------------
// What handling one request on each channel guarantees.  These relations are
// the dispatchers' contracts; each per-message handler ensures the matching
// case directly.
// ---------------------------------------------------------------------------

/// Nothing observable happened: registries and outbox are as before.
pub open spec fn untouched(pre: Runtime, post: Runtime, pre_s: Seq<BusMsg>, post_s: Seq<BusMsg>)
    -> bool {
    &&& post.wallets == pre.wallets
    &&& post.swaps == pre.swaps
    &&& post_s =~= pre_s
}

/// Outcome of one inbound peer-protocol request.
pub open spec fn msg_dispatch_post(
    pre: Runtime,
    post: Runtime,
    pre_s: Seq<BusMsg>,
    post_s: Seq<BusMsg>,
    source: ServiceId,
    request: Request,
    r: Result<(), NodeError>,
) -> bool {
    match request {
        Request::Hello => r.is_ok() && untouched(pre, post, pre_s, post_s),
        Request::Protocol(m) => match m {
            Msg::TakerCommit(tc) => {
                if crate::engine::ascii_text(tc.public_offer_hex@)
                    && crate::engine::deal_parse_ok(tc.public_offer_hex@) {
                    exists|off: OfferInfo|
                        #[trigger] taker_commit_post(
                            pre,
                            post,
                            pre_s,
                            post_s,
                            off,
                            tc.commit,
                            tc.swap_id,
                            r,
                        ) && off.maker_role == crate::engine::deal_maker_role(
                            tc.public_offer_hex@,
                        )
                } else {
                    (r matches Err(NodeError::Farcaster(_))) && untouched(
                        pre,
                        post,
                        pre_s,
                        post_s,
                    )
                }
            },
            Msg::MakerCommit(c) => maker_commit_post(pre, post, source, c, r) && post_s =~= pre_s,
            Msg::Reveal(rv) => reveal_post(pre, post, pre_s, post_s, source, rv, r),
            Msg::CoreArbitratingSetup(_) => core_setup_post(pre, post, pre_s, post_s, source, r),
            Msg::RefundProcedureSignatures(_) => refund_sigs_post(
                pre,
                post,
                pre_s,
                post_s,
                source,
                r,
            ),
            Msg::BuyProcedureSignature(_) => buy_sig_post(pre, post, source, r) && post_s
                =~= pre_s,
        },
        _ => r.is_ok() && untouched(pre, post, pre_s, post_s),
    }
}

/// Outcome of one inbound control request.
pub open spec fn ctl_dispatch_post(
    pre: Runtime,
    post: Runtime,
    pre_s: Seq<BusMsg>,
    post_s: Seq<BusMsg>,
    source: ServiceId,
    request: Request,
    r: Result<(), NodeError>,
) -> bool {
    match request {
        Request::Hello => r.is_ok() && hello_post(pre, post, pre_s, post_s, source),
        Request::Progress(_) => r.is_ok() && untouched(pre, post, pre_s, post_s),
        Request::TakeOffer(po) => {
            if po.peer_secret_key is None {
                if r.is_ok() {
                    exists|sid: SwapId|
                        #[trigger] take_offer_created(
                            pre,
                            post,
                            pre_s,
                            post_s,
                            source,
                            po.public_offer,
                            sid,
                        )
                } else {
                    untouched(pre, post, pre_s, post_s)
                }
            } else {
                r.is_ok() && untouched(pre, post, pre_s, post_s)
            }
        },
        Request::GetKeys(gk) => post.wallets == pre.wallets && post.swaps == pre.swaps
            && get_keys_post(pre, pre_s, post_s, gk.0, gk.1, r),
        _ => r.is_ok() && untouched(pre, post, pre_s, post_s),
    }
}

/// Outcome of one MakerCommit, over the registries alone.
pub open spec fn maker_commit_post(
    pre: Runtime,
    post: Runtime,
    source: ServiceId,
    commit: Commit,
    r: Result<(), NodeError>,
) -> bool {
    &&& post.swaps == pre.swaps
    &&& match source {
        ServiceId::Swap(sid) => {
            &&& r.is_ok()
            &&& if sid == commit.spec_swap_id() && pre.wallets@.contains_key(sid) {
                    post.wallets@ =~= pre.wallets@.insert(
                        sid,
                        apply_maker_commit(pre.wallets@[sid], commit),
                    )
                } else {
                    post.wallets == pre.wallets
                }
        },
        _ => (r matches Err(NodeError::Farcaster(_))) && post.wallets == pre.wallets,
    }
}

/// Outcome of one terminal BuyProcedureSignature acknowledgement.
pub open spec fn buy_sig_post(
    pre: Runtime,
    post: Runtime,
    source: ServiceId,
    r: Result<(), NodeError>,
) -> bool {
    &&& post.swaps == pre.swaps
    &&& match source {
        ServiceId::Swap(sid) => {
            &&& r.is_ok()
            &&& if pre.wallets@.contains_key(sid) {
                    post.wallets@ =~= pre.wallets@.insert(
                        sid,
                        apply_buy_sig(pre.wallets@[sid]),
                    )
                } else {
                    post.wallets == pre.wallets
                }
        },
        _ => (r matches Err(NodeError::Farcaster(_))) && post.wallets == pre.wallets,
    }
}

/// Outcome of one Hello: the buffered request, if any, is flushed exactly
/// once.
pub open spec fn hello_post(
    pre: Runtime,
    post: Runtime,
    pre_s: Seq<BusMsg>,
    post_s: Seq<BusMsg>,
    source: ServiceId,
) -> bool {
    &&& post.wallets == pre.wallets
    &&& match source {
        ServiceId::Swap(sid) => {
            if pre.swaps@.contains_key(sid) {
                match pre.swaps@[sid] {
                    Some(req) => {
                        &&& post.swaps@ =~= pre.swaps@.insert(sid, None)
                        &&& post_s =~= pre_s.push(BusMsg {
                            bus: ServiceBus::Ctl,
                            source: pre.identity,
                            dest: source,
                            req: req,
                        })
                    },
                    None => post.swaps == pre.swaps && post_s =~= pre_s,
                }
            } else {
                post.swaps == pre.swaps && post_s =~= pre_s
            }
        },
        _ => post.swaps == pre.swaps && post_s =~= pre_s,
    }
}

/// Outcome of one GetKeys: key material flows exactly on a token match.
pub open spec fn get_keys_post(
    rt: Runtime,
    pre_s: Seq<BusMsg>,
    post_s: Seq<BusMsg>,
    token: Token,
    request_id: u64,
    r: Result<(), NodeError>,
) -> bool {
    if token.0@ == rt.wallet_token.0@ {
        &&& r.is_ok()
        &&& post_s =~= pre_s.push(BusMsg {
            bus: ServiceBus::Ctl,
            source: rt.identity,
            dest: ServiceId::Farcasterd,
            req: Request::Keys(Keys(
                rt.node_secrets.peerd_secret_key,
                rt.node_secrets.node_id,
                request_id,
            )),
        })
    } else {
        &&& (r matches Err(NodeError::InvalidToken))
        &&& post_s =~= pre_s
    }
}

/// Outcome of one Reveal.
pub open spec fn reveal_post(
    pre: Runtime,
    post: Runtime,
    pre_s: Seq<BusMsg>,
    post_s: Seq<BusMsg>,
    source: ServiceId,
    msg: Reveal,
    r: Result<(), NodeError>,
) -> bool {
    &&& post.swaps == pre.swaps
    &&& match source {
        ServiceId::Swap(sid) => (match msg {
            Reveal::Bob(_) => {
                &&& post_s =~= pre_s
                &&& (if pre.wallets@.contains_key(sid) {
                    match pre.wallets@[sid] {
                        Wallet::Alice(a) => {
                            if a.remote_commit is Some && a.remote_params is None {
                                if r.is_ok() {
                                    &&& post.wallets@.contains_key(sid)
                                    &&& post.wallets@ =~= pre.wallets@.insert(
                                        sid,
                                        post.wallets@[sid],
                                    )
                                    &&& alice_params_stored(a, post.wallets@[sid])
                                } else {
                                    post.wallets == pre.wallets
                                }
                            } else {
                                r.is_ok() && post.wallets == pre.wallets
                            }
                        },
                        _ => r.is_ok() && post.wallets == pre.wallets,
                    }
                } else {
                    r.is_ok() && post.wallets == pre.wallets
                })
            },
            Reveal::Alice(_) => {
                if pre.wallets@.contains_key(sid) {
                    match pre.wallets@[sid] {
                        Wallet::Bob(b) => {
                            if b.funding is Some && b.remote_commit is Some
                                && b.remote_params is None && b.core_arb_txs is None {
                                if r.is_ok() {
                                    &&& post.wallets@.contains_key(sid)
                                    &&& post.wallets@ =~= pre.wallets@.insert(
                                        sid,
                                        post.wallets@[sid],
                                    )
                                    &&& bob_params_and_txs_stored(b, post.wallets@[sid])
                                    &&& post_s.len() == pre_s.len() + 1
                                    &&& post_s.subrange(0, pre_s.len() as int) =~= pre_s
                                    &&& setup_emitted(post_s.last(), pre.identity, source)
                                } else {
                                    &&& post.wallets@.contains_key(sid)
                                    &&& post.wallets@ =~= pre.wallets@.insert(
                                        sid,
                                        post.wallets@[sid],
                                    )
                                    &&& bob_params_stored(b, post.wallets@[sid])
                                    &&& post_s =~= pre_s
                                }
                            } else {
                                r.is_ok() && post.wallets == pre.wallets && post_s =~= pre_s
                            }
                        },
                        _ => r.is_ok() && post.wallets == pre.wallets && post_s =~= pre_s,
                    }
                } else {
                    r.is_ok() && post.wallets == pre.wallets && post_s =~= pre_s
                }
            },
        }),
        _ => (r matches Err(NodeError::Farcaster(_))) && post.wallets == pre.wallets && post_s
            =~= pre_s,
    }
}

/// Outcome of one CoreArbitratingSetup.
pub open spec fn core_setup_post(
    pre: Runtime,
    post: Runtime,
    pre_s: Seq<BusMsg>,
    post_s: Seq<BusMsg>,
    source: ServiceId,
    r: Result<(), NodeError>,
) -> bool {
    &&& post.swaps == pre.swaps
    &&& match source {
        ServiceId::Swap(sid) => {
            if alice_awaiting_setup(pre.wallets@, sid) {
                if r.is_ok() {
                    &&& post.wallets@.contains_key(sid)
                    &&& post.wallets@ =~= pre.wallets@.insert(sid, post.wallets@[sid])
                    &&& alice_refund_sigs_sent(alice_of(pre.wallets@[sid]), post.wallets@[sid])
                    &&& post_s.len() == pre_s.len() + 1
                    &&& post_s.subrange(0, pre_s.len() as int) =~= pre_s
                    &&& refund_sigs_emitted(post_s.last(), pre.identity, source)
                } else {
                    &&& post.wallets@ =~= pre.wallets@.insert(sid, post.wallets@[sid])
                    &&& wallet_km_refreshed(pre.wallets@[sid], post.wallets@[sid])
                    &&& post_s =~= pre_s
                }
            } else {
                (r matches Err(NodeError::Farcaster(_))) && post.wallets == pre.wallets
                    && post_s =~= pre_s
            }
        },
        _ => (r matches Err(NodeError::Farcaster(_))) && post.wallets == pre.wallets && post_s
            =~= pre_s,
    }
}

/// Outcome of one RefundProcedureSignatures.
pub open spec fn refund_sigs_post(
    pre: Runtime,
    post: Runtime,
    pre_s: Seq<BusMsg>,
    post_s: Seq<BusMsg>,
    source: ServiceId,
    r: Result<(), NodeError>,
) -> bool {
    &&& post.swaps == pre.swaps
    &&& match source {
        ServiceId::Swap(sid) => {
            if bob_awaiting_refund_sigs(pre.wallets@, sid) {
                if r.is_ok() {
                    &&& post.wallets@.contains_key(sid)
                    &&& post.wallets@ =~= pre.wallets@.insert(sid, post.wallets@[sid])
                    &&& bob_buy_sig_sent(bob_of(pre.wallets@[sid]), post.wallets@[sid])
                    &&& post_s.len() == pre_s.len() + 1
                    &&& post_s.subrange(0, pre_s.len() as int) =~= pre_s
                    &&& buy_sig_emitted(post_s.last(), pre.identity, source)
                } else {
                    &&& post.wallets@ =~= pre.wallets@.insert(sid, post.wallets@[sid])
                    &&& wallet_km_refreshed(pre.wallets@[sid], post.wallets@[sid])
                    &&& post_s =~= pre_s
                }
            } else {
                (r matches Err(NodeError::Farcaster(_))) && post.wallets == pre.wallets
                    && post_s =~= pre_s
            }
        },
        _ => (r matches Err(NodeError::Farcaster(_))) && post.wallets == pre.wallets && post_s
            =~= pre_s,
    }
}

/// Outcome of one TakerCommit once the offer is decoded.
pub open spec fn taker_commit_post(
    pre: Runtime,
    post: Runtime,
    pre_s: Seq<BusMsg>,
    post_s: Seq<BusMsg>,
    off: OfferInfo,
    commit: Commit,
    sid: SwapId,
    r: Result<(), NodeError>,
) -> bool {
    if pre.wallets@.contains_key(sid) {
        (r matches Err(NodeError::Farcaster(_))) && untouched(pre, post, pre_s, post_s)
    } else if !commit_matches_role(commit, off.maker_role) {
        (r matches Err(NodeError::Farcaster(_))) && untouched(pre, post, pre_s, post_s)
    } else if r.is_ok() {
        &&& post.wallets@.contains_key(sid)
        &&& post.wallets@ =~= pre.wallets@.insert(sid, post.wallets@[sid])
        &&& maker_wallet_created(post.wallets@[sid], off, commit)
        &&& (off.maker_role == SwapRole::Bob ==> post.swaps@ =~= pre.swaps@.insert(sid, None))
        &&& (off.maker_role == SwapRole::Alice ==> post.swaps == pre.swaps)
        &&& post_s.len() == pre_s.len() + 1
        &&& post_s.subrange(0, pre_s.len() as int) =~= pre_s
        &&& launch_emitted(
            post_s.last(),
            pre.identity,
            pre.identity,
            off,
            sid,
            TradeRole::Maker,
            Some(commit),
            post.wallets@[sid],
        )
    } else {
        untouched(pre, post, pre_s, post_s)
    }
}

/// A successful TakeOffer: the fresh taker-side wallet, its pending slot and
/// the launch capsule.
pub open spec fn take_offer_created(
    pre: Runtime,
    post: Runtime,
    pre_s: Seq<BusMsg>,
    post_s: Seq<BusMsg>,
    source: ServiceId,
    off: OfferInfo,
    sid: SwapId,
) -> bool {
    &&& !pre.wallets@.contains_key(sid)
    &&& post.wallets@.contains_key(sid)
    &&& post.wallets@ =~= pre.wallets@.insert(sid, post.wallets@[sid])
    &&& taker_wallet_created(post.wallets@[sid], off)
    &&& post.swaps@ =~= pre.swaps@.insert(sid, None)
    &&& post_s.len() == pre_s.len() + 1
    &&& post_s.subrange(0, pre_s.len() as int) =~= pre_s
    &&& launch_emitted(
        post_s.last(),
        pre.identity,
        source,
        off,
        sid,
        TradeRole::Taker,
        None,
        post.wallets@[sid],
    )
}

impl Runtime {
    /// Dispatch one request that arrived on the peer-protocol channel.
    /// Handshake messages drive the state machine; anything else is logged
    /// and dropped.
    pub fn handle_rpc_msg(
        &mut self,
        senders: &mut Senders,
        source: ServiceId,
        request: Request,
    ) -> (r: Result<(), NodeError>)
        requires
            old(self).wf(),
        ensures
            final(self).wf(),
            same_config(*old(self), *final(self)),
            msg_dispatch_post(
                *old(self),
                *final(self),
                old(senders)@,
                final(senders)@,
                source,
                request,
                r,
            ),
    {
        match request {
            Request::Hello => Ok(()),
            Request::Protocol(m) => match m {
                Msg::TakerCommit(tc) => {
                    let TakeCommit { commit, public_offer_hex, swap_id: sid } = tc;
                    let ghost gcommit = commit;
                    if !engine::text_is_ascii(public_offer_hex.as_str()) {
                        return Err(NodeError::Farcaster(
                            "the offer received on peer connection is not parsable".to_string(),
                        ));
                    }
                    match engine::parse_deal(public_offer_hex.as_str()) {
                        Ok(off) => {
                            let ghost goff = off;
                            let res = self.taker_commit(senders, off, commit, sid);
                            proof {
                                assert(taker_commit_post(
                                    *old(self),
                                    *self,
                                    old(senders)@,
                                    senders@,
                                    goff,
                                    gcommit,
                                    sid,
                                    res,
                                ));
                            }
                            res
                        },
                        Err(_) => Err(NodeError::Farcaster(
                            "the offer received on peer connection is not parsable".to_string(),
                        )),
                    }
                },
                Msg::MakerCommit(c) => self.maker_commit(source, c),
                Msg::Reveal(rv) => self.handle_reveal(senders, source, rv),
                Msg::CoreArbitratingSetup(setup) => self.core_arbitrating_setup(
                    senders,
                    source,
                    setup,
                ),
                Msg::RefundProcedureSignatures(sigs) => self.refund_procedure_signatures(
                    senders,
                    source,
                    sigs,
                ),
                Msg::BuyProcedureSignature(_sig) => self.buy_procedure_signature(source),
            },
            _ => Ok(()),
        }
    }

    /// Dispatch one request that arrived on the control channel.
    /// Unrecognized variants are logged and dropped, never fatal.
    pub fn handle_rpc_ctl(
        &mut self,
        senders: &mut Senders,
        source: ServiceId,
        request: Request,
    ) -> (r: Result<(), NodeError>)
        requires
            old(self).wf(),
        ensures
            final(self).wf(),
            same_config(*old(self), *final(self)),
            ctl_dispatch_post(
                *old(self),
                *final(self),
                old(senders)@,
                final(senders)@,
                source,
                request,
                r,
            ),
    {
        match request {
            Request::Hello => self.hello(senders, source),
            Request::Progress(_text) => Ok(()),
            Request::TakeOffer(po) => {
                let PubOffer { public_offer, peer_secret_key } = po;
                match peer_secret_key {
                    None => {
                        let ghost goff = public_offer;
                        match self.take_offer(senders, source, public_offer) {
                            Ok(sid) => {
                                proof {
                                    assert(take_offer_created(
                                        *old(self),
                                        *self,
                                        old(senders)@,
                                        senders@,
                                        source,
                                        goff,
                                        sid,
                                    ));
                                }
                                Ok(())
                            },
                            Err(e) => Err(e),
                        }
                    },
                    Some(_) => Ok(()),
                }
            },
            Request::GetKeys(gk) => {
                let GetKeys(token, request_id) = gk;
                self.get_keys(senders, &token, request_id)
            },
            _ => Ok(()),
        }
    }

    /// Classify one inbound request by its logical channel and dispatch it.
    /// The bridge channel is never legal for the wallet.
    pub fn handle(
        &mut self,
        senders: &mut Senders,
        bus: ServiceBus,
        source: ServiceId,
        request: Request,
    ) -> (r: Result<(), NodeError>)
        requires
            old(self).wf(),
        ensures
            final(self).wf(),
            same_config(*old(self), *final(self)),
            (match bus {
                ServiceBus::Msg => msg_dispatch_post(
                    *old(self),
                    *final(self),
                    old(senders)@,
                    final(senders)@,
                    source,
                    request,
                    r,
                ),
                ServiceBus::Ctl => ctl_dispatch_post(
                    *old(self),
                    *final(self),
                    old(senders)@,
                    final(senders)@,
                    source,
                    request,
                    r,
                ),
                ServiceBus::Bridge => {
                    &&& (r matches Err(NodeError::NotSupported(
                        ServiceBus::Bridge,
                        t,
                    )) && t == request.spec_get_type())
                    &&& untouched(*old(self), *final(self), old(senders)@, final(senders)@)
                },
            }),
    {
        match bus {
            ServiceBus::Msg => self.handle_rpc_msg(senders, source, request),
            ServiceBus::Ctl => self.handle_rpc_ctl(senders, source, request),
            ServiceBus::Bridge => Err(NodeError::NotSupported(
                ServiceBus::Bridge,
                request.get_type(),
            )),
        }
    }
}

/// Whether a wallet's counterparty commitment slot is filled.
pub open spec fn has_remote_commit(w: Wallet) -> bool {
    match w {
        Wallet::Alice(a) => a.remote_commit is Some,
        Wallet::Bob(b) => b.remote_commit is Some,
    }
}

/// Law: once a commitment slot is set, any further MakerCommit is a no-op
/// that leaves the stored value and the whole wallet unchanged.
pub proof fn lemma_commit_slot_set_once(w: Wallet, c1: Commit, c2: Commit)
    ensures
        has_remote_commit(apply_maker_commit(w, c1)) ==> apply_maker_commit(
            apply_maker_commit(w, c1),
            c2,
        ) == apply_maker_commit(w, c1),
{
}

/// Law: a creation attempt for a swap id that already has a live wallet is
/// rejected and mutates neither registry nor the outbox.
pub proof fn lemma_duplicate_creation_rejected(
    pre: Runtime,
    post: Runtime,
    pre_s: Seq<BusMsg>,
    post_s: Seq<BusMsg>,
    off: OfferInfo,
    commit: Commit,
    sid: SwapId,
    r: Result<(), NodeError>,
)
    requires
        pre.wallets@.contains_key(sid),
        taker_commit_post(pre, post, pre_s, post_s, off, commit, sid, r),
    ensures
        r matches Err(NodeError::Farcaster(_)),
        post.wallets == pre.wallets,
        post.swaps == pre.swaps,
        post_s =~= pre_s,
{
}

/// Law: driving a taker-side Alice wallet and a maker-side Bob wallet
/// through the handshake — MakerCommit, verified Reveal(Bob),
/// CoreArbitratingSetup and the terminal BuyProcedureSignature on the Alice
/// side; Reveal(Alice) and RefundProcedureSignatures on the Bob side — 
/// advances each side's phase step by step and reaches Complete on both.
pub proof fn lemma_handshake_completes(
    a0: AliceWallet,
    cb: farcaster_core::swap::btcxmr::message::CommitBobParameters,
    sid: SwapId,
    wa1: Wallet,
    wa2: Wallet,
    wa3: Wallet,
    b0: BobWallet,
    wb1: Wallet,
    wb2: Wallet,
)
    requires
        a0.remote_commit is None,
        a0.remote_params is None,
        !a0.refund_sigs_sent,
        !a0.done,
        b0.funding is Some,
        b0.remote_commit is Some,
        b0.remote_params is None,
        b0.core_arb_txs is None,
        !b0.buy_sig_sent,
        wa1 == apply_maker_commit(Wallet::Alice(a0), Commit::Bob { swap_id: sid, commit: cb }),
        alice_params_stored(alice_of(wa1), wa2),
        alice_refund_sigs_sent(alice_of(wa2), wa3),
        bob_params_and_txs_stored(b0, wb1),
        bob_buy_sig_sent(bob_of(wb1), wb2),
    ensures
        phase(Wallet::Alice(a0)) == Phase::LocalParamsReady,
        phase(wa1) == Phase::RemoteCommitKnown,
        phase(wa2) == Phase::RemoteParamsRevealed,
        phase(wa3) == Phase::RefundSigsSent,
        phase(apply_buy_sig(wa3)) == Phase::Complete,
        phase(Wallet::Bob(b0)) == Phase::RemoteCommitKnown,
        phase(wb1) == Phase::SetupSent,
        phase(wb2) == Phase::Complete,
{
}

/// Executable mirror of [`phase`].
fn phase_exec(w: &Wallet) -> (r: Phase)
    ensures
        r == phase(*w),
{
    match w {
        Wallet::Alice(a) => {
            if a.done {
                Phase::Complete
            } else if a.refund_sigs_sent {
                Phase::RefundSigsSent
            } else if a.remote_params.is_some() {
                Phase::RemoteParamsRevealed
            } else if a.remote_commit.is_some() {
                Phase::RemoteCommitKnown
            } else {
                Phase::LocalParamsReady
            }
        },
        Wallet::Bob(b) => {
            if b.buy_sig_sent {
                Phase::Complete
            } else if b.core_arb_txs.is_some() {
                Phase::SetupSent
            } else if b.remote_params.is_some() {
                Phase::RemoteParamsRevealed
            } else if b.remote_commit.is_some() {
                Phase::RemoteCommitKnown
            } else if b.funding.is_some() {
                Phase::FundingReady
            } else {
                Phase::LocalParamsReady
            }
        },
    }
}

impl Runtime {
    /// The phase of the wallet registered for a swap, if any.
    pub fn phase_of(&self, sid: SwapId) -> (r: Option<Phase>)
        requires
            self.wf(),
        ensures
            (match r {
                Some(p) => self.wallets@.contains_key(sid) && p == phase(self.wallets@[sid]),
                None => !self.wallets@.contains_key(sid),
            }),
    {
        match self.wallets.get(sid) {
            Some(w) => Some(phase_exec(w)),
            None => None,
        }
    }
}

/// The wallet is unchanged but for the funding handle, which now carries a
/// seen transaction.
pub open spec fn bob_funding_refreshed(b: BobWallet, w2: Wallet) -> bool {
    match w2 {
        Wallet::Bob(b2) => {
            &&& b2 == BobWallet { funding: b2.funding, ..b }
            &&& match b2.funding {
                Some(f) => f.seen_tx() is Some,
                None => false,
            }
        },
        _ => false,
    }
}

impl Runtime {
    /// Record the funding transaction seen on chain for a Bob-role swap,
    /// handed in as raw consensus bytes.  Succeeds exactly when the bytes
    /// decode as a chain transaction; a swap without a Bob wallet holding a
    /// funding handle is a domain error.
    pub fn funding_updated(&mut self, sid: SwapId, raw_tx: &Vec<u8>) -> (r: Result<
        (),
        NodeError,
    >)
        requires
            old(self).wf(),
        ensures
            final(self).wf(),
            same_config(*old(self), *final(self)),
            final(self).swaps == old(self).swaps,
            (if old(self).wallets@.contains_key(sid) && (match old(self).wallets@[sid] {
                Wallet::Bob(b) => b.funding is Some,
                _ => false,
            }) {
                if r.is_ok() {
                    &&& crate::engine::tx_decode_ok(raw_tx@)
                    &&& final(self).wallets@.contains_key(sid)
                    &&& final(self).wallets@ =~= old(self).wallets@.insert(
                        sid,
                        final(self).wallets@[sid],
                    )
                    &&& bob_funding_refreshed(bob_of(old(self).wallets@[sid]),
                        final(self).wallets@[sid])
                } else {
                    &&& !crate::engine::tx_decode_ok(raw_tx@)
                    &&& final(self).wallets@ =~= old(self).wallets@
                }
            } else {
                r.is_err() && final(self).wallets == old(self).wallets
            }),
    {
        match self.wallets.get(sid) {
            Some(w) => match w {
                Wallet::Bob(b) => {
                    if b.funding.is_none() {
                        return Err(NodeError::Farcaster(
                            "no funding handle for this swap".to_string(),
                        ));
                    }
                },
                _ => {
                    return Err(NodeError::Farcaster("no Bob wallet for this swap".to_string()));
                },
            },
            None => {
                return Err(NodeError::Farcaster("no Bob wallet for this swap".to_string()));
            },
        }
        match self.wallets.take(sid) {
            Some(w) => match w {
                Wallet::Bob(b) => {
                    let mut b = b;
                    let res = match &mut b.funding {
                        Some(f) => funding_update(f, raw_tx),
                        None => vstd::pervasive::unreached(),
                    };
                    let w2 = Wallet::Bob(b);
                    let ghost gw2 = w2;
                    let ok = self.wallets.insert(sid, w2);
                    proof {
                        assert(old(self).wallets@.remove(sid).insert(sid, gw2) =~= old(
                            self,
                        ).wallets@.insert(sid, gw2));
                        if res.is_err() {
                            assert(gw2 == old(self).wallets@[sid]);
                            assert(old(self).wallets@.insert(sid, gw2) =~= old(self).wallets@);
                        }
                    }
                    res
                },
                Wallet::Alice(_) => vstd::pervasive::unreached(),
            },
            None => vstd::pervasive::unreached(),
        }
    }
}

} // verus!
