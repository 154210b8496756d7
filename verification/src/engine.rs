//! The trusted boundary to the swap protocol engine and the chain libraries.
//!
//! Everything cryptographic — parameter generation, commitment verification,
//! transaction construction and signing — is performed by the outside swap
//! protocol crate.  Its values are opaque to verification and flow through
//! the coordinator unchanged; this module declares their types and wraps
//! every call the coordinator makes, each wrapper stating only what the
//! outside source shows.

use vstd::prelude::*;

use crate::types::{FeePriority, Network, SwapId, SwapRole};
use farcaster_core::transaction::Fundable;
use std::str::FromStr;

verus! {

// ---------------------------------------------------------------------------
// Declarations of the outside types that run through the coordinator.
// ---------------------------------------------------------------------------

#[verifier::external_type_specification]
#[verifier::external_body]
#[verifier::reject_recursive_types(Amt)]
#[verifier::reject_recursive_types(Bmt)]
#[verifier::reject_recursive_types(Ti)]
#[verifier::reject_recursive_types(F)]
pub struct ExDeal<Amt, Bmt, Ti, F>(farcaster_core::trade::Deal<Amt, Bmt, Ti, F>);

#[verifier::external_type_specification]
#[verifier::external_body]
#[verifier::reject_recursive_types(Pk)]
#[verifier::reject_recursive_types(Qk)]
#[verifier::reject_recursive_types(Rk)]
#[verifier::reject_recursive_types(Sk)]
#[verifier::reject_recursive_types(Addr)]
#[verifier::reject_recursive_types(Ti)]
#[verifier::reject_recursive_types(F)]
#[verifier::reject_recursive_types(Pr)]
pub struct ExParameters<Pk, Qk, Rk, Sk, Addr, Ti, F, Pr>(
    farcaster_core::protocol::Parameters<Pk, Qk, Rk, Sk, Addr, Ti, F, Pr>,
);

#[verifier::external_type_specification]
#[verifier::external_body]
pub struct ExKeyManager(farcaster_core::swap::btcxmr::KeyManager);

#[verifier::external_type_specification]
#[verifier::external_body]
pub struct ExFunding(farcaster_core::bitcoin::segwitv0::funding::Funding);

#[verifier::external_type_specification]
#[verifier::external_body]
#[verifier::reject_recursive_types(Px)]
pub struct ExCoreArbitratingTransactions<Px>(
    farcaster_core::protocol::CoreArbitratingTransactions<Px>,
);

#[verifier::external_type_specification]
#[verifier::external_body]
#[verifier::reject_recursive_types(Amt)]
#[verifier::reject_recursive_types(Ti)]
#[verifier::reject_recursive_types(F)]
pub struct ExArbitratingParameters<Amt, Ti, F>(
    farcaster_core::protocol::ArbitratingParameters<Amt, Ti, F>,
);

#[verifier::external_type_specification]
#[verifier::external_body]
#[verifier::reject_recursive_types(C)]
pub struct ExCommitAliceParameters<C>(
    farcaster_core::protocol::message::CommitAliceParameters<C>,
);

#[verifier::external_type_specification]
#[verifier::external_body]
#[verifier::reject_recursive_types(C)]
pub struct ExCommitBobParameters<C>(
    farcaster_core::protocol::message::CommitBobParameters<C>,
);

#[verifier::external_type_specification]
#[verifier::external_body]
#[verifier::reject_recursive_types(Pk)]
#[verifier::reject_recursive_types(Qk)]
#[verifier::reject_recursive_types(Rk)]
#[verifier::reject_recursive_types(Sk)]
#[verifier::reject_recursive_types(Addr)]
#[verifier::reject_recursive_types(Pr)]
pub struct ExRevealAliceParameters<Pk, Qk, Rk, Sk, Addr, Pr>(
    farcaster_core::protocol::message::RevealAliceParameters<Pk, Qk, Rk, Sk, Addr, Pr>,
);

#[verifier::external_type_specification]
#[verifier::external_body]
#[verifier::reject_recursive_types(Pk)]
#[verifier::reject_recursive_types(Qk)]
#[verifier::reject_recursive_types(Rk)]
#[verifier::reject_recursive_types(Sk)]
#[verifier::reject_recursive_types(Addr)]
#[verifier::reject_recursive_types(Pr)]
pub struct ExRevealBobParameters<Pk, Qk, Rk, Sk, Addr, Pr>(
    farcaster_core::protocol::message::RevealBobParameters<Pk, Qk, Rk, Sk, Addr, Pr>,
);

#[verifier::external_type_specification]
#[verifier::external_body]
#[verifier::reject_recursive_types(Px)]
#[verifier::reject_recursive_types(Sig)]
pub struct ExCoreArbitratingSetup<Px, Sig>(
    farcaster_core::protocol::message::CoreArbitratingSetup<Px, Sig>,
);

#[verifier::external_type_specification]
#[verifier::external_body]
#[verifier::reject_recursive_types(Sig)]
#[verifier::reject_recursive_types(EncSig)]
pub struct ExRefundProcedureSignatures<Sig, EncSig>(
    farcaster_core::protocol::message::RefundProcedureSignatures<Sig, EncSig>,
);

#[verifier::external_type_specification]
#[verifier::external_body]
#[verifier::reject_recursive_types(Px)]
#[verifier::reject_recursive_types(EncSig)]
pub struct ExBuyProcedureSignature<Px, EncSig>(
    farcaster_core::protocol::message::BuyProcedureSignature<Px, EncSig>,
);

#[verifier::external_type_specification]
#[verifier::external_body]
pub struct ExCoreError(farcaster_core::Error);

#[verifier::external_type_specification]
#[verifier::external_body]
pub struct ExCSVTimelock(farcaster_core::bitcoin::timelock::CSVTimelock);

#[verifier::external_type_specification]
#[verifier::external_body]
pub struct ExSatPerKvB(farcaster_core::bitcoin::fee::SatPerKvB);

#[verifier::external_type_specification]
#[verifier::external_body]
pub struct ExDLEQProof(farcaster_core::crypto::dleq::DLEQProof);

#[verifier::external_type_specification]
#[verifier::external_body]
pub struct ExKeccakCommitment(farcaster_core::crypto::KeccakCommitment);

#[verifier::external_type_specification]
#[verifier::external_body]
pub struct ExBtcAmount(bitcoin::Amount);

#[verifier::external_type_specification]
#[verifier::external_body]
pub struct ExXmrAmount(monero::Amount);

#[verifier::external_type_specification]
#[verifier::external_body]
pub struct ExXmrPublicKey(monero::PublicKey);

#[verifier::external_type_specification]
#[verifier::external_body]
pub struct ExXmrPrivateKey(monero::PrivateKey);

#[verifier::external_type_specification]
#[verifier::external_body]
pub struct ExPsbt(bitcoin::util::psbt::PartiallySignedTransaction);

#[verifier::external_type_specification]
#[verifier::external_body]
pub struct ExBtcAddress(bitcoin::Address);

#[verifier::external_type_specification]
#[verifier::external_body]
pub struct ExBtcTransaction(bitcoin::Transaction);

#[verifier::external_type_specification]
#[verifier::external_body]
pub struct ExSecretKey(bitcoin::secp256k1::SecretKey);

#[verifier::external_type_specification]
#[verifier::external_body]
pub struct ExPublicKey(bitcoin::secp256k1::PublicKey);

#[verifier::external_type_specification]
#[verifier::external_body]
pub struct ExSignature(bitcoin::secp256k1::ecdsa::Signature);

#[verifier::external_type_specification]
#[verifier::external_body]
pub struct ExEncryptedSignature(ecdsa_fun::adaptor::EncryptedSignature);

// ---------------------------------------------------------------------------
// Named results of deterministic outside computations.
// ---------------------------------------------------------------------------

/// Whether a text is a well-formed deal encoding.  The outside parser is a
/// function of the text alone.
pub uninterp spec fn deal_parse_ok(s: Seq<char>) -> bool;

/// Whether 32 seed bytes encode a valid funding secret key.  The outside key
/// parser is a function of the bytes alone.
pub uninterp spec fn seed_key_ok(seed: Seq<u8>) -> bool;

/// Whether a text is a well-formed chain address encoding.  The outside
/// parser is a function of the text alone.
pub uninterp spec fn btc_address_ok(s: Seq<char>) -> bool;

/// The maker's swap role carried by a well-formed deal encoding.  The
/// outside parser is a function of the text alone.
pub uninterp spec fn deal_maker_role(s: Seq<char>) -> SwapRole;

/// The shape the signing engine assumes of a core transaction bundle: each
/// of the lock, cancel and refund partial transactions has exactly one
/// input, that input carries its witness utxo, and output lists are
/// non-empty.  The engine indexes these without checking.
pub uninterp spec fn core_shape_ok(
    c: farcaster_core::swap::btcxmr::CoreArbitratingTransactions,
) -> bool;

/// Whether an Alice-side parameter set carries its punish key, which the
/// engine's core validation unwraps without checking.
pub uninterp spec fn params_has_punish(p: farcaster_core::swap::btcxmr::Parameters) -> bool;

/// Every character of the text is in the ASCII range.
pub open spec fn ascii_text(s: Seq<char>) -> bool {
    forall|i: int| 0 <= i < s.len() ==> (s[i] as int) < 128
}

/// Whether a byte string is a well-formed chain transaction encoding.  The
/// outside decoder is a function of the bytes alone.
pub uninterp spec fn tx_decode_ok(b: Seq<u8>) -> bool;

// ---------------------------------------------------------------------------
// An offer as the coordinator reads it: the opaque negotiated deal together
// with the one field the dispatch logic branches on.
// ---------------------------------------------------------------------------

/// A negotiated offer: the opaque deal value and, as a plain value, the swap
/// role its maker takes.  Whoever builds one must copy the maker role out of
/// the deal itself.
pub struct OfferInfo {
    pub deal: farcaster_core::swap::btcxmr::Deal,
    pub maker_role: SwapRole,
}

// ---------------------------------------------------------------------------
// Trusted wrappers around the outside calls.
// ---------------------------------------------------------------------------

/// Relies on `str::is_ascii`: true exactly when every character of the text
/// is in the ASCII range.
#[verifier::external_body]
pub(crate) fn text_is_ascii(s: &str) -> (r: bool)
    ensures
        r == ascii_text(s@),
{
    s.is_ascii()
}

/// Relies on `farcaster_core::trade::Deal::from_str`: decodes a deal from its
/// text encoding; success depends on the text alone.  The maker role is read
/// from the decoded deal's parameters.  The outside parser slices the text at
/// a byte offset and panics when that offset falls inside a multi-byte
/// character, so only ASCII text is admitted.
#[verifier::external_body]
pub(crate) fn parse_deal(s: &str) -> (r: Result<OfferInfo, farcaster_core::Error>)
    requires
        ascii_text(s@),
    ensures
        r.is_ok() == deal_parse_ok(s@),
        (r matches Ok(off) ==> off.maker_role == deal_maker_role(s@)),
{
    let deal = farcaster_core::swap::btcxmr::Deal::from_str(s)?;
    let maker_role = match deal.parameters.maker_role {
        farcaster_core::role::SwapRole::Alice => SwapRole::Alice,
        farcaster_core::role::SwapRole::Bob => SwapRole::Bob,
    };
    Ok(OfferInfo { deal, maker_role })
}

/// Relies on `Deal::to_arbitrating_params`: copies the arbitrating amount,
/// timelocks and fee strategy out of the deal.
#[verifier::external_body]
pub(crate) fn arb_params(
    d: &farcaster_core::swap::btcxmr::Deal,
) -> farcaster_core::swap::btcxmr::ArbitratingParameters {
    d.to_arbitrating_params()
}

/// Relies on `Deal`'s `peer_address` field and its text encoding: the
/// listening address of the maker's daemon, carried inside the deal.
#[verifier::external_body]
pub(crate) fn deal_peer(d: &farcaster_core::swap::btcxmr::Deal) -> String {
    d.peer_address.to_string()
}

/// Relies on `uuid::Uuid::new_v4`: a fresh random identifier.  Nothing is
/// promised of the value.
#[verifier::external_body]
pub(crate) fn random_swap_id() -> SwapId {
    let (hi, lo) = uuid::Uuid::new_v4().as_u64_pair();
    SwapId { hi, lo }
}

/// Relies on `bitcoin::Address::from_str`: parses a chain address from text;
/// success depends on the text alone.
#[verifier::external_body]
pub(crate) fn parse_btc_address(s: &str) -> (r: Option<bitcoin::Address>)
    ensures
        r.is_some() == btc_address_ok(s@),
{
    bitcoin::Address::from_str(s).ok()
}

/// Relies on `farcaster_core::swap::btcxmr::KeyManager::new`: derives the
/// per-swap account keys from the wallet seed at the given derivation index;
/// the index must be a valid hardened index, below 2^31.
#[verifier::external_body]
pub(crate) fn key_manager_new(seed: &[u8; 32], swap_index: u32) -> (r: Result<
    farcaster_core::swap::btcxmr::KeyManager,
    farcaster_core::Error,
>)
    requires
        swap_index < 0x8000_0000u32,
{
    farcaster_core::swap::btcxmr::KeyManager::new(*seed, swap_index).map_err(Into::into)
}


/// Relies on the `psbt` fields of the lock, cancel and refund partial
/// transactions: true exactly when each has exactly one input carrying its
/// witness utxo and a non-empty output list — the shape the engine's
/// validation and signing index without checking.
#[verifier::external_body]
pub(crate) fn core_txs_shape(
    c: &farcaster_core::swap::btcxmr::CoreArbitratingTransactions,
) -> (r: bool)
    ensures
        r == core_shape_ok(*c),
{
    let ok = |p: &bitcoin::util::psbt::PartiallySignedTransaction| {
        p.unsigned_tx.input.len() == 1 && p.inputs.len() == 1
            && p.inputs[0].witness_utxo.is_some() && !p.unsigned_tx.output.is_empty()
            && !p.outputs.is_empty()
    };
    ok(&c.lock) && ok(&c.cancel) && ok(&c.refund)
}

/// Relies on the `punish` field of a parameter set: true exactly when the
/// Alice-side punish key is present.
#[verifier::external_body]
pub(crate) fn params_punish_present(
    p: &farcaster_core::swap::btcxmr::Parameters,
) -> (r: bool)
    ensures
        r == params_has_punish(*p),
{
    p.punish.is_some()
}

/// Relies on `Alice::new` (a plain record constructor) and
/// `Alice::generate_parameters`: derives Alice's protocol parameters from the
/// key manager and the deal, for the given destination address and fee
/// politic.
#[verifier::external_body]
pub(crate) fn alice_generate_parameters(
    destination_address: &bitcoin::Address,
    fee: FeePriority,
    key_manager: &mut farcaster_core::swap::btcxmr::KeyManager,
    deal: &farcaster_core::swap::btcxmr::Deal,
) -> (r: Result<farcaster_core::swap::btcxmr::Parameters, farcaster_core::Error>)
    ensures
        (r matches Ok(p) ==> params_has_punish(p)),
{
    let role = farcaster_core::protocol::Alice::new(
        farcaster_core::bitcoin::BitcoinSegwitV0::new(),
        farcaster_core::monero::Monero,
        destination_address.clone(),
        match fee {
            FeePriority::Low => farcaster_core::blockchain::FeePriority::Low,
            FeePriority::High => farcaster_core::blockchain::FeePriority::High,
        },
    );
    role.generate_parameters(key_manager, deal)
}

/// Relies on `Bob::new` (a plain record constructor) and
/// `Bob::generate_parameters`: derives Bob's protocol parameters from the key
/// manager and the deal, for the given refund address and fee politic.
#[verifier::external_body]
pub(crate) fn bob_generate_parameters(
    refund_address: &bitcoin::Address,
    fee: FeePriority,
    key_manager: &mut farcaster_core::swap::btcxmr::KeyManager,
    deal: &farcaster_core::swap::btcxmr::Deal,
) -> Result<farcaster_core::swap::btcxmr::Parameters, farcaster_core::Error> {
    let role = farcaster_core::protocol::Bob::new(
        farcaster_core::bitcoin::BitcoinSegwitV0::new(),
        farcaster_core::monero::Monero,
        refund_address.clone(),
        match fee {
            FeePriority::Low => farcaster_core::blockchain::FeePriority::Low,
            FeePriority::High => farcaster_core::blockchain::FeePriority::High,
        },
    );
    role.generate_parameters(key_manager, deal)
}

/// Relies on `bitcoin::PrivateKey::from_slice` and
/// `bitcoin::PublicKey::from_private_key`: the public key of the funding key
/// encoded by the seed bytes; `None` exactly when the bytes are not a valid
/// secret key, a fact of the bytes alone.
#[verifier::external_body]
pub(crate) fn derive_funding_pubkey(seed: &[u8; 32]) -> (r: Option<
    bitcoin::secp256k1::PublicKey,
>)
    ensures
        r.is_some() == seed_key_ok(seed@),
{
    let secp = bitcoin::secp256k1::Secp256k1::new();
    let sk = bitcoin::PrivateKey::from_slice(seed, bitcoin::Network::Testnet).ok()?;
    Some(bitcoin::PublicKey::from_private_key(&secp, &sk).inner)
}

/// The funding transaction handle of a Bob-role swap: the engine's handle
/// beside a ghost record of the chain transaction last recorded as seen, so
/// that contracts can say a funding update really reached the handle.
pub struct FundingHandle {
    pub(crate) inner: farcaster_core::bitcoin::segwitv0::funding::Funding,
    /// The transaction recorded as seen, if any.
    pub(crate) seen: Ghost<Option<bitcoin::Transaction>>,
}

impl FundingHandle {
    /// The transaction recorded as seen on this handle, if any.
    pub closed spec fn seen_tx(&self) -> Option<bitcoin::Transaction> {
        self.seen@
    }

    /// Wrap a freshly initialized engine funding handle; nothing has been
    /// seen yet.
    pub(crate) fn new(inner: farcaster_core::bitcoin::segwitv0::funding::Funding) -> (r:
        FundingHandle)
        ensures
            r.seen_tx() is None,
    {
        FundingHandle { inner, seen: Ghost(None) }
    }

    /// Record a chain transaction on the handle.
    pub(crate) fn record_seen(&mut self, tx: bitcoin::Transaction) -> (r: Result<
        (),
        farcaster_core::Error,
    >)
        ensures
            r.is_ok(),
            final(self).seen_tx() == Some(tx),
    {
        let ghost gtx = tx;
        let r = funding_seen(&mut self.inner, tx);
        self.seen = Ghost(Some(gtx));
        r
    }
}

/// Relies on `Funding::initialize` (`Fundable` impl): records the public key
/// and network; the outside source returns `Ok` on every input.
#[verifier::external_body]
pub(crate) fn funding_initialize(
    pubkey: bitcoin::secp256k1::PublicKey,
    network: Network,
) -> (r: Result<farcaster_core::bitcoin::segwitv0::funding::Funding, farcaster_core::Error>)
    ensures
        r.is_ok(),
{
    let network = match network {
        Network::Mainnet => farcaster_core::blockchain::Network::Mainnet,
        Network::Testnet => farcaster_core::blockchain::Network::Testnet,
        Network::Local => farcaster_core::blockchain::Network::Local,
    };
    farcaster_core::bitcoin::segwitv0::funding::Funding::initialize(pubkey, network)
        .map_err(Into::into)
}

/// Relies on `Funding::get_address` (`Fundable` impl): the pay-to-witness
/// address of the recorded funding key on the recorded network.
#[verifier::external_body]
pub(crate) fn funding_address(
    funding: &FundingHandle,
) -> Result<bitcoin::Address, farcaster_core::Error> {
    funding.inner.get_address().map_err(Into::into)
}

/// Relies on `Funding::update` (`Fundable` impl): records the transaction as
/// seen on chain; the outside source returns `Ok` on every input.
#[verifier::external_body]
pub(crate) fn funding_seen(
    funding: &mut farcaster_core::bitcoin::segwitv0::funding::Funding,
    tx: bitcoin::Transaction,
) -> (r: Result<(), farcaster_core::Error>)
    ensures
        r.is_ok(),
{
    funding.update(tx).map_err(Into::into)
}

/// Relies on `bitcoin::consensus::encode::deserialize`: decodes a chain
/// transaction; success depends on the bytes alone.
#[verifier::external_body]
pub(crate) fn deserialize_tx(b: &Vec<u8>) -> (r: Option<bitcoin::Transaction>)
    ensures
        r.is_some() == tx_decode_ok(b@),
{
    bitcoin::consensus::encode::deserialize(b).ok()
}

/// Relies on `CommitBobParameters::verify_with_reveal` with the keccak
/// commitment engine: `Ok` exactly when every revealed value hashes to the
/// stored commitment.
#[verifier::external_body]
pub(crate) fn verify_bob_reveal(
    commit: &farcaster_core::swap::btcxmr::message::CommitBobParameters,
    msg: &farcaster_core::swap::btcxmr::message::RevealBobParameters,
) -> Result<(), farcaster_core::Error> {
    commit
        .verify_with_reveal(&farcaster_core::crypto::CommitmentEngine, msg.clone())
        .map_err(Into::into)
}

/// Relies on `RevealAliceParameters::into_parameters`: repackages the
/// revealed fields as a parameters value.
#[verifier::external_body]
pub(crate) fn reveal_alice_into_parameters(
    msg: farcaster_core::swap::btcxmr::message::RevealAliceParameters,
) -> (r: farcaster_core::swap::btcxmr::Parameters)
    ensures
        params_has_punish(r),
{
    msg.into_parameters()
}

/// Relies on `RevealBobParameters::into_parameters`: repackages the revealed
/// fields as a parameters value.
#[verifier::external_body]
pub(crate) fn reveal_bob_into_parameters(
    msg: farcaster_core::swap::btcxmr::message::RevealBobParameters,
) -> farcaster_core::swap::btcxmr::Parameters {
    msg.into_parameters()
}

/// Relies on `Bob::new` (a plain record constructor) and
/// `Bob::core_arbitrating_transactions`: builds the lock, cancel and refund
/// transactions over the funding output.
#[verifier::external_body]
pub(crate) fn core_arbitrating_transactions(
    refund_address: &bitcoin::Address,
    fee: FeePriority,
    alice_parameters: &farcaster_core::swap::btcxmr::Parameters,
    bob_parameters: &farcaster_core::swap::btcxmr::Parameters,
    funding: &FundingHandle,
    arb: farcaster_core::swap::btcxmr::ArbitratingParameters,
) -> (r: Result<farcaster_core::swap::btcxmr::CoreArbitratingTransactions, farcaster_core::Error>)
    requires
        params_has_punish(*alice_parameters),
    ensures
        (r matches Ok(c) ==> core_shape_ok(c)),
{
    let role = farcaster_core::protocol::Bob::new(
        farcaster_core::bitcoin::BitcoinSegwitV0::new(),
        farcaster_core::monero::Monero,
        refund_address.clone(),
        match fee {
            FeePriority::Low => farcaster_core::blockchain::FeePriority::Low,
            FeePriority::High => farcaster_core::blockchain::FeePriority::High,
        },
    );
    role.core_arbitrating_transactions(
        alice_parameters,
        bob_parameters,
        funding.inner.clone(),
        arb,
    )
}

/// Relies on `Bob::new` (a plain record constructor) and
/// `Bob::cosign_arbitrating_cancel`: Bob's witness signature on the cancel
/// transaction.
#[verifier::external_body]
pub(crate) fn bob_cosign_arbitrating_cancel(
    refund_address: &bitcoin::Address,
    fee: FeePriority,
    key_manager: &mut farcaster_core::swap::btcxmr::KeyManager,
    core: &farcaster_core::swap::btcxmr::CoreArbitratingTransactions,
) -> (r: Result<bitcoin::secp256k1::ecdsa::Signature, farcaster_core::Error>)
    requires
        core_shape_ok(*core),
{
    let role = farcaster_core::protocol::Bob::new(
        farcaster_core::bitcoin::BitcoinSegwitV0::new(),
        farcaster_core::monero::Monero,
        refund_address.clone(),
        match fee {
            FeePriority::Low => farcaster_core::blockchain::FeePriority::Low,
            FeePriority::High => farcaster_core::blockchain::FeePriority::High,
        },
    );
    role.cosign_arbitrating_cancel(key_manager, core)
}

/// Relies on `CoreArbitratingTransactions::into_arbitrating_setup`: packs the
/// transactions and the cancel signature into the setup message for the given
/// swap.
#[verifier::external_body]
pub(crate) fn into_arbitrating_setup(
    swap_id: SwapId,
    core: &farcaster_core::swap::btcxmr::CoreArbitratingTransactions,
    cancel_sig: bitcoin::secp256k1::ecdsa::Signature,
) -> farcaster_core::swap::btcxmr::message::CoreArbitratingSetup {
    let id = farcaster_core::swap::SwapId::from(uuid::Uuid::from_u64_pair(swap_id.hi, swap_id.lo));
    core.clone().into_arbitrating_setup(id, cancel_sig)
}

/// Relies on `CoreArbitratingSetup::into_arbitrating_tx`: unpacks the lock,
/// cancel and refund transactions carried by the setup message.
#[verifier::external_body]
pub(crate) fn setup_into_arbitrating_tx(
    setup: &farcaster_core::swap::btcxmr::message::CoreArbitratingSetup,
) -> farcaster_core::swap::btcxmr::CoreArbitratingTransactions {
    setup.clone().into_arbitrating_tx()
}

/// Relies on `Alice::sign_adaptor_refund`: validates the core transactions
/// and produces the adaptor refund signature.
#[verifier::external_body]
pub(crate) fn alice_sign_adaptor_refund(
    destination_address: &bitcoin::Address,
    fee: FeePriority,
    key_manager: &mut farcaster_core::swap::btcxmr::KeyManager,
    alice_parameters: &farcaster_core::swap::btcxmr::Parameters,
    bob_parameters: &farcaster_core::swap::btcxmr::Parameters,
    core: &farcaster_core::swap::btcxmr::CoreArbitratingTransactions,
    arb: farcaster_core::swap::btcxmr::ArbitratingParameters,
) -> (r: Result<ecdsa_fun::adaptor::EncryptedSignature, farcaster_core::Error>)
    requires
        core_shape_ok(*core),
        params_has_punish(*alice_parameters),
{
    let role = farcaster_core::protocol::Alice::new(
        farcaster_core::bitcoin::BitcoinSegwitV0::new(),
        farcaster_core::monero::Monero,
        destination_address.clone(),
        match fee {
            FeePriority::Low => farcaster_core::blockchain::FeePriority::Low,
            FeePriority::High => farcaster_core::blockchain::FeePriority::High,
        },
    );
    role.sign_adaptor_refund(key_manager, alice_parameters, bob_parameters, core, arb)
}

/// Relies on `Alice::cosign_arbitrating_cancel`: validates the core
/// transactions and produces Alice's witness signature on the cancel
/// transaction.
#[verifier::external_body]
pub(crate) fn alice_cosign_arbitrating_cancel(
    destination_address: &bitcoin::Address,
    fee: FeePriority,
    key_manager: &mut farcaster_core::swap::btcxmr::KeyManager,
    alice_parameters: &farcaster_core::swap::btcxmr::Parameters,
    bob_parameters: &farcaster_core::swap::btcxmr::Parameters,
    core: &farcaster_core::swap::btcxmr::CoreArbitratingTransactions,
    arb: farcaster_core::swap::btcxmr::ArbitratingParameters,
) -> (r: Result<bitcoin::secp256k1::ecdsa::Signature, farcaster_core::Error>)
    requires
        core_shape_ok(*core),
        params_has_punish(*alice_parameters),
{
    let role = farcaster_core::protocol::Alice::new(
        farcaster_core::bitcoin::BitcoinSegwitV0::new(),
        farcaster_core::monero::Monero,
        destination_address.clone(),
        match fee {
            FeePriority::Low => farcaster_core::blockchain::FeePriority::Low,
            FeePriority::High => farcaster_core::blockchain::FeePriority::High,
        },
    );
    role.cosign_arbitrating_cancel(key_manager, alice_parameters, bob_parameters, core, arb)
}

/// Relies on the `RefundProcedureSignatures` message shape: packs the cancel
/// cosignature and the adaptor refund signature for the given swap.
#[verifier::external_body]
pub(crate) fn refund_procedure_signatures_msg(
    swap_id: SwapId,
    cancel_sig: bitcoin::secp256k1::ecdsa::Signature,
    refund_adaptor_sig: ecdsa_fun::adaptor::EncryptedSignature,
) -> farcaster_core::swap::btcxmr::message::RefundProcedureSignatures {
    let id = farcaster_core::swap::SwapId::from(uuid::Uuid::from_u64_pair(swap_id.hi, swap_id.lo));
    farcaster_core::swap::btcxmr::message::RefundProcedureSignatures {
        swap_id: id,
        cancel_sig,
        refund_adaptor_sig,
    }
}

/// Relies on `Bob::sign_adaptor_buy`: validates the core transactions and
/// produces the buy-procedure-signature message for the given swap.
#[verifier::external_body]
pub(crate) fn bob_sign_adaptor_buy(
    swap_id: SwapId,
    refund_address: &bitcoin::Address,
    fee: FeePriority,
    key_manager: &mut farcaster_core::swap::btcxmr::KeyManager,
    alice_parameters: &farcaster_core::swap::btcxmr::Parameters,
    bob_parameters: &farcaster_core::swap::btcxmr::Parameters,
    core: &farcaster_core::swap::btcxmr::CoreArbitratingTransactions,
    arb: farcaster_core::swap::btcxmr::ArbitratingParameters,
) -> (r: Result<
    farcaster_core::swap::btcxmr::message::BuyProcedureSignature,
    farcaster_core::Error,
>)
    requires
        core_shape_ok(*core),
        params_has_punish(*alice_parameters),
{
    let role = farcaster_core::protocol::Bob::new(
        farcaster_core::bitcoin::BitcoinSegwitV0::new(),
        farcaster_core::monero::Monero,
        refund_address.clone(),
        match fee {
            FeePriority::Low => farcaster_core::blockchain::FeePriority::Low,
            FeePriority::High => farcaster_core::blockchain::FeePriority::High,
        },
    );
    let id = farcaster_core::swap::SwapId::from(uuid::Uuid::from_u64_pair(swap_id.hi, swap_id.lo));
    role.sign_adaptor_buy(id, key_manager, alice_parameters, bob_parameters, core, arb)
}

/// Relies on `Bob::sign_arbitrating_lock`: Bob's witness signature on the
/// lock transaction.
#[verifier::external_body]
pub(crate) fn bob_sign_arbitrating_lock(
    refund_address: &bitcoin::Address,
    fee: FeePriority,
    key_manager: &mut farcaster_core::swap::btcxmr::KeyManager,
    core: &farcaster_core::swap::btcxmr::CoreArbitratingTransactions,
) -> (r: Result<bitcoin::secp256k1::ecdsa::Signature, farcaster_core::Error>)
    requires
        core_shape_ok(*core),
{
    let role = farcaster_core::protocol::Bob::new(
        farcaster_core::bitcoin::BitcoinSegwitV0::new(),
        farcaster_core::monero::Monero,
        refund_address.clone(),
        match fee {
            FeePriority::Low => farcaster_core::blockchain::FeePriority::Low,
            FeePriority::High => farcaster_core::blockchain::FeePriority::High,
        },
    );
    role.sign_arbitrating_lock(key_manager, core)
}

/// Relies on `Deal`'s derived `Clone`: a field-wise copy, equal to the
/// original.
#[verifier::external_body]
pub(crate) fn clone_offer(o: &OfferInfo) -> (r: OfferInfo)
    ensures
        r == *o,
{
    OfferInfo { deal: o.deal.clone(), maker_role: o.maker_role }
}

/// Relies on `Parameters`' derived `Clone`: a field-wise copy, equal to the
/// original.
#[verifier::external_body]
pub(crate) fn clone_parameters(
    p: &farcaster_core::swap::btcxmr::Parameters,
) -> (r: farcaster_core::swap::btcxmr::Parameters)
    ensures
        r == *p,
{
    p.clone()
}

/// Relies on `bitcoin::Address`'s derived `Clone`: a field-wise copy, equal
/// to the original.
#[verifier::external_body]
pub(crate) fn clone_address(a: &bitcoin::Address) -> (r: bitcoin::Address)
    ensures
        r == *a,
{
    a.clone()
}

/// Relies on `CommitAliceParameters`' derived `Clone`: a field-wise copy,
/// equal to the original.
#[verifier::external_body]
pub(crate) fn clone_alice_commit(
    c: &farcaster_core::swap::btcxmr::message::CommitAliceParameters,
) -> (r: farcaster_core::swap::btcxmr::message::CommitAliceParameters)
    ensures
        r == *c,
{
    c.clone()
}

/// Relies on `CommitBobParameters`' derived `Clone`: a field-wise copy,
/// equal to the original.
#[verifier::external_body]
pub(crate) fn clone_bob_commit(
    c: &farcaster_core::swap::btcxmr::message::CommitBobParameters,
) -> (r: farcaster_core::swap::btcxmr::message::CommitBobParameters)
    ensures
        r == *c,
{
    c.clone()
}

/// Relies on `secp256k1::SecretKey`'s derived `Clone`: a copy equal to the
/// original.
#[verifier::external_body]
pub(crate) fn clone_secret_key(k: &bitcoin::secp256k1::SecretKey) -> (r:
    bitcoin::secp256k1::SecretKey)
    ensures
        r == *k,
{
    *k
}

/// Relies on `secp256k1::PublicKey` being `Copy`: a copy equal to the
/// original.
#[verifier::external_body]
pub(crate) fn clone_public_key(k: &bitcoin::secp256k1::PublicKey) -> (r:
    bitcoin::secp256k1::PublicKey)
    ensures
        r == *k,
{
    *k
}

} // verus!
