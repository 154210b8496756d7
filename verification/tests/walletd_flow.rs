//! The wallet coordinator driven through creation, the handshake and its
//! guard rails, with the real swap protocol engine underneath.

use std::str::FromStr;

use farcaster_core::transaction::Fundable;
use farcaster_node::engine::OfferInfo;
use farcaster_node::rpc::{Commit, GetKeys, Msg, Params, PubOffer, Request, Reveal, Senders,
    TakeCommit};
use farcaster_node::types::{NodeError, NodeSecrets, ServiceBus, ServiceId, SwapId, SwapRole,
    Token, TradeRole};
use farcaster_node::walletd::{Phase, Runtime, Wallet};

fn secrets(tag: u8) -> NodeSecrets {
    let secp = bitcoin::secp256k1::Secp256k1::new();
    let sk = bitcoin::secp256k1::SecretKey::from_slice(&[tag; 32]).unwrap();
    let pk = bitcoin::secp256k1::PublicKey::from_secret_key(&secp, &sk);
    NodeSecrets { wallet_seed: [tag; 32], peerd_secret_key: sk, node_id: pk }
}

fn runtime(tag: u8, token: &[u8]) -> Runtime {
    let ns = secrets(tag);
    let node_id = ns.node_id;
    Runtime::new(Token(token.to_vec()), ns, node_id)
}

fn deal(maker_role: farcaster_core::role::SwapRole) -> farcaster_core::swap::btcxmr::Deal {
    let params = farcaster_core::swap::btcxmr::DealParameters {
        uuid: farcaster_core::trade::DealId::from(uuid::Uuid::from_u64_pair(7, 7)),
        network: farcaster_core::blockchain::Network::Testnet,
        arbitrating_blockchain: farcaster_core::blockchain::Blockchain::Bitcoin,
        accordant_blockchain: farcaster_core::blockchain::Blockchain::Monero,
        arbitrating_amount: bitcoin::Amount::from_sat(100_000),
        accordant_amount: monero::Amount::from_pico(1_000_000_000_000),
        cancel_timelock: farcaster_core::bitcoin::timelock::CSVTimelock::new(4),
        punish_timelock: farcaster_core::bitcoin::timelock::CSVTimelock::new(6),
        fee_strategy: farcaster_core::blockchain::FeeStrategy::Fixed(
            farcaster_core::bitcoin::fee::SatPerKvB::from_sat(1000),
        ),
        maker_role,
    };
    let secp = bitcoin::secp256k1::Secp256k1::new();
    let node_sk = bitcoin::secp256k1::SecretKey::from_slice(&[9u8; 32]).unwrap();
    let node_id = bitcoin::secp256k1::PublicKey::from_secret_key(&secp, &node_sk);
    let peer_address = inet2_addr::InetSocketAddr::socket(
        FromStr::from_str("1.2.3.4").unwrap(),
        FromStr::from_str("9735").unwrap(),
    );
    params.to_v1(node_id, peer_address)
}

fn offer(maker_role: SwapRole) -> OfferInfo {
    let mr = match maker_role {
        SwapRole::Alice => farcaster_core::role::SwapRole::Alice,
        SwapRole::Bob => farcaster_core::role::SwapRole::Bob,
    };
    OfferInfo { deal: deal(mr), maker_role }
}

fn ext_sid(sid: SwapId) -> farcaster_core::swap::SwapId {
    farcaster_core::swap::SwapId::from(uuid::Uuid::from_u64_pair(sid.hi, sid.lo))
}

fn test_address() -> bitcoin::Address {
    bitcoin::Address::from_str("tb1qdk49um4fyc7306lp9mhhlkacxz9cmhnr6k8e37").unwrap()
}

fn bob_params(
    tag: u8,
    d: &farcaster_core::swap::btcxmr::Deal,
) -> farcaster_core::swap::btcxmr::Parameters {
    let mut km = farcaster_core::swap::btcxmr::KeyManager::new([tag; 32], 0).unwrap();
    let bob = farcaster_core::protocol::Bob::new(
        farcaster_core::bitcoin::BitcoinSegwitV0::new(),
        farcaster_core::monero::Monero,
        test_address(),
        farcaster_core::blockchain::FeePriority::High,
    );
    bob.generate_parameters(&mut km, d).unwrap()
}

fn alice_params(
    tag: u8,
    d: &farcaster_core::swap::btcxmr::Deal,
) -> farcaster_core::swap::btcxmr::Parameters {
    let mut km = farcaster_core::swap::btcxmr::KeyManager::new([tag; 32], 0).unwrap();
    let alice = farcaster_core::protocol::Alice::new(
        farcaster_core::bitcoin::BitcoinSegwitV0::new(),
        farcaster_core::monero::Monero,
        test_address(),
        farcaster_core::blockchain::FeePriority::High,
    );
    alice.generate_parameters(&mut km, d).unwrap()
}

/// A parameter set that hashes differently: two keys swapped.
fn tweaked(
    p: &farcaster_core::swap::btcxmr::Parameters,
) -> farcaster_core::swap::btcxmr::Parameters {
    let mut q = p.clone();
    let buy = q.buy;
    q.buy = q.refund;
    q.refund = buy;
    q
}

fn funding_pubkey(tag: u8) -> bitcoin::secp256k1::PublicKey {
    let secp = bitcoin::secp256k1::Secp256k1::new();
    let sk = bitcoin::PrivateKey::from_slice(&[tag; 32], bitcoin::Network::Testnet).unwrap();
    bitcoin::PublicKey::from_private_key(&secp, &sk).inner
}

fn funding_tx_paying(pk: bitcoin::secp256k1::PublicKey, value: u64) -> bitcoin::Transaction {
    let addr = bitcoin::Address::p2wpkh(
        &bitcoin::util::key::PublicKey::new(pk),
        bitcoin::Network::Testnet,
    )
    .unwrap();
    bitcoin::Transaction {
        version: 2,
        lock_time: 0,
        input: vec![bitcoin::TxIn {
            previous_output: bitcoin::OutPoint::null(),
            script_sig: bitcoin::Script::new(),
            sequence: 0xFFFF_FFFF,
            witness: bitcoin::Witness::default(),
        }],
        output: vec![bitcoin::TxOut { value, script_pubkey: addr.script_pubkey() }],
    }
}

/// The funding value the fee strategy accepts: target plus the exact lock
/// transaction fee.
fn find_funding_value(
    d: &farcaster_core::swap::btcxmr::Deal,
    pa: &farcaster_core::swap::btcxmr::Parameters,
    pb: &farcaster_core::swap::btcxmr::Parameters,
    pk: bitcoin::secp256k1::PublicKey,
) -> u64 {
    let bob = farcaster_core::protocol::Bob::new(
        farcaster_core::bitcoin::BitcoinSegwitV0::new(),
        farcaster_core::monero::Monero,
        test_address(),
        farcaster_core::blockchain::FeePriority::High,
    );
    let target = 100_000u64;
    for value in target + 1..target + 2_000 {
        let mut f = farcaster_core::bitcoin::segwitv0::funding::Funding::initialize(
            pk,
            farcaster_core::blockchain::Network::Testnet,
        )
        .unwrap();
        f.update(funding_tx_paying(pk, value)).unwrap();
        if bob
            .core_arbitrating_transactions(pa, pb, f, d.to_arbitrating_params())
            .is_ok()
        {
            return value;
        }
    }
    panic!("no funding value satisfies the fee strategy");
}

fn commitment_engine() -> farcaster_core::crypto::CommitmentEngine {
    farcaster_core::crypto::CommitmentEngine
}

#[test]
fn take_offer_maker_bob_creates_taker_alice() {
    let mut rt = runtime(11, b"token");
    let mut s = Senders::new();
    let sid = rt.take_offer(&mut s, ServiceId::Client(1), offer(SwapRole::Bob)).unwrap();
    assert_eq!(rt.phase_of(sid), Some(Phase::LocalParamsReady));
    match rt.wallets.get(sid).unwrap() {
        Wallet::Alice(a) => {
            assert!(a.remote_commit.is_none());
            assert!(a.remote_params.is_none());
        },
        _ => panic!("taker of a Bob-maker offer must hold an Alice wallet"),
    }
    let msgs = s.take_all();
    assert_eq!(msgs.len(), 1);
    assert_eq!(msgs[0].bus, ServiceBus::Ctl);
    assert_eq!(msgs[0].dest, ServiceId::Farcasterd);
    match &msgs[0].req {
        Request::LaunchSwap(ls) => {
            assert_eq!(ls.local_trade_role, TradeRole::Taker);
            assert_eq!(ls.swap_id, sid);
            assert!(ls.remote_commit.is_none());
            assert!(matches!(ls.local_params, Params::Alice(_)));
            assert!(ls.funding_address.is_none());
        },
        _ => panic!("expected a LaunchSwap capsule"),
    }
}

#[test]
fn take_offer_maker_alice_creates_taker_bob() {
    let mut rt = runtime(12, b"token");
    let mut s = Senders::new();
    let sid = rt.take_offer(&mut s, ServiceId::Client(1), offer(SwapRole::Alice)).unwrap();
    assert_eq!(rt.phase_of(sid), Some(Phase::FundingReady));
    match rt.wallets.get(sid).unwrap() {
        Wallet::Bob(b) => assert!(b.funding.is_some()),
        _ => panic!("taker of an Alice-maker offer must hold a Bob wallet"),
    }
    let msgs = s.take_all();
    assert_eq!(msgs.len(), 1);
    match &msgs[0].req {
        Request::LaunchSwap(ls) => {
            assert_eq!(ls.local_trade_role, TradeRole::Taker);
            assert!(matches!(ls.local_params, Params::Bob(_)));
            assert!(ls.funding_address.is_some());
            assert!(ls.remote_commit.is_none());
        },
        _ => panic!("expected a LaunchSwap capsule"),
    }
}

#[test]
fn taker_commit_role_mismatch_rejected_without_state() {
    let mut m = runtime(21, b"token");
    let mut s = Senders::new();
    let off = offer(SwapRole::Bob);
    let sid = SwapId { hi: 1, lo: 2 };
    // A Bob-shaped commitment where an Alice-shaped one is expected.
    let pb = bob_params(22, &off.deal);
    let cb = pb.commit_bob(ext_sid(sid), &commitment_engine());
    let r = m.taker_commit(&mut s, off, Commit::Bob { swap_id: sid, commit: cb }, sid);
    assert!(r.is_err());
    assert_eq!(m.phase_of(sid), None);
    assert_eq!(s.take_all().len(), 0);
}

#[test]
fn duplicate_swap_creation_rejected() {
    let mut m = runtime(31, b"token");
    let mut s = Senders::new();
    let off = offer(SwapRole::Bob);
    let hex = off.deal.to_string();
    let sid = SwapId { hi: 3, lo: 4 };
    let pa = alice_params(32, &off.deal);
    let ca = pa.commit_alice(ext_sid(sid), &commitment_engine());
    let msg = |c: farcaster_core::swap::btcxmr::message::CommitAliceParameters| {
        Request::Protocol(Msg::TakerCommit(TakeCommit {
            commit: Commit::Alice { swap_id: sid, commit: c },
            public_offer_hex: hex.clone(),
            swap_id: sid,
        }))
    };
    let first = m.handle_rpc_msg(&mut s, ServiceId::Farcasterd, msg(ca.clone()));
    assert!(first.is_ok());
    assert_eq!(m.phase_of(sid), Some(Phase::RemoteCommitKnown));
    assert_eq!(s.take_all().len(), 1);
    // A second creation attempt for the same id must not mutate the first.
    let second = m.handle_rpc_msg(&mut s, ServiceId::Farcasterd, msg(ca));
    assert!(second.is_err());
    assert_eq!(m.phase_of(sid), Some(Phase::RemoteCommitKnown));
    assert_eq!(s.take_all().len(), 0);
}

#[test]
fn maker_commit_slot_set_only_once() {
    let mut rt = runtime(41, b"token");
    let mut s = Senders::new();
    let sid = rt.take_offer(&mut s, ServiceId::Client(1), offer(SwapRole::Bob)).unwrap();
    let _ = s.take_all();
    let d = deal(farcaster_core::role::SwapRole::Bob);
    let pb = bob_params(42, &d);
    let c1 = pb.commit_bob(ext_sid(sid), &commitment_engine());
    let r1 = rt.handle_rpc_msg(
        &mut s,
        ServiceId::Swap(sid),
        Request::Protocol(Msg::MakerCommit(Commit::Bob { swap_id: sid, commit: c1.clone() })),
    );
    assert!(r1.is_ok());
    assert_eq!(rt.phase_of(sid), Some(Phase::RemoteCommitKnown));
    // A different commitment for the same slot is dropped; the original
    // value stays.
    let c2 = tweaked(&pb).commit_bob(ext_sid(sid), &commitment_engine());
    let r2 = rt.handle_rpc_msg(
        &mut s,
        ServiceId::Swap(sid),
        Request::Protocol(Msg::MakerCommit(Commit::Bob { swap_id: sid, commit: c2 })),
    );
    assert!(r2.is_ok());
    assert_eq!(rt.phase_of(sid), Some(Phase::RemoteCommitKnown));
    match rt.wallets.get(sid).unwrap() {
        Wallet::Alice(a) => {
            let stored = a.remote_commit.as_ref().unwrap();
            assert_eq!(format!("{:?}", stored), format!("{:?}", c1));
        },
        _ => panic!("expected an Alice wallet"),
    }
    assert_eq!(s.take_all().len(), 0);
}

#[test]
fn reveal_not_matching_commitment_is_hard_error_and_never_stored() {
    let mut rt = runtime(51, b"token");
    let mut s = Senders::new();
    let sid = rt.take_offer(&mut s, ServiceId::Client(1), offer(SwapRole::Bob)).unwrap();
    let _ = s.take_all();
    let d = deal(farcaster_core::role::SwapRole::Bob);
    let pb = bob_params(52, &d);
    // Commit to a tweaked parameter set, then reveal the original one.
    let c_bad = tweaked(&pb).commit_bob(ext_sid(sid), &commitment_engine());
    rt.handle_rpc_msg(
        &mut s,
        ServiceId::Swap(sid),
        Request::Protocol(Msg::MakerCommit(Commit::Bob { swap_id: sid, commit: c_bad })),
    )
    .unwrap();
    let r = rt.handle_rpc_msg(
        &mut s,
        ServiceId::Swap(sid),
        Request::Protocol(Msg::Reveal(Reveal::Bob(pb.clone().reveal_bob(ext_sid(sid))))),
    );
    assert!(r.is_err());
    assert_eq!(rt.phase_of(sid), Some(Phase::RemoteCommitKnown));
    match rt.wallets.get(sid).unwrap() {
        Wallet::Alice(a) => assert!(a.remote_params.is_none()),
        _ => panic!("expected an Alice wallet"),
    }
    assert_eq!(s.take_all().len(), 0);
}

#[test]
fn get_keys_with_wrong_token_discloses_nothing() {
    let mut rt = runtime(61, b"right-token");
    let mut s = Senders::new();
    let r = rt.handle_rpc_ctl(
        &mut s,
        ServiceId::Client(4),
        Request::GetKeys(GetKeys(Token(b"wrong-token".to_vec()), 77)),
    );
    assert!(matches!(r, Err(NodeError::InvalidToken)));
    assert_eq!(s.take_all().len(), 0);
}

#[test]
fn get_keys_with_matching_token_sends_keys_once() {
    let mut rt = runtime(62, b"right-token");
    let mut s = Senders::new();
    let r = rt.handle_rpc_ctl(
        &mut s,
        ServiceId::Client(4),
        Request::GetKeys(GetKeys(Token(b"right-token".to_vec()), 77)),
    );
    assert!(r.is_ok());
    let msgs = s.take_all();
    assert_eq!(msgs.len(), 1);
    assert_eq!(msgs[0].dest, ServiceId::Farcasterd);
    match &msgs[0].req {
        Request::Keys(k) => assert_eq!(k.2, 77),
        _ => panic!("expected a Keys response"),
    }
}

#[test]
fn bridge_bus_not_supported() {
    let mut rt = runtime(63, b"token");
    let mut s = Senders::new();
    let r = rt.handle(&mut s, ServiceBus::Bridge, ServiceId::Client(1), Request::Hello);
    assert!(matches!(r, Err(NodeError::NotSupported(ServiceBus::Bridge, 0))));
    assert_eq!(s.take_all().len(), 0);
}

#[test]
fn hello_without_pending_request_is_silent() {
    let mut rt = runtime(64, b"token");
    let mut s = Senders::new();
    let sid = rt.take_offer(&mut s, ServiceId::Client(1), offer(SwapRole::Bob)).unwrap();
    let _ = s.take_all();
    let r = rt.handle_rpc_ctl(&mut s, ServiceId::Swap(sid), Request::Hello);
    assert!(r.is_ok());
    assert_eq!(s.take_all().len(), 0);
    let unknown = SwapId { hi: 99, lo: 99 };
    let r2 = rt.handle_rpc_ctl(&mut s, ServiceId::Swap(unknown), Request::Hello);
    assert!(r2.is_ok());
    assert_eq!(s.take_all().len(), 0);
}

#[test]
fn funding_update_rejects_undecodable_bytes() {
    let mut rt = runtime(65, b"token");
    let mut s = Senders::new();
    let sid = rt.take_offer(&mut s, ServiceId::Client(1), offer(SwapRole::Alice)).unwrap();
    let _ = s.take_all();
    let r = rt.funding_updated(sid, &vec![0u8, 1, 2, 3]);
    assert!(r.is_err());
    let good = bitcoin::consensus::encode::serialize(&funding_tx_paying(funding_pubkey(12), 5000));
    assert!(rt.funding_updated(sid, &good).is_ok());
}

#[test]
fn handshake_end_to_end_reaches_complete_on_both_sides() {
    // Taker side resolves to Alice, maker side to Bob.
    let maker_seed = 71u8;
    let mut maker = runtime(maker_seed, b"token-m");
    let mut taker = runtime(72, b"token-t");
    let mut sm = Senders::new();
    let mut st = Senders::new();
    let off = offer(SwapRole::Bob);
    let hex = off.deal.to_string();

    // Taker begins the swap.
    let sid = taker.take_offer(&mut st, ServiceId::Client(1), offer(SwapRole::Bob)).unwrap();
    let t_launch = st.take_all();
    assert_eq!(t_launch.len(), 1);
    let pt = match &t_launch[0].req {
        Request::LaunchSwap(ls) => match &ls.local_params {
            Params::Alice(p) => p.clone(),
            _ => panic!("taker must be Alice"),
        },
        _ => panic!("expected LaunchSwap"),
    };

    // The taker's executor commits to her parameters towards the maker.
    let commit_alice = pt.commit_alice(ext_sid(sid), &commitment_engine());
    maker
        .handle_rpc_msg(
            &mut sm,
            ServiceId::Farcasterd,
            Request::Protocol(Msg::TakerCommit(TakeCommit {
                commit: Commit::Alice { swap_id: sid, commit: commit_alice },
                public_offer_hex: hex,
                swap_id: sid,
            })),
        )
        .unwrap();
    assert_eq!(maker.phase_of(sid), Some(Phase::RemoteCommitKnown));
    let m_launch = sm.take_all();
    assert_eq!(m_launch.len(), 1);
    let pm = match &m_launch[0].req {
        Request::LaunchSwap(ls) => match &ls.local_params {
            Params::Bob(p) => p.clone(),
            _ => panic!("maker must be Bob"),
        },
        _ => panic!("expected LaunchSwap"),
    };

    // The maker's funding transaction is seen on chain.
    let pk = funding_pubkey(maker_seed);
    let value = find_funding_value(&off.deal, &pt, &pm, pk);
    let raw = bitcoin::consensus::encode::serialize(&funding_tx_paying(pk, value));
    maker.funding_updated(sid, &raw).unwrap();

    // Maker commits towards the taker; taker stores, then the reveals flow.
    let commit_bob = pm.commit_bob(ext_sid(sid), &commitment_engine());
    taker
        .handle_rpc_msg(
            &mut st,
            ServiceId::Swap(sid),
            Request::Protocol(Msg::MakerCommit(Commit::Bob { swap_id: sid, commit: commit_bob })),
        )
        .unwrap();
    assert_eq!(taker.phase_of(sid), Some(Phase::RemoteCommitKnown));

    taker
        .handle_rpc_msg(
            &mut st,
            ServiceId::Swap(sid),
            Request::Protocol(Msg::Reveal(Reveal::Bob(pm.clone().reveal_bob(ext_sid(sid))))),
        )
        .unwrap();
    assert_eq!(taker.phase_of(sid), Some(Phase::RemoteParamsRevealed));
    assert_eq!(st.take_all().len(), 0);

    maker
        .handle_rpc_msg(
            &mut sm,
            ServiceId::Swap(sid),
            Request::Protocol(Msg::Reveal(Reveal::Alice(pt.clone().reveal_alice(ext_sid(sid))))),
        )
        .unwrap();
    assert_eq!(maker.phase_of(sid), Some(Phase::SetupSent));
    let m_out = sm.take_all();
    assert_eq!(m_out.len(), 1);
    let setup = match m_out.into_iter().next().unwrap().req {
        Request::Protocol(Msg::CoreArbitratingSetup(x)) => x,
        _ => panic!("expected a CoreArbitratingSetup"),
    };

    taker
        .handle_rpc_msg(
            &mut st,
            ServiceId::Swap(sid),
            Request::Protocol(Msg::CoreArbitratingSetup(setup)),
        )
        .unwrap();
    assert_eq!(taker.phase_of(sid), Some(Phase::RefundSigsSent));
    let t_out = st.take_all();
    assert_eq!(t_out.len(), 1);
    let refund_sigs = match t_out.into_iter().next().unwrap().req {
        Request::Protocol(Msg::RefundProcedureSignatures(x)) => x,
        _ => panic!("expected RefundProcedureSignatures"),
    };

    maker
        .handle_rpc_msg(
            &mut sm,
            ServiceId::Swap(sid),
            Request::Protocol(Msg::RefundProcedureSignatures(refund_sigs)),
        )
        .unwrap();
    assert_eq!(maker.phase_of(sid), Some(Phase::Complete));
    let m_out2 = sm.take_all();
    assert_eq!(m_out2.len(), 1);
    let buy_sig = match m_out2.into_iter().next().unwrap().req {
        Request::Protocol(Msg::BuyProcedureSignature(x)) => x,
        _ => panic!("expected BuyProcedureSignature"),
    };

    taker
        .handle_rpc_msg(
            &mut st,
            ServiceId::Swap(sid),
            Request::Protocol(Msg::BuyProcedureSignature(buy_sig)),
        )
        .unwrap();
    assert_eq!(taker.phase_of(sid), Some(Phase::Complete));

    // Every emitted message was consumed.
    assert_eq!(sm.take_all().len(), 0);
    assert_eq!(st.take_all().len(), 0);
}

#[test]
fn take_offer_on_control_channel_creates_swap() {
    let mut rt = runtime(66, b"token");
    let mut s = Senders::new();
    let r = rt.handle_rpc_ctl(
        &mut s,
        ServiceId::Client(2),
        Request::TakeOffer(PubOffer { public_offer: offer(SwapRole::Bob), peer_secret_key: None }),
    );
    assert!(r.is_ok());
    assert_eq!(s.take_all().len(), 1);
    // A request carrying a dedicated peer key is not served by the wallet.
    let sk = bitcoin::secp256k1::SecretKey::from_slice(&[5u8; 32]).unwrap();
    let r2 = rt.handle_rpc_ctl(
        &mut s,
        ServiceId::Client(2),
        Request::TakeOffer(PubOffer {
            public_offer: offer(SwapRole::Bob),
            peer_secret_key: Some(sk),
        }),
    );
    assert!(r2.is_ok());
    assert_eq!(s.take_all().len(), 0);
}

#[test]
fn unparsable_offer_text_is_domain_error() {
    let mut m = runtime(67, b"token");
    let mut s = Senders::new();
    let d = deal(farcaster_core::role::SwapRole::Bob);
    let sid = SwapId { hi: 8, lo: 8 };
    let pa = alice_params(68, &d);
    let ca = pa.commit_alice(ext_sid(sid), &commitment_engine());
    let r = m.handle_rpc_msg(
        &mut s,
        ServiceId::Farcasterd,
        Request::Protocol(Msg::TakerCommit(TakeCommit {
            commit: Commit::Alice { swap_id: sid, commit: ca },
            public_offer_hex: "not a deal".to_string(),
            swap_id: sid,
        })),
    );
    assert!(matches!(r, Err(NodeError::Farcaster(_))));
    assert_eq!(m.phase_of(sid), None);
    assert_eq!(s.take_all().len(), 0);
}

#[test]
fn non_protocol_requests_on_msg_channel_are_dropped() {
    let mut rt = runtime(69, b"token");
    let mut s = Senders::new();
    let r = rt.handle(
        &mut s,
        ServiceBus::Msg,
        ServiceId::Client(1),
        Request::TakeOffer(PubOffer { public_offer: offer(SwapRole::Bob), peer_secret_key: None }),
    );
    assert!(r.is_ok());
    assert_eq!(s.take_all().len(), 0);
    assert!(rt.handle(&mut s, ServiceBus::Msg, ServiceId::Client(1), Request::Hello).is_ok());
    assert_eq!(s.take_all().len(), 0);
}

#[test]
fn non_ascii_offer_text_is_rejected_not_fatal() {
    let mut m = runtime(73, b"token");
    let mut s = Senders::new();
    let d = deal(farcaster_core::role::SwapRole::Bob);
    let sid = SwapId { hi: 9, lo: 9 };
    let pa = alice_params(74, &d);
    let ca = pa.commit_alice(ext_sid(sid), &commitment_engine());
    // The fifth byte of this text falls inside a multi-byte character; the
    // outside parser would slice through it.  The coordinator must reject,
    // not crash.
    let r = m.handle_rpc_msg(
        &mut s,
        ServiceId::Farcasterd,
        Request::Protocol(Msg::TakerCommit(TakeCommit {
            commit: Commit::Alice { swap_id: sid, commit: ca },
            public_offer_hex: "Deal\u{e9}x".to_string(),
            swap_id: sid,
        })),
    );
    assert!(matches!(r, Err(NodeError::Farcaster(_))));
    assert_eq!(m.phase_of(sid), None);
    assert_eq!(s.take_all().len(), 0);
}

#[test]
fn create_funding_succeeds_exactly_on_valid_seed() {
    // All-zero bytes are not a valid secret key; the seed decides.
    let bad = NodeSecrets {
        wallet_seed: [0u8; 32],
        peerd_secret_key: secrets(1).peerd_secret_key,
        node_id: secrets(1).node_id,
    };
    assert!(matches!(
        farcaster_node::walletd::create_funding(&bad),
        Err(NodeError::Farcaster(_))
    ));
    let good = secrets(42);
    assert!(farcaster_node::walletd::create_funding(&good).is_ok());
    assert!(farcaster_node::walletd::create_funding(&good).is_ok());
}

#[test]
fn external_address_parses() {
    let a = farcaster_node::walletd::address().unwrap();
    assert_eq!(a, test_address());
}

#[test]
fn malformed_core_setup_is_rejected_not_fatal() {
    // Reach the Alice state that awaits the arbitrating setup.
    let mut rt = runtime(81, b"token");
    let mut s = Senders::new();
    let sid = rt.take_offer(&mut s, ServiceId::Client(1), offer(SwapRole::Bob)).unwrap();
    let _ = s.take_all();
    let d = deal(farcaster_core::role::SwapRole::Bob);
    let pb = bob_params(82, &d);
    let c1 = pb.commit_bob(ext_sid(sid), &commitment_engine());
    rt.handle_rpc_msg(
        &mut s,
        ServiceId::Swap(sid),
        Request::Protocol(Msg::MakerCommit(Commit::Bob { swap_id: sid, commit: c1 })),
    )
    .unwrap();
    rt.handle_rpc_msg(
        &mut s,
        ServiceId::Swap(sid),
        Request::Protocol(Msg::Reveal(Reveal::Bob(pb.clone().reveal_bob(ext_sid(sid))))),
    )
    .unwrap();
    assert_eq!(rt.phase_of(sid), Some(Phase::RemoteParamsRevealed));

    // A crafted setup whose partial transactions have no inputs: the engine
    // would index them without checking; the coordinator must reject.
    let empty_tx = bitcoin::Transaction {
        version: 2,
        lock_time: 0,
        input: vec![],
        output: vec![bitcoin::TxOut { value: 1000, script_pubkey: bitcoin::Script::new() }],
    };
    let psbt =
        bitcoin::util::psbt::PartiallySignedTransaction::from_unsigned_tx(empty_tx).unwrap();
    let secp = bitcoin::secp256k1::Secp256k1::new();
    let sk = bitcoin::secp256k1::SecretKey::from_slice(&[3u8; 32]).unwrap();
    let sig = secp.sign_ecdsa(
        &bitcoin::secp256k1::Message::from_slice(&[4u8; 32]).unwrap(),
        &sk,
    );
    let setup = farcaster_core::swap::btcxmr::message::CoreArbitratingSetup {
        swap_id: ext_sid(sid),
        lock: psbt.clone(),
        cancel: psbt.clone(),
        refund: psbt,
        cancel_sig: sig,
    };
    let r = rt.handle_rpc_msg(
        &mut s,
        ServiceId::Swap(sid),
        Request::Protocol(Msg::CoreArbitratingSetup(setup)),
    );
    assert!(matches!(r, Err(NodeError::Farcaster(_))));
    assert_eq!(rt.phase_of(sid), Some(Phase::RemoteParamsRevealed));
    assert_eq!(s.take_all().len(), 0);
}
