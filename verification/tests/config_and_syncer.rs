//! Configuration defaults and syncer task/event data types.

use farcaster_node::config::Config;
use farcaster_node::config::SyncersConfig;
use farcaster_node::syncerd::{Boolean, BroadcastTransaction, Event, Task, TaskAborted,
    WatchHeight, WatchTransaction};
use farcaster_node::types::Network;

#[test]
fn default_config_has_public_endpoints() {
    let c = Config::default();
    let s = c.syncers.expect("default config carries syncer servers");
    let mainnet = s.mainnet.expect("mainnet servers");
    assert_eq!(mainnet.electrum_server, "ssl://blockstream.info:700");
    assert_eq!(mainnet.monero_daemon, "http://node.monerooutreach.org:18081");
    assert_eq!(mainnet.monero_rpc_wallet, "http://localhost:18083");
    let testnet = s.testnet.expect("testnet servers");
    assert_eq!(testnet.electrum_server, "ssl://blockstream.info:993");
    assert_eq!(testnet.monero_daemon, "http://stagenet.melo.tools:38081");
    assert_eq!(testnet.monero_rpc_wallet, "http://localhost:38083");
    assert!(s.local.is_none());
}

#[test]
fn syncer_servers_lookup_follows_network() {
    let c = Config::default();
    let mainnet = c.get_syncer_servers(Network::Mainnet).expect("mainnet configured");
    assert_eq!(mainnet.electrum_server, "ssl://blockstream.info:700");
    let testnet = c.get_syncer_servers(Network::Testnet).expect("testnet configured");
    assert_eq!(testnet.electrum_server, "ssl://blockstream.info:993");
    assert!(c.get_syncer_servers(Network::Local).is_none());
}

#[test]
fn syncer_servers_lookup_without_syncers() {
    let c = Config { syncers: None };
    assert!(c.get_syncer_servers(Network::Mainnet).is_none());
    assert!(c.get_syncer_servers(Network::Testnet).is_none());
    assert!(c.get_syncer_servers(Network::Local).is_none());
}

#[test]
fn default_syncers_config_alone() {
    let s = SyncersConfig::default();
    assert!(s.mainnet.is_some());
    assert!(s.testnet.is_some());
    assert!(s.local.is_none());
}

#[test]
fn boolean_converts_to_bool() {
    assert!(bool::from(Boolean::True));
    assert!(!bool::from(Boolean::False));
}

#[test]
fn tasks_and_events_hold_their_data() {
    let t = Task::WatchHeight(WatchHeight { id: 5, lifetime: 100 });
    match &t {
        Task::WatchHeight(w) => {
            assert_eq!(w.id, 5);
            assert_eq!(w.lifetime, 100);
        },
        _ => panic!("wrong task variant"),
    }
    let tx = Task::WatchTransaction(WatchTransaction {
        id: 6,
        lifetime: 7,
        hash: vec![1, 2, 3],
        confirmation_bound: 2,
    });
    assert_ne!(t, tx);
    let b = BroadcastTransaction { id: 9, tx: vec![0xde, 0xad] };
    assert_eq!(b.clone(), b);
    let e = Event::TaskAborted(TaskAborted { id: 9, error: None });
    match e {
        Event::TaskAborted(a) => assert_eq!(a.id, 9),
        _ => panic!("wrong event variant"),
    }
}
