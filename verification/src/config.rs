//! Syncer endpoint configuration: which servers each network's syncers talk
//! to, with the stock defaults.

use vstd::prelude::*;

use crate::types::Network;

verus! {

pub const FARCASTER_MAINNET_ELECTRUM_SERVER: &'static str = "ssl://blockstream.info:700";

pub const FARCASTER_MAINNET_MONERO_DAEMON: &'static str = "http://node.monerooutreach.org:18081";

pub const FARCASTER_MAINNET_MONERO_RPC_WALLET: &'static str = "http://localhost:18083";

pub const FARCASTER_TESTNET_ELECTRUM_SERVER: &'static str = "ssl://blockstream.info:993";

pub const FARCASTER_TESTNET_MONERO_DAEMON: &'static str = "http://stagenet.melo.tools:38081";

pub const FARCASTER_TESTNET_MONERO_RPC_WALLET: &'static str = "http://localhost:38083";

/// Node configuration.
#[derive(Debug, Clone)]
pub struct Config {
    /// Syncer configuration.
    pub syncers: Option<SyncersConfig>,
}

/// Syncer configuration for each network.
#[derive(Debug, Clone)]
pub struct SyncersConfig {
    /// Mainnet syncer configuration.
    pub mainnet: Option<SyncerServers>,
    /// Testnet syncer configuration.
    pub testnet: Option<SyncerServers>,
    /// Local syncer configuration.
    pub local: Option<SyncerServers>,
}

/// The servers a syncer talks to.
#[derive(Debug, Clone)]
pub struct SyncerServers {
    /// Electrum server to use.
    pub electrum_server: String,
    /// Monero daemon to use.
    pub monero_daemon: String,
    /// Monero rpc wallet to use.
    pub monero_rpc_wallet: String,
}

impl SyncerServers {
    /// Equality of two server sets, field by field.
    pub open spec fn same(self, other: SyncerServers) -> bool {
        &&& self.electrum_server@ == other.electrum_server@
        &&& self.monero_daemon@ == other.monero_daemon@
        &&& self.monero_rpc_wallet@ == other.monero_rpc_wallet@
    }

    fn duplicate(&self) -> (r: SyncerServers)
        ensures
            r.same(*self),
    {
        SyncerServers {
            electrum_server: self.electrum_server.clone(),
            monero_daemon: self.monero_daemon.clone(),
            monero_rpc_wallet: self.monero_rpc_wallet.clone(),
        }
    }
}

impl Config {
    /// The syncer servers configured for a network, if any.
    pub open spec fn servers_for(self, network: Network) -> Option<SyncerServers> {
        match self.syncers {
            Some(s) => match network {
                Network::Mainnet => s.mainnet,
                Network::Testnet => s.testnet,
                Network::Local => s.local,
            },
            None => None,
        }
    }

    /// Look up the syncer servers for a network.
    pub fn get_syncer_servers(&self, network: Network) -> (r: Option<SyncerServers>)
        ensures
            (match (r, self.servers_for(network)) {
                (Some(got), Some(want)) => got.same(want),
                (None, None) => true,
                _ => false,
            }),
    {
        match &self.syncers {
            Some(s) => {
                let slot = match network {
                    Network::Mainnet => &s.mainnet,
                    Network::Testnet => &s.testnet,
                    Network::Local => &s.local,
                };
                match slot {
                    Some(servers) => Some(servers.duplicate()),
                    None => None,
                }
            }
            None => None,
        }
    }
}

impl Default for Config {
    /// The stock configuration: default syncer servers.
    fn default() -> (r: Config)
        ensures
            (match r.syncers {
                Some(s) => {
                    &&& (match s.mainnet {
                        Some(m) => m.electrum_server@ == FARCASTER_MAINNET_ELECTRUM_SERVER@
                            && m.monero_daemon@ == FARCASTER_MAINNET_MONERO_DAEMON@
                            && m.monero_rpc_wallet@ == FARCASTER_MAINNET_MONERO_RPC_WALLET@,
                        None => false,
                    })
                    &&& (match s.testnet {
                        Some(t) => t.electrum_server@ == FARCASTER_TESTNET_ELECTRUM_SERVER@
                            && t.monero_daemon@ == FARCASTER_TESTNET_MONERO_DAEMON@
                            && t.monero_rpc_wallet@ == FARCASTER_TESTNET_MONERO_RPC_WALLET@,
                        None => false,
                    })
                    &&& s.local is None
                },
                None => false,
            }),
    {
        Config { syncers: Some(SyncersConfig::default()) }
    }
}

impl Default for SyncersConfig {
    /// The stock syncer servers: public mainnet and testnet endpoints, no
    /// local network.
    fn default() -> (r: SyncersConfig)
        ensures
            (match r.mainnet {
                Some(m) => m.electrum_server@ == FARCASTER_MAINNET_ELECTRUM_SERVER@
                    && m.monero_daemon@ == FARCASTER_MAINNET_MONERO_DAEMON@
                    && m.monero_rpc_wallet@ == FARCASTER_MAINNET_MONERO_RPC_WALLET@,
                None => false,
            }),
            (match r.testnet {
                Some(t) => t.electrum_server@ == FARCASTER_TESTNET_ELECTRUM_SERVER@
                    && t.monero_daemon@ == FARCASTER_TESTNET_MONERO_DAEMON@
                    && t.monero_rpc_wallet@ == FARCASTER_TESTNET_MONERO_RPC_WALLET@,
                None => false,
            }),
            r.local is None,
    {
        SyncersConfig {
            mainnet: Some(SyncerServers {
                electrum_server: FARCASTER_MAINNET_ELECTRUM_SERVER.to_string(),
                monero_daemon: FARCASTER_MAINNET_MONERO_DAEMON.to_string(),
                monero_rpc_wallet: FARCASTER_MAINNET_MONERO_RPC_WALLET.to_string(),
            }),
            testnet: Some(SyncerServers {
                electrum_server: FARCASTER_TESTNET_ELECTRUM_SERVER.to_string(),
                monero_daemon: FARCASTER_TESTNET_MONERO_DAEMON.to_string(),
                monero_rpc_wallet: FARCASTER_TESTNET_MONERO_RPC_WALLET.to_string(),
            }),
            local: None,
        }
    }
}

} // verus!
