//! Watches decentralized exchanges for the first liquidity of newly created pairs.

pub mod address;
pub mod address_book;
pub mod alert;
pub mod config;
pub mod contracts;
pub mod dex;
pub mod helpers;
pub mod pair;
pub mod text;
pub mod token;
pub mod uint;

use crate::address::Address;
use crate::config::{joined, rpc_setting, wss_setting, ConfigError, Environment};
use crate::dex::{kind_name, kind_of_factory, Dex};
use crate::text::same_text;
use vstd::prelude::*;
use vstd::string::*;

verus! {

/// The chains that can be watched.
#[derive(Debug, Clone, Copy, PartialEq, Eq)]
pub enum Chain {
    Ethereum,
    Arbitrum,
    Polygon,
    Bsc,
    Fantom,
    Avalanche,
    Cronos,
}

/// The chain with this name, if there is one.
pub open spec fn chain_named(name: Seq<char>) -> Option<Chain> {
    if name == "ethereum"@ {
        Some(Chain::Ethereum)
    } else if name == "arbitrum"@ {
        Some(Chain::Arbitrum)
    } else if name == "polygon"@ {
        Some(Chain::Polygon)
    } else if name == "bsc"@ {
        Some(Chain::Bsc)
    } else if name == "fantom"@ {
        Some(Chain::Fantom)
    } else if name == "avalanche"@ {
        Some(Chain::Avalanche)
    } else if name == "cronos"@ {
        Some(Chain::Cronos)
    } else {
        None
    }
}

/// The name a chain's settings are kept under.
pub open spec fn chain_key(chain: Chain) -> Seq<char> {
    match chain {
        Chain::Ethereum => "ETHEREUM"@,
        Chain::Arbitrum => "ARBITRUM"@,
        Chain::Polygon => "POLYGON"@,
        Chain::Bsc => "BSC"@,
        Chain::Fantom => "FANTOM"@,
        Chain::Avalanche => "AVALANCHE"@,
        Chain::Cronos => "CRONOS"@,
    }
}

impl Chain {
    /// The name the chain's settings are kept under.
    pub fn key(&self) -> (r: String)
        ensures
            r@ == chain_key(*self),
    {
        match self {
            Chain::Ethereum => String::from_str("ETHEREUM"),
            Chain::Arbitrum => String::from_str("ARBITRUM"),
            Chain::Polygon => String::from_str("POLYGON"),
            Chain::Bsc => String::from_str("BSC"),
            Chain::Fantom => String::from_str("FANTOM"),
            Chain::Avalanche => String::from_str("AVALANCHE"),
            Chain::Cronos => String::from_str("CRONOS"),
        }
    }
}

impl std::str::FromStr for Chain {
    type Err = String;

    /// The chain with this name; an error with a message for any other text.
    fn from_str(s: &str) -> (r: Result<Self, Self::Err>)
        ensures
            match chain_named(s@) {
                Some(chain) => r == Ok::<Chain, String>(chain),
                None => r is Err && r.unwrap_err()@ == "Invalid chain name"@,
            },
    {
        if same_text(s, "ethereum") {
            Ok(Chain::Ethereum)
        } else if same_text(s, "arbitrum") {
            Ok(Chain::Arbitrum)
        } else if same_text(s, "polygon") {
            Ok(Chain::Polygon)
        } else if same_text(s, "bsc") {
            Ok(Chain::Bsc)
        } else if same_text(s, "fantom") {
            Ok(Chain::Fantom)
        } else if same_text(s, "avalanche") {
            Ok(Chain::Avalanche)
        } else if same_text(s, "cronos") {
            Ok(Chain::Cronos)
        } else {
            Err("Invalid chain name".to_owned())
        }
    }
}

/// What a chain's watchers are set up with: the two endpoints of the chain, and what the
/// exchanges made with it do on a detection.
#[derive(Debug)]
pub struct Config {
    /// The endpoint for one-shot calls.
    pub http: String,
    /// The endpoint for subscriptions.
    pub wss: String,
    /// Whether detections are announced.
    pub alert: bool,
    /// Whether new tokens are looked up with the code explorer.
    pub verify: bool,
}

impl Config {
    /// The configuration of `chain` from the settings. A chain without an endpoint is an
    /// error, the endpoint for one-shot calls looked for first.
    pub fn new(chain: &str, env: &Environment, alert: bool, verify: bool) -> (r: Result<
        Config,
        ConfigError,
    >)
        ensures
            match (env.value_of(rpc_setting(chain@)), env.value_of(wss_setting(chain@))) {
                (None, _) => r is Err && r.unwrap_err() == ConfigError::MissingRpc,
                (Some(_), None) => r is Err && r.unwrap_err() == ConfigError::MissingWss,
                (Some(http), Some(wss)) => r is Ok && r.unwrap().http@ == http && r.unwrap().wss@
                    == wss && r.unwrap().alert == alert && r.unwrap().verify == verify,
            },
    {
        let rpc_name = joined("NETWORK_RPC_", chain);
        let wss_name = joined("NETWORK_WSS_", chain);
        match env.get(rpc_name.as_str()) {
            None => Err(ConfigError::MissingRpc),
            Some(http) => match env.get(wss_name.as_str()) {
                None => Err(ConfigError::MissingWss),
                Some(wss) => Ok(Config { http, wss, alert, verify }),
            },
        }
    }

    /// The exchange with this factory and router on `chain`, which does on a detection what
    /// the configuration says.
    pub fn create_dex(&self, factory: Address, router: Address, chain: String) -> (r: Dex)
        ensures
            r.chain == chain,
            r.name@ == kind_name(kind_of_factory(factory@)),
            r.factory_address == factory,
            r.router_address == router,
            r.alert == self.alert,
            r.verify == self.verify,
    {
        Dex::new(factory, router, chain, self.alert, self.verify)
    }
}

} // verus!
