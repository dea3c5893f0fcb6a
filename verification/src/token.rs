//! Token metadata, and whether a token's source is verified with the chain's code explorer.

use crate::address::{lower_hex, Address};
use crate::config::{ConfigError, Environment};
use crate::text::{lowercase_of, occurs_in, same_text, str_contains};
use vstd::prelude::*;
use vstd::string::*;

verus! {

/// A token of a pair.
#[derive(Debug)]
pub struct Token {
    pub address: Address,
    pub name: String,
    pub symbol: String,
    pub decimals: u8,
    pub is_verified: bool,
}

impl Clone for Token {
    fn clone(&self) -> (r: Self)
        ensures
            r == *self,
    {
        Token {
            address: self.address,
            name: self.name.clone(),
            symbol: self.symbol.clone(),
            decimals: self.decimals,
            is_verified: self.is_verified,
        }
    }
}

/// The read of a token's metadata that failed.
#[derive(Clone, Copy, Debug, PartialEq, Eq)]
pub enum TokenError {
    Name,
    Symbol,
    Decimals,
}

/// The token that three reads of its contract describe, or the first read that failed.
pub open spec fn resolved_token(
    address: Address,
    name: Option<String>,
    symbol: Option<String>,
    decimals: Option<u8>,
) -> Result<Token, TokenError> {
    if name is None {
        Err(TokenError::Name)
    } else if symbol is None {
        Err(TokenError::Symbol)
    } else if decimals is None {
        Err(TokenError::Decimals)
    } else {
        Ok(
            Token {
                address,
                name: name.unwrap(),
                symbol: symbol.unwrap(),
                decimals: decimals.unwrap(),
                is_verified: false,
            },
        )
    }
}

/// The host of the code explorer for a chain, by the chain's name in lower case; `None`
/// for a chain that has no explorer.
pub open spec fn explorer_host(chain: Seq<char>) -> Option<Seq<char>> {
    if chain == "ethereum"@ {
        Some("etherscan.io/"@)
    } else if chain == "ropsten"@ {
        Some("ropsten.etherscan.io/"@)
    } else if chain == "rinkeby"@ {
        Some("rinkeby.etherscan.io/"@)
    } else if chain == "goerli"@ {
        Some("goerli.etherscan.io/"@)
    } else if chain == "kovan"@ {
        Some("kovan.etherscan.io/"@)
    } else if chain == "bsc"@ {
        Some("bscscan.com/"@)
    } else if chain == "arbitrum"@ {
        Some("arbiscan.io/"@)
    } else if chain == "polygon"@ {
        Some("polygonscan.com/"@)
    } else if chain == "avalanche"@ {
        Some("snowtrace.io/"@)
    } else {
        None
    }
}

/// The address to ask for a contract's interface, which the explorer only has for
/// verified contracts.
pub open spec fn verification_url(explorer: Seq<char>, address: Seq<u8>, api_key: Seq<char>) -> Seq<
    char,
> {
    "https://api."@ + explorer + "api?module=contract&action=getabi&address="@ + lower_hex(address)
        + "&apikey="@ + api_key
}

/// The address to fetch for a token on a chain, by the chain's name in lower case and with
/// the explorer's key if one is set. A chain without an explorer is an error, and so is a
/// missing key; the explorer is looked for first.
pub open spec fn verification_target(
    address: Seq<u8>,
    chain: Seq<char>,
    api_key: Option<Seq<char>>,
) -> Result<Seq<char>, ConfigError> {
    match explorer_host(chain) {
        None => Err(ConfigError::UnsupportedChain),
        Some(host) => match api_key {
            None => Err(ConfigError::MissingApiKey),
            Some(key) => Ok(verification_url(host, address, key)),
        },
    }
}

/// The name of the setting that holds the explorer's key.
pub open spec fn api_key_setting() -> Seq<char> {
    "ETHERSCAN_API_KEY"@
}

/// The marker in the explorer's answer that says the contract is not verified.
pub open spec fn unverified_marker() -> Seq<char> {
    "NOTOK"@
}

/// The host of the code explorer for a chain, by the chain's name in lower case; `None`
/// for a chain that has no explorer.
pub fn explorer_for(chain: &str) -> (r: Option<String>)
    ensures
        match explorer_host(chain@) {
            Some(host) => r is Some && r.unwrap()@ == host,
            None => r is None,
        },
{
    if same_text(chain, "ethereum") {
        Some(String::from_str("etherscan.io/"))
    } else if same_text(chain, "ropsten") {
        Some(String::from_str("ropsten.etherscan.io/"))
    } else if same_text(chain, "rinkeby") {
        Some(String::from_str("rinkeby.etherscan.io/"))
    } else if same_text(chain, "goerli") {
        Some(String::from_str("goerli.etherscan.io/"))
    } else if same_text(chain, "kovan") {
        Some(String::from_str("kovan.etherscan.io/"))
    } else if same_text(chain, "bsc") {
        Some(String::from_str("bscscan.com/"))
    } else if same_text(chain, "arbitrum") {
        Some(String::from_str("arbiscan.io/"))
    } else if same_text(chain, "polygon") {
        Some(String::from_str("polygonscan.com/"))
    } else if same_text(chain, "avalanche") {
        Some(String::from_str("snowtrace.io/"))
    } else {
        None
    }
}

impl Token {
    /// What an answer of the explorer says of a token: a token that is verified stays so,
    /// and any other is verified unless the answer holds the marker.
    pub open spec fn verdict(&self, body: Seq<char>) -> bool {
        self.is_verified || !occurs_in(body, unverified_marker())
    }

    /// The token with its verified flag set to `verified`.
    pub open spec fn with_verified(&self, verified: bool) -> Token {
        Token { is_verified: verified, ..*self }
    }

    /// The token that the three reads of its contract describe: name, symbol and decimal
    /// count, each `None` where the read failed. The first read that failed is the error.
    /// A new token is not verified.
    pub fn new(
        address: Address,
        name: Option<String>,
        symbol: Option<String>,
        decimals: Option<u8>,
    ) -> (r: Result<Token, TokenError>)
        ensures
            r == resolved_token(address, name, symbol, decimals),
    {
        match name {
            None => Err(TokenError::Name),
            Some(name) => match symbol {
                None => Err(TokenError::Symbol),
                Some(symbol) => match decimals {
                    None => Err(TokenError::Decimals),
                    Some(decimals) => Ok(
                        Token { address, name, symbol, decimals, is_verified: false },
                    ),
                },
            },
        }
    }

    /// The host of the code explorer for a chain, whatever the case of the chain's name. A
    /// chain that has no explorer is an error: no other chain's explorer stands in for it.
    pub fn get_explorer(chain: String) -> (r: Result<String, ConfigError>)
        ensures
            match explorer_host(lowercase_of(chain@)) {
                Some(host) => r is Ok && r.unwrap()@ == host,
                None => r == Err::<String, ConfigError>(ConfigError::UnsupportedChain),
            },
    {
        let lower = chain.as_str().to_lowercase();
        match explorer_for(lower.as_str()) {
            Some(host) => Ok(host),
            None => Err(ConfigError::UnsupportedChain),
        }
    }

    /// The address to fetch to learn whether the token is verified, made with the chain's
    /// explorer and the explorer's key from the settings. A chain without an explorer is an
    /// error, and so is a missing key; the explorer is looked for first.
    pub fn verification_url(&self, chain: String, env: &Environment) -> (r: Result<
        String,
        ConfigError,
    >)
        ensures
            match verification_target(
                self.address@,
                lowercase_of(chain@),
                env.value_of(api_key_setting()),
            ) {
                Ok(url) => r is Ok && r.unwrap()@ == url,
                Err(error) => r == Err::<String, ConfigError>(error),
            },
    {
        let explorer = match Token::get_explorer(chain) {
            Ok(explorer) => explorer,
            Err(error) => {
                return Err(error);
            },
        };
        match env.get("ETHERSCAN_API_KEY") {
            None => Err(ConfigError::MissingApiKey),
            Some(api_key) => {
                let mut url = String::from_str("https://api.");
                url.append(explorer.as_str());
                url.append("api?module=contract&action=getabi&address=");
                url.append(self.address.to_hex().as_str());
                url.append("&apikey=");
                url.append(api_key.as_str());
                Ok(url)
            },
        }
    }

    /// The request that settles whether the token is verified: `None` for a token that is
    /// verified already, which needs none and for which nothing is looked up; for any other
    /// token the address to fetch, or the error that keeps it from being made.
    pub fn verification_request(&self, chain: String, env: &Environment) -> (r: Result<
        Option<String>,
        ConfigError,
    >)
        ensures
            self.is_verified ==> r == Ok::<Option<String>, ConfigError>(None),
            !self.is_verified ==> match verification_target(
                self.address@,
                lowercase_of(chain@),
                env.value_of(api_key_setting()),
            ) {
                Ok(url) => r is Ok && r.unwrap() is Some && r.unwrap().unwrap()@ == url,
                Err(error) => r == Err::<Option<String>, ConfigError>(error),
            },
    {
        if self.is_verified {
            return Ok(None);
        }
        match self.verification_url(chain, env) {
            Ok(url) => Ok(Some(url)),
            Err(error) => Err(error),
        }
    }

    /// Takes in the outcome of the request. A token that is verified already stays so and
    /// the answer is `true`, whatever is handed in. For any other token a failed request
    /// changes nothing and its error is handed on, and an answer gives the verdict, which is
    /// returned and kept in the token.
    pub fn verified_contract<E>(&mut self, response: Result<String, E>) -> (r: Result<bool, E>)
        ensures
            old(self).is_verified ==> r == Ok::<bool, E>(true) && *final(self) == *old(self),
            !old(self).is_verified ==> match response {
                Ok(body) => r == Ok::<bool, E>(old(self).verdict(body@)) && *final(self) == old(
                    self,
                ).with_verified(old(self).verdict(body@)),
                Err(e) => r == Err::<bool, E>(e) && *final(self) == *old(self),
            },
    {
        if self.is_verified {
            return Ok(true);
        }
        match response {
            Err(e) => Err(e),
            Ok(body) => {
                let verified = !str_contains(body.as_str(), "NOTOK");
                if verified {
                    self.is_verified = true;
                }
                Ok(verified)
            },
        }
    }
}

/// A token that is verified needs no request, and whatever answer is taken in says that it
/// is verified and leaves it as it is.
pub proof fn lemma_verification_is_memoized(token: Token, body: Seq<char>)
    requires
        token.is_verified,
    ensures
        token.verdict(body),
        token.with_verified(token.verdict(body)) == token,
{
}

} // verus!
