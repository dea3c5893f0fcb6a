//! Configuration: the named settings that the watchers read, assembled once at start.

use crate::text::same_text;
use vstd::prelude::*;
use vstd::string::*;

verus! {

/// What is missing from the configuration.
#[derive(Clone, Copy, Debug, PartialEq, Eq)]
pub enum ConfigError {
    /// No endpoint for one-shot calls is set for the chain.
    MissingRpc,
    /// No endpoint for subscriptions is set for the chain.
    MissingWss,
    /// No key for the code explorer is set.
    MissingApiKey,
    /// No alert endpoint is set for the chain.
    MissingWebhook,
    /// No audience to mention is set for the chain.
    MissingRole,
    /// The chain has no code explorer.
    UnsupportedChain,
}

/// Named settings, in the order they were given. Of two settings with one name the first
/// counts.
#[derive(Debug)]
pub struct Environment {
    pub entries: Vec<(String, String)>,
}

/// The value of the first setting called `name` among `entries[from..]`.
pub open spec fn lookup_from(entries: Seq<(String, String)>, name: Seq<char>, from: int) -> Option<
    Seq<char>,
>
    decreases entries.len() - from,
{
    if from < 0 || from >= entries.len() {
        None
    } else if entries[from].0@ == name {
        Some(entries[from].1@)
    } else {
        lookup_from(entries, name, from + 1)
    }
}

impl Environment {
    /// The value of the setting called `name`, if there is one.
    pub open spec fn value_of(&self, name: Seq<char>) -> Option<Seq<char>> {
        lookup_from(self.entries@, name, 0)
    }

    /// The settings in `entries`.
    pub fn new(entries: Vec<(String, String)>) -> (r: Environment)
        ensures
            r.entries == entries,
    {
        Environment { entries }
    }

    /// The value of the setting called `name`, if there is one.
    pub fn get(&self, name: &str) -> (r: Option<String>)
        ensures
            r is Some <==> self.value_of(name@) is Some,
            r is Some ==> r.unwrap()@ == self.value_of(name@).unwrap(),
    {
        let mut i: usize = 0;
        while i < self.entries.len()
            invariant
                0 <= i <= self.entries.len(),
                self.value_of(name@) == lookup_from(self.entries@, name@, i as int),
            decreases self.entries.len() - i,
        {
            if same_text(self.entries[i].0.as_str(), name) {
                return Some(self.entries[i].1.clone());
            }
            i += 1;
        }
        None
    }
}

/// The name of the setting that holds a chain's endpoint for one-shot calls.
pub open spec fn rpc_setting(chain: Seq<char>) -> Seq<char> {
    "NETWORK_RPC_"@ + chain
}

/// The name of the setting that holds a chain's endpoint for subscriptions.
pub open spec fn wss_setting(chain: Seq<char>) -> Seq<char> {
    "NETWORK_WSS_"@ + chain
}

/// `prefix` followed by `rest`.
pub fn joined(prefix: &str, rest: &str) -> (r: String)
    ensures
        r@ == prefix@ + rest@,
{
    let mut out = String::from_str(prefix);
    out.append(rest);
    out
}

} // verus!
