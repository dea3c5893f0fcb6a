//! The exchanges to watch on each chain, as the configuration names them.

use crate::address::{parse_hex_address, Address};
use crate::text::same_text;
use vstd::prelude::*;
use vstd::string::*;

verus! {

/// The two contracts of an exchange, as hexadecimal text.
#[derive(Debug)]
pub struct ContractAddresses {
    pub router: String,
    pub factory: String,
}

/// The exchanges of one chain, each under its name.
#[derive(Debug)]
pub struct ChainData {
    pub addresses: Vec<(String, ContractAddresses)>,
}

/// The two contracts of an exchange to watch.
#[derive(Clone, Copy, Debug, PartialEq, Eq)]
pub struct WatchTarget {
    pub router: Address,
    pub factory: Address,
}

/// Why the configuration gives nothing to watch.
#[derive(Clone, Copy, Debug, PartialEq, Eq)]
pub enum ContractsError {
    /// The configuration does not hold the chain.
    UnsupportedChain,
    /// An address of an exchange of the chain is no address.
    MalformedAddress,
}

/// Whether both addresses of an exchange can be read.
pub open spec fn well_formed(entry: ContractAddresses) -> bool {
    parse_hex_address(entry.router@) is Some && parse_hex_address(entry.factory@) is Some
}

/// Whether `target` holds the two addresses that `entry` names.
pub open spec fn is_target_of(target: WatchTarget, entry: ContractAddresses) -> bool {
    &&& parse_hex_address(entry.router@) == Some(target.router@)
    &&& parse_hex_address(entry.factory@) == Some(target.factory@)
}

/// Whether every exchange of a chain has two addresses that can be read.
pub open spec fn all_well_formed(entries: Seq<(String, ContractAddresses)>) -> bool {
    forall|i: int| 0 <= i < entries.len() ==> well_formed(#[trigger] entries[i].1)
}

/// Whether `targets` are the exchanges that `entries` name, one for one and in their order.
pub open spec fn are_targets_of(
    targets: Seq<WatchTarget>,
    entries: Seq<(String, ContractAddresses)>,
) -> bool {
    &&& targets.len() == entries.len()
    &&& forall|i: int| 0 <= i < entries.len() ==> is_target_of(#[trigger] targets[i], entries[i].1)
}

/// The place of the first chain called `chain` among `data[from..]`.
pub open spec fn chain_index_from(data: Seq<(String, ChainData)>, chain: Seq<char>, from: int) -> Option<
    int,
>
    decreases data.len() - from,
{
    if from < 0 || from >= data.len() {
        None
    } else if data[from].0@ == chain {
        Some(from)
    } else {
        chain_index_from(data, chain, from + 1)
    }
}

/// The place of the first chain called `chain` in the configuration.
pub open spec fn chain_index(data: Seq<(String, ChainData)>, chain: Seq<char>) -> Option<int> {
    chain_index_from(data, chain, 0)
}

impl ChainData {
    /// The exchanges to watch on the chain, in the order the configuration names them, or
    /// `None` where an address of one of them is no address.
    pub fn targets(&self) -> (r: Option<Vec<WatchTarget>>)
        ensures
            r is Some <==> all_well_formed(self.addresses@),
            r is Some ==> are_targets_of(r.unwrap()@, self.addresses@),
    {
        let mut targets: Vec<WatchTarget> = Vec::new();
        let mut i: usize = 0;
        while i < self.addresses.len()
            invariant
                0 <= i <= self.addresses.len(),
                targets@.len() == i,
                forall|j: int| 0 <= j < i ==> well_formed(#[trigger] self.addresses@[j].1),
                forall|j: int|
                    0 <= j < i ==> is_target_of(#[trigger] targets@[j], self.addresses@[j].1),
            decreases self.addresses.len() - i,
        {
            let entry = &self.addresses[i].1;
            let router = match Address::parse(entry.router.as_str()) {
                Some(router) => router,
                None => {
                    assert(!well_formed(self.addresses@[i as int].1));
                    return None;
                },
            };
            let factory = match Address::parse(entry.factory.as_str()) {
                Some(factory) => factory,
                None => {
                    assert(!well_formed(self.addresses@[i as int].1));
                    return None;
                },
            };
            targets.push(WatchTarget { router, factory });
            i += 1;
        }
        Some(targets)
    }
}

/// The exchanges to watch on `chain`, in the order the configuration names them. A chain
/// that the configuration does not hold is an error, and so is an address that is none.
pub fn watch_targets(data: &Vec<(String, ChainData)>, chain: &str) -> (r: Result<
    Vec<WatchTarget>,
    ContractsError,
>)
    ensures
        match chain_index(data@, chain@) {
            None => r == Err::<Vec<WatchTarget>, ContractsError>(ContractsError::UnsupportedChain),
            Some(k) => if all_well_formed(data@[k].1.addresses@) {
                r is Ok && are_targets_of(r.unwrap()@, data@[k].1.addresses@)
            } else {
                r == Err::<Vec<WatchTarget>, ContractsError>(ContractsError::MalformedAddress)
            },
        },
{
    let mut i: usize = 0;
    while i < data.len()
        invariant
            0 <= i <= data.len(),
            chain_index(data@, chain@) == chain_index_from(data@, chain@, i as int),
        decreases data.len() - i,
    {
        if same_text(data[i].0.as_str(), chain) {
            assert(chain_index(data@, chain@) == Some(i as int));
            let found = data[i].1.targets();
            return match found {
                Some(targets) => Ok(targets),
                None => Err(ContractsError::MalformedAddress),
            };
        }
        i += 1;
    }
    Err(ContractsError::UnsupportedChain)
}

} // verus!
