//! A decentralized exchange, and what its factory's "pair created" logs ask for.

use crate::address::Address;
use crate::address_book::{
    PANCAKESWAP_FACTORY, SUSHISWAPV2_FACTORY, SUSHIV2_FACTORY_ARBITRUM,
    TRADERJOE_FACTORY_ARBITRUM, UNISWAPV2_FACTORY, UNISWAPV3_FACTORY, VVS_FACTORY,
};
use vstd::prelude::*;
use vstd::string::*;

verus! {

/// The exchanges that are known by their factory, and one kind for all the others.
#[derive(Clone, Copy, Debug, PartialEq, Eq)]
pub enum DexKind {
    UniswapV3,
    UniswapV2,
    SushiswapV2,
    VvsFinance,
    Pancakeswap,
    TraderJoe,
    GenericUniV2Like,
}

/// The kind of the exchange whose factory has this address.
pub open spec fn kind_of_factory(factory: Seq<u8>) -> DexKind {
    if factory == UNISWAPV3_FACTORY@ {
        DexKind::UniswapV3
    } else if factory == UNISWAPV2_FACTORY@ {
        DexKind::UniswapV2
    } else if factory == SUSHISWAPV2_FACTORY@ {
        DexKind::SushiswapV2
    } else if factory == SUSHIV2_FACTORY_ARBITRUM@ {
        DexKind::SushiswapV2
    } else if factory == VVS_FACTORY@ {
        DexKind::VvsFinance
    } else if factory == PANCAKESWAP_FACTORY@ {
        DexKind::Pancakeswap
    } else if factory == TRADERJOE_FACTORY_ARBITRUM@ {
        DexKind::TraderJoe
    } else {
        DexKind::GenericUniV2Like
    }
}

/// The display name of a kind of exchange.
pub open spec fn kind_name(kind: DexKind) -> Seq<char> {
    match kind {
        DexKind::UniswapV3 => "Uniswap V3"@,
        DexKind::UniswapV2 => "Uniswap V2"@,
        DexKind::SushiswapV2 => "Sushiswap V2"@,
        DexKind::VvsFinance => "VVS Finance"@,
        DexKind::Pancakeswap => "Pancakeswap"@,
        DexKind::TraderJoe => "Trader Joe"@,
        DexKind::GenericUniV2Like => "UniswapV2 Like"@,
    }
}

impl DexKind {
    /// The kind of the exchange whose factory has this address.
    pub fn from_factory(factory: &Address) -> (r: DexKind)
        ensures
            r == kind_of_factory(factory@),
    {
        if factory.has_bytes(&UNISWAPV3_FACTORY) {
            DexKind::UniswapV3
        } else if factory.has_bytes(&UNISWAPV2_FACTORY) {
            DexKind::UniswapV2
        } else if factory.has_bytes(&SUSHISWAPV2_FACTORY) {
            DexKind::SushiswapV2
        } else if factory.has_bytes(&SUSHIV2_FACTORY_ARBITRUM) {
            DexKind::SushiswapV2
        } else if factory.has_bytes(&VVS_FACTORY) {
            DexKind::VvsFinance
        } else if factory.has_bytes(&PANCAKESWAP_FACTORY) {
            DexKind::Pancakeswap
        } else if factory.has_bytes(&TRADERJOE_FACTORY_ARBITRUM) {
            DexKind::TraderJoe
        } else {
            DexKind::GenericUniV2Like
        }
    }

    /// The display name of the kind.
    pub fn name(&self) -> (r: String)
        ensures
            r@ == kind_name(*self),
    {
        match self {
            DexKind::UniswapV3 => String::from_str("Uniswap V3"),
            DexKind::UniswapV2 => String::from_str("Uniswap V2"),
            DexKind::SushiswapV2 => String::from_str("Sushiswap V2"),
            DexKind::VvsFinance => String::from_str("VVS Finance"),
            DexKind::Pancakeswap => String::from_str("Pancakeswap"),
            DexKind::TraderJoe => String::from_str("Trader Joe"),
            DexKind::GenericUniV2Like => String::from_str("UniswapV2 Like"),
        }
    }
}

/// An exchange on one chain. It does not change once made.
#[derive(Debug)]
pub struct Dex {
    pub chain: String,
    pub name: String,
    pub factory_address: Address,
    pub router_address: Address,
    /// Whether a detected pair is announced.
    pub alert: bool,
    /// Whether the new token of a detected pair is looked up with the code explorer.
    pub verify: bool,
}

impl Clone for Dex {
    fn clone(&self) -> (r: Self)
        ensures
            r == *self,
    {
        Dex {
            chain: self.chain.clone(),
            name: self.name.clone(),
            factory_address: self.factory_address,
            router_address: self.router_address,
            alert: self.alert,
            verify: self.verify,
        }
    }
}

/// A "pair created" log of a factory.
#[derive(Clone, Copy, Debug, PartialEq, Eq)]
pub struct PairCreated {
    pub token0: Address,
    pub token1: Address,
    pub pair: Address,
}

/// One item that a subscription to a factory delivered.
#[derive(Clone, Copy, Debug, PartialEq, Eq)]
pub enum FactoryLog {
    /// A log and the block it was seen in.
    Created { event: PairCreated, block_number: u64 },
    /// A payload that could not be decoded.
    Undecodable,
}

/// A pair to watch, and the block to search for its first liquidity from.
#[derive(Clone, Copy, Debug, PartialEq, Eq)]
pub struct PairOrder {
    pub pair: Address,
    pub token0: Address,
    pub token1: Address,
    pub from_block: u64,
}

/// Whether a pair holds the token of interest; every pair does where there is none.
pub open spec fn involves(event: PairCreated, token: Option<Address>) -> bool {
    token is None || event.token0@ == token.unwrap()@ || event.token1@ == token.unwrap()@
}

/// What one delivered item asks for: a watcher for the pair it announces, from the block
/// it was seen in. A payload that could not be decoded asks for nothing, and neither does a
/// pair without the token of interest.
pub open spec fn order_for(log: FactoryLog, token: Option<Address>) -> Option<PairOrder> {
    match log {
        FactoryLog::Undecodable => None,
        FactoryLog::Created { event, block_number } => if involves(event, token) {
            Some(
                PairOrder {
                    pair: event.pair,
                    token0: event.token0,
                    token1: event.token1,
                    from_block: block_number,
                },
            )
        } else {
            None
        },
    }
}

/// The watchers that a run of delivered items asks for, in the order of delivery.
pub open spec fn orders_for(logs: Seq<FactoryLog>, token: Option<Address>) -> Seq<PairOrder>
    decreases logs.len(),
{
    if logs.len() == 0 {
        Seq::empty()
    } else {
        let before = orders_for(logs.drop_last(), token);
        match order_for(logs.last(), token) {
            Some(order) => before.push(order),
            None => before,
        }
    }
}

impl Dex {
    /// The exchange with this factory and router on `chain`, named by its factory.
    pub fn new(
        factory_address: Address,
        router_address: Address,
        chain: String,
        alert: bool,
        verify: bool,
    ) -> (r: Dex)
        ensures
            r.chain == chain,
            r.name@ == kind_name(kind_of_factory(factory_address@)),
            r.factory_address == factory_address,
            r.router_address == router_address,
            r.alert == alert,
            r.verify == verify,
    {
        let name = Dex::get_dex_name(factory_address);
        Dex { chain, name, factory_address, router_address, alert, verify }
    }

    /// The display name of the exchange whose factory has this address.
    pub fn get_dex_name(contract_address: Address) -> (r: String)
        ensures
            r@ == kind_name(kind_of_factory(contract_address@)),
    {
        DexKind::from_factory(&contract_address).name()
    }

    /// What one delivered item asks for.
    pub fn pair_order(log: &FactoryLog, token: Option<Address>) -> (r: Option<PairOrder>)
        ensures
            r == order_for(*log, token),
    {
        match log {
            FactoryLog::Undecodable => None,
            FactoryLog::Created { event, block_number } => {
                let wanted = match token {
                    None => true,
                    Some(t) => event.token0.same_as(&t) || event.token1.same_as(&t),
                };
                if wanted {
                    Some(
                        PairOrder {
                            pair: event.pair,
                            token0: event.token0,
                            token1: event.token1,
                            from_block: *block_number,
                        },
                    )
                } else {
                    None
                }
            },
        }
    }

    /// The watchers to start for the items that the factory's subscription delivered, one
    /// for each pair announced, in the order of delivery.
    pub fn stream_pairs_created(logs: &Vec<FactoryLog>) -> (r: Vec<PairOrder>)
        ensures
            r@ == orders_for(logs@, None),
    {
        Dex::collect_orders(logs, None)
    }

    /// The watchers to start for the pairs that hold `token_address`, among the items that
    /// the factory's subscription delivered, in the order of delivery.
    pub fn token_stream_pairs_created(logs: &Vec<FactoryLog>, token_address: Address) -> (r: Vec<
        PairOrder,
    >)
        ensures
            r@ == orders_for(logs@, Some(token_address)),
    {
        Dex::collect_orders(logs, Some(token_address))
    }

    fn collect_orders(logs: &Vec<FactoryLog>, token: Option<Address>) -> (r: Vec<PairOrder>)
        ensures
            r@ == orders_for(logs@, token),
    {
        let mut orders: Vec<PairOrder> = Vec::new();
        let mut i: usize = 0;
        while i < logs.len()
            invariant
                0 <= i <= logs.len(),
                orders@ == orders_for(logs@.take(i as int), token),
            decreases logs.len() - i,
        {
            proof {
                assert(logs@.take(i + 1).drop_last() =~= logs@.take(i as int));
            }
            match Dex::pair_order(&logs[i], token) {
                Some(order) => orders.push(order),
                None => {},
            }
            i += 1;
        }
        proof {
            assert(logs@.take(logs.len() as int) =~= logs@);
        }
        orders
    }
}

/// Delivered in two runs or in one, the items ask for the same watchers in the same order:
/// those of the first run, then those of the second.
pub proof fn lemma_orders_keep_delivery_order(
    first: Seq<FactoryLog>,
    second: Seq<FactoryLog>,
    token: Option<Address>,
)
    ensures
        orders_for(first + second, token) == orders_for(first, token) + orders_for(second, token),
    decreases second.len(),
{
    if second.len() == 0 {
        assert(first + second =~= first);
        assert(orders_for(first, token) + orders_for(second, token) =~= orders_for(first, token));
    } else {
        lemma_orders_keep_delivery_order(first, second.drop_last(), token);
        assert((first + second).drop_last() =~= first + second.drop_last());
        assert((first + second).last() == second.last());
        match order_for(second.last(), token) {
            Some(order) => {
                assert(orders_for(first + second, token) =~= orders_for(first, token) + orders_for(
                    second,
                    token,
                ));
            },
            None => {},
        }
    }
}

} // verus!
