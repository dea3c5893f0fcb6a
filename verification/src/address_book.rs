//! The factory contracts that are known by name.

use vstd::prelude::*;

verus! {

/// Uniswap V3, on every chain it is deployed to.
pub const UNISWAPV3_FACTORY: [u8; 20] = [
    0x1f, 0x98, 0x43, 0x1c, 0x8a, 0xd9, 0x85, 0x23, 0x63, 0x1a,
    0xe4, 0xa5, 0x9f, 0x26, 0x73, 0x46, 0xea, 0x31, 0xf9, 0x84,
];

/// Uniswap V2, on Ethereum.
pub const UNISWAPV2_FACTORY: [u8; 20] = [
    0x5c, 0x69, 0xbe, 0xe7, 0x01, 0xef, 0x81, 0x4a, 0x2b, 0x6a,
    0x3e, 0xdd, 0x4b, 0x16, 0x52, 0xcb, 0x9c, 0xc5, 0xaa, 0x6f,
];

/// Sushiswap V2, on Ethereum.
pub const SUSHISWAPV2_FACTORY: [u8; 20] = [
    0xc0, 0xae, 0xe4, 0x78, 0xe3, 0x65, 0x8e, 0x26, 0x10, 0xc5,
    0xf7, 0xa4, 0xa2, 0xe1, 0x77, 0x7c, 0xe9, 0xe4, 0xf2, 0xac,
];

/// Sushiswap V2, on Arbitrum.
pub const SUSHIV2_FACTORY_ARBITRUM: [u8; 20] = [
    0xc3, 0x5d, 0xad, 0xb6, 0x50, 0x12, 0xec, 0x57, 0x96, 0x53,
    0x6b, 0xd9, 0x86, 0x4e, 0xd8, 0x77, 0x3a, 0xbc, 0x74, 0xc4,
];

/// VVS Finance, on Cronos.
pub const VVS_FACTORY: [u8; 20] = [
    0x3b, 0x44, 0xb2, 0xa1, 0x87, 0xa7, 0xb3, 0x82, 0x41, 0x31,
    0xf8, 0xdb, 0x5a, 0x74, 0x19, 0x4d, 0x0a, 0x42, 0xfc, 0x15,
];

/// Pancakeswap, on Ethereum.
pub const PANCAKESWAP_FACTORY: [u8; 20] = [
    0x10, 0x97, 0x05, 0x3f, 0xd2, 0xea, 0x71, 0x1d, 0xad, 0x45,
    0xca, 0xcc, 0xc4, 0x5e, 0xff, 0x75, 0x48, 0xfc, 0xb3, 0x62,
];

/// Trader Joe, on Arbitrum.
pub const TRADERJOE_FACTORY_ARBITRUM: [u8; 20] = [
    0x7b, 0xfd, 0x71, 0x92, 0xe7, 0x6d, 0x95, 0x08, 0x32, 0xc7,
    0x7b, 0xb4, 0x12, 0xaa, 0xe8, 0x41, 0x04, 0x9d, 0x8d, 0x9b,
];

} // verus!
