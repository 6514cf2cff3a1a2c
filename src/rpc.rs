//! Block and transaction fields as an RPC node reports them, before
//! normalization.

use vstd::prelude::*;

verus! {

/// A 256-bit unsigned amount of wei, as its upper and lower 128 bits.
#[derive(Clone, Copy, Debug, PartialEq, Eq, Structural)]
pub struct Wei {
    pub high: u128,
    pub low: u128,
}

impl Wei {
    /// The amount this value stands for.
    pub open spec fn value(self) -> nat {
        self.high as nat * 0x1_0000_0000_0000_0000_0000_0000_0000_0000 + self.low as nat
    }
}

/// A transaction with full details, as fetched.
#[derive(Clone, Debug)]
pub struct RpcTransaction {
    pub hash: [u8; 32],
    pub gas_limit: u64,
    /// Effective gas price, when the node reports one.
    pub gas_price: Option<u128>,
    pub value: Wei,
    pub from: [u8; 20],
    pub to: Option<[u8; 20]>,
    /// Calldata.
    pub input: Vec<u8>,
    /// Number of blob versioned hashes, for transaction types that have them.
    pub blob_hash_count: Option<usize>,
    pub max_fee_per_blob_gas: Option<u128>,
}

/// A block with its full transactions, as fetched.
#[derive(Clone, Debug)]
pub struct RpcBlock {
    pub number: u64,
    pub gas_used: u64,
    pub gas_limit: u64,
    pub timestamp: u64,
    pub base_fee_per_gas: Option<u64>,
    pub blob_gas_used: Option<u64>,
    pub transactions: Vec<RpcTransaction>,
}

} // verus!
