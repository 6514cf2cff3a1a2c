//! Chain identity.

use vstd::prelude::*;

verus! {

/// Chain id of Ethereum mainnet.
pub const MAINNET_CHAIN_ID: u64 = 1;

/// Chain id of OP Mainnet (Optimism).
pub const OPTIMISM_CHAIN_ID: u64 = 10;

/// Chain id of Base.
pub const BASE_CHAIN_ID: u64 = 8453;

/// Chain id of Arbitrum One.
pub const ARBITRUM_CHAIN_ID: u64 = 42161;

/// A blockchain network. Two identities are equal when their numeric ids are.
#[derive(Clone, Copy, Debug, PartialEq, Eq, Hash, Structural)]
pub struct ChainIdentity {
    pub id: u64,
}

/// The OP-Stack L2 chains whose blocks carry an L1 origin.
pub open spec fn is_op_stack_id(id: u64) -> bool {
    id == OPTIMISM_CHAIN_ID || id == BASE_CHAIN_ID
}

impl ChainIdentity {
    pub fn new(id: u64) -> (r: ChainIdentity)
        ensures
            r.id == id,
    {
        ChainIdentity { id }
    }

    pub fn mainnet() -> (r: ChainIdentity)
        ensures
            r.id == MAINNET_CHAIN_ID,
    {
        ChainIdentity { id: MAINNET_CHAIN_ID }
    }
}

/// Whether the chain is an OP-Stack L2 (Base or Optimism).
pub fn is_op_stack(chain: &ChainIdentity) -> (r: bool)
    ensures
        r == is_op_stack_id(chain.id),
{
    chain.id == OPTIMISM_CHAIN_ID || chain.id == BASE_CHAIN_ID
}

} // verus!
