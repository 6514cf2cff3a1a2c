//! The normalized payloads handed to consumers.

use vstd::prelude::*;

use crate::chain::{is_op_stack_id, ChainIdentity};

verus! {

/// L1 fee breakdown of an OP-Stack transaction.
#[derive(Clone, Copy, Debug, PartialEq, Eq, Structural)]
pub struct OpStackFees {
    pub l1_fee: u128,
    pub l1_gas_price: Option<u128>,
    pub l1_blob_base_fee: Option<u128>,
}

/// One transaction of an ingested block.
///
/// The transferred value is kept in wei, clamped to the `u128` range; its
/// ether amount (`value_wei / 10^18`) is a floating-point figure that
/// consumers derive from it.
#[derive(Clone, Copy, Debug, PartialEq, Eq)]
pub struct TxPayload {
    pub hash: [u8; 32],
    /// Position within the block, from 0.
    pub tx_index: usize,
    pub gas: u64,
    /// Effective gas price in wei.
    pub gas_price: u128,
    pub value_wei: u128,
    pub from: [u8; 20],
    /// `None` for a contract creation.
    pub to: Option<[u8; 20]>,
    /// Number of blob commitments the transaction carries.
    pub blob_count: usize,
    pub max_fee_per_blob_gas: Option<u128>,
    pub op_stack_fees: Option<OpStackFees>,
}

/// One ingested block.
#[derive(Clone, Debug, PartialEq, Eq)]
pub struct BlockPayload {
    pub chain: ChainIdentity,
    pub number: u64,
    pub gas_used: u64,
    pub gas_limit: u64,
    /// Seconds, as reported by the chain.
    pub timestamp: u64,
    pub tx_count: u32,
    pub base_fee_per_gas: Option<u64>,
    pub blob_gas_used: Option<u64>,
    pub transactions: Vec<TxPayload>,
    /// The L1 block this L2 block derives from (OP-Stack chains only).
    pub l1_origin_number: Option<u64>,
}

impl BlockPayload {
    /// The count matches the transactions, each transaction knows its
    /// position, and only OP-Stack blocks carry an L1 origin.
    pub open spec fn wf(&self) -> bool {
        &&& self.tx_count as int == self.transactions@.len()
        &&& forall|i: int|
            0 <= i < self.transactions@.len() ==> #[trigger] self.transactions@[i].tx_index == i
        &&& self.l1_origin_number is Some ==> is_op_stack_id(self.chain.id)
    }
}

} // verus!
