//! Turning fetched blocks into payloads.

use vstd::prelude::*;

use crate::chain::{is_op_stack, is_op_stack_id, ChainIdentity};
use crate::model::{BlockPayload, TxPayload};
use crate::rpc::{RpcBlock, RpcTransaction, Wei};

verus! {

/// The L1Block predeploy of OP-Stack chains,
/// `0x4200000000000000000000000000000000000015`. The first transaction of
/// every OP-Stack block is a deposit to it that records the L1 block
/// attributes.
pub const L1_BLOCK_PREDEPLOY: [u8; 20] = [
    0x42, 0, 0, 0, 0, 0, 0, 0, 0, 0, 0, 0, 0, 0, 0, 0, 0, 0, 0, 0x15,
];

/// Offset of the L1 block number in the L1-attributes calldata, in both the
/// ABI-encoded and the packed layout.
pub const L1_NUMBER_OFFSET: usize = 28;

/// Calldata shorter than this holds no L1 block number.
pub const L1_ATTRIBUTES_MIN_LEN: usize = 36;

/// The unsigned integer that bytes `s` spell in big-endian order.
pub open spec fn be_value(s: Seq<u8>) -> nat
    decreases s.len(),
{
    if s.len() == 0 {
        0
    } else {
        be_value(s.drop_last()) * 256 + s.last() as nat
    }
}

pub open spec fn pow256(n: nat) -> nat
    decreases n,
{
    if n == 0 {
        1
    } else {
        256 * pow256((n - 1) as nat)
    }
}

/// `n` bytes spell a value below `256^n`.
pub proof fn lemma_be_value_bound(s: Seq<u8>)
    ensures
        be_value(s) < pow256(s.len()),
    decreases s.len(),
{
    if s.len() > 0 {
        lemma_be_value_bound(s.drop_last());
    }
}

proof fn lemma_pow256_monotonic(m: nat, n: nat)
    requires
        m <= n,
    ensures
        pow256(m) <= pow256(n),
    decreases n,
{
    if m < n {
        lemma_pow256_monotonic(m, (n - 1) as nat);
    }
}

/// A wei amount clamped to the `u128` range.
pub open spec fn saturated_wei(w: Wei) -> u128 {
    if w.value() <= u128::MAX {
        w.value() as u128
    } else {
        u128::MAX
    }
}

/// Clamps a 256-bit wei amount to `u128`: amounts that do not fit become
/// `u128::MAX`.
pub fn saturating_wei(w: Wei) -> (r: u128)
    ensures
        r == saturated_wei(w),
        r as nat == w.value() || (r == u128::MAX && w.value() > u128::MAX),
{
    if w.high == 0 {
        w.low
    } else {
        u128::MAX
    }
}

/// Whether two addresses are the same.
pub fn same_address(a: &[u8; 20], b: &[u8; 20]) -> (r: bool)
    ensures
        r == (a@ == b@),
{
    let mut i: usize = 0;
    while i < 20
        invariant
            0 <= i <= 20,
            a@.len() == 20,
            b@.len() == 20,
            forall|j: int| 0 <= j < i ==> a@[j] == b@[j],
        decreases 20 - i,
    {
        if a[i] != b[i] {
            return false;
        }
        i = i + 1;
    }
    assert(a@ =~= b@);
    true
}

/// The L1 origin that the first transaction of a block records: defined when
/// that transaction goes to the L1Block predeploy with calldata of at least
/// 36 bytes, and then bytes 28 to 35 of the calldata read as a big-endian
/// integer.
pub open spec fn l1_origin_of(txs: Seq<RpcTransaction>) -> Option<u64> {
    if txs.len() == 0 {
        None
    } else {
        let first = txs[0];
        if first.to matches Some(to) && to@ == L1_BLOCK_PREDEPLOY@ && first.input@.len() >= 36 {
            Some(be_value(first.input@.subrange(28, 36)) as u64)
        } else {
            None
        }
    }
}

/// Reads `input[28..36]` as a big-endian `u64`.
fn read_l1_number(input: &Vec<u8>) -> (r: u64)
    requires
        input@.len() >= 36,
    ensures
        r as nat == be_value(input@.subrange(28, 36)),
{
    let mut r: u64 = 0;
    let mut i: usize = L1_NUMBER_OFFSET;
    while i < L1_NUMBER_OFFSET + 8
        invariant
            28 <= i <= 36,
            input@.len() >= 36,
            r as nat == be_value(input@.subrange(28, i as int)),
        decreases 36 - i,
    {
        proof {
            let s = input@.subrange(28, i as int);
            lemma_be_value_bound(s);
            lemma_pow256_monotonic(s.len(), 7);
            reveal_with_fuel(pow256, 8);
            assert(input@.subrange(28, i + 1).drop_last() =~= s);
        }
        r = r * 256 + input[i] as u64;
        i = i + 1;
    }
    r
}

/// Derives the L1 block number that an OP-Stack block descends from, out of
/// its transactions.
pub fn extract_l1_origin(txs: &Vec<RpcTransaction>) -> (r: Option<u64>)
    ensures
        r == l1_origin_of(txs@),
{
    if txs.len() == 0 {
        return None;
    }
    let first = &txs[0];
    let goes_to_predeploy = match &first.to {
        Some(to) => same_address(to, &L1_BLOCK_PREDEPLOY),
        None => false,
    };
    if !goes_to_predeploy || first.input.len() < L1_ATTRIBUTES_MIN_LEN {
        return None;
    }
    Some(read_l1_number(&first.input))
}

/// The payload of the transaction at position `index`.
pub open spec fn tx_payload_of(index: int, tx: RpcTransaction) -> TxPayload {
    TxPayload {
        hash: tx.hash,
        tx_index: index as usize,
        gas: tx.gas_limit,
        gas_price: match tx.gas_price {
            Some(p) => p,
            None => 0,
        },
        value_wei: saturated_wei(tx.value),
        from: tx.from,
        to: tx.to,
        blob_count: match tx.blob_hash_count {
            Some(n) => n,
            None => 0,
        },
        max_fee_per_blob_gas: tx.max_fee_per_blob_gas,
        op_stack_fees: None,
    }
}

/// Normalizes one transaction: a missing gas price counts as 0, a missing
/// blob list as no blobs, and the value is clamped to `u128`.
pub fn tx_to_payload(index: usize, tx: &RpcTransaction) -> (r: TxPayload)
    ensures
        r == tx_payload_of(index as int, *tx),
{
    TxPayload {
        hash: tx.hash,
        tx_index: index,
        gas: tx.gas_limit,
        gas_price: match tx.gas_price {
            Some(p) => p,
            None => 0,
        },
        value_wei: saturating_wei(tx.value),
        from: tx.from,
        to: tx.to,
        blob_count: match tx.blob_hash_count {
            Some(n) => n,
            None => 0,
        },
        max_fee_per_blob_gas: tx.max_fee_per_blob_gas,
        op_stack_fees: None,
    }
}

/// `p` is the payload of `block` on `chain`.
pub open spec fn is_payload_of(p: BlockPayload, chain: ChainIdentity, block: RpcBlock) -> bool {
    &&& p.chain == chain
    &&& p.number == block.number
    &&& p.gas_used == block.gas_used
    &&& p.gas_limit == block.gas_limit
    &&& p.timestamp == block.timestamp
    &&& p.tx_count as int == block.transactions@.len()
    &&& p.base_fee_per_gas == block.base_fee_per_gas
    &&& p.blob_gas_used == block.blob_gas_used
    &&& p.transactions@.len() == block.transactions@.len()
    &&& forall|i: int|
        0 <= i < block.transactions@.len() ==> #[trigger] p.transactions@[i] == tx_payload_of(
            i,
            block.transactions@[i],
        )
    &&& p.l1_origin_number == if is_op_stack_id(chain.id) {
        l1_origin_of(block.transactions@)
    } else {
        None
    }
}

/// Normalizes a fetched block of `chain`. On OP-Stack chains the L1 origin is
/// derived from the first transaction.
pub fn block_to_payload(chain: ChainIdentity, block: &RpcBlock) -> (r: BlockPayload)
    requires
        block.transactions@.len() <= u32::MAX,
    ensures
        is_payload_of(r, chain, *block),
        r.wf(),
{
    let mut transactions: Vec<TxPayload> = Vec::new();
    let mut i: usize = 0;
    while i < block.transactions.len()
        invariant
            0 <= i <= block.transactions@.len(),
            transactions@.len() == i,
            forall|j: int|
                0 <= j < i ==> #[trigger] transactions@[j] == tx_payload_of(
                    j,
                    block.transactions@[j],
                ),
        decreases block.transactions@.len() - i,
    {
        let tx = tx_to_payload(i, &block.transactions[i]);
        transactions.push(tx);
        i = i + 1;
    }
    let l1_origin_number = if is_op_stack(&chain) {
        extract_l1_origin(&block.transactions)
    } else {
        None
    };
    let tx_count = transactions.len() as u32;
    let r = BlockPayload {
        chain,
        number: block.number,
        gas_used: block.gas_used,
        gas_limit: block.gas_limit,
        timestamp: block.timestamp,
        tx_count,
        base_fee_per_gas: block.base_fee_per_gas,
        blob_gas_used: block.blob_gas_used,
        transactions,
        l1_origin_number,
    };
    assert forall|k: int| 0 <= k < r.transactions@.len() implies #[trigger] r.transactions@[k].tx_index == k by {
        assert(r.transactions@[k] == tx_payload_of(k, block.transactions@[k]));
    }
    r
}

} // verus!
