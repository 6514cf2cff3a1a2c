use block_explorer::chain::{is_op_stack, ChainIdentity, BASE_CHAIN_ID, OPTIMISM_CHAIN_ID};
use block_explorer::decode::{
    block_to_payload, extract_l1_origin, saturating_wei, tx_to_payload, L1_BLOCK_PREDEPLOY,
};
use block_explorer::rpc::{RpcBlock, RpcTransaction, Wei};
use block_explorer::OpStackFees;

fn tx(to: Option<[u8; 20]>, input: Vec<u8>) -> RpcTransaction {
    RpcTransaction {
        hash: [7u8; 32],
        gas_limit: 21_000,
        gas_price: Some(30_000_000_000),
        value: Wei { high: 0, low: 1_000_000_000_000_000_000 },
        from: [1u8; 20],
        to,
        input,
        blob_hash_count: None,
        max_fee_per_blob_gas: None,
    }
}

fn attributes_calldata(len: usize) -> Vec<u8> {
    let mut input = vec![0xaau8; len];
    for b in input.iter_mut().skip(28).take(8) {
        *b = 0;
    }
    if len >= 36 {
        input[34] = 1;
    }
    input
}

fn block(transactions: Vec<RpcTransaction>) -> RpcBlock {
    RpcBlock {
        number: 18_000_000,
        gas_used: 12_000_000,
        gas_limit: 30_000_000,
        timestamp: 1_700_000_000,
        base_fee_per_gas: Some(30_000_000_000),
        blob_gas_used: Some(131_072),
        transactions,
    }
}

#[test]
fn predeploy_address_is_the_l1_block_contract() {
    let expected: alloy::primitives::Address =
        "0x4200000000000000000000000000000000000015".parse().unwrap();
    assert_eq!(L1_BLOCK_PREDEPLOY, expected.0 .0);
}

#[test]
fn l1_origin_reads_bytes_28_to_35() {
    let txs = vec![tx(Some(L1_BLOCK_PREDEPLOY), attributes_calldata(36))];
    assert_eq!(&txs[0].input[28..36], &[0, 0, 0, 0, 0, 0, 1, 0]);
    assert_eq!(extract_l1_origin(&txs), Some(256));
}

#[test]
fn l1_origin_is_big_endian() {
    let mut input = attributes_calldata(36);
    input[28..36].copy_from_slice(&[0, 0, 0, 0, 0, 1, 0, 0]);
    let txs = vec![tx(Some(L1_BLOCK_PREDEPLOY), input)];
    assert_eq!(extract_l1_origin(&txs), Some(0x1_0000));
}

#[test]
fn l1_origin_reads_a_long_calldata() {
    let mut input = attributes_calldata(260);
    input[28..36].copy_from_slice(&[0, 0, 0, 0, 0x01, 0x2a, 0x3b, 0x4c]);
    let txs = vec![tx(Some(L1_BLOCK_PREDEPLOY), input)];
    assert_eq!(extract_l1_origin(&txs), Some(0x012a3b4c));
}

#[test]
fn l1_origin_reads_all_eight_bytes() {
    let mut input = attributes_calldata(36);
    input[28..36].copy_from_slice(&[0xff; 8]);
    let txs = vec![tx(Some(L1_BLOCK_PREDEPLOY), input)];
    assert_eq!(extract_l1_origin(&txs), Some(u64::MAX));
}

#[test]
fn l1_origin_needs_the_predeploy_destination() {
    let mut other = L1_BLOCK_PREDEPLOY;
    other[19] = 0x16;
    let txs = vec![tx(Some(other), attributes_calldata(36))];
    assert_eq!(extract_l1_origin(&txs), None);
    let creation = vec![tx(None, attributes_calldata(36))];
    assert_eq!(extract_l1_origin(&creation), None);
}

#[test]
fn l1_origin_needs_36_bytes_of_calldata() {
    let txs = vec![tx(Some(L1_BLOCK_PREDEPLOY), attributes_calldata(35))];
    assert_eq!(extract_l1_origin(&txs), None);
    let empty = vec![tx(Some(L1_BLOCK_PREDEPLOY), Vec::new())];
    assert_eq!(extract_l1_origin(&empty), None);
}

#[test]
fn l1_origin_only_looks_at_the_first_transaction() {
    let txs = vec![
        tx(Some([9u8; 20]), Vec::new()),
        tx(Some(L1_BLOCK_PREDEPLOY), attributes_calldata(36)),
    ];
    assert_eq!(extract_l1_origin(&txs), None);
    assert_eq!(extract_l1_origin(&Vec::new()), None);
}

#[test]
fn wei_to_eth_converts_1_eth() {
    let wei = saturating_wei(Wei { high: 0, low: 1_000_000_000_000_000_000 });
    assert_eq!(wei, 1_000_000_000_000_000_000);
    let eth = wei as f64 / 1e18;
    assert!((eth - 1.0).abs() < f64::EPSILON);
}

#[test]
fn wei_to_eth_handles_zero() {
    let wei = saturating_wei(Wei { high: 0, low: 0 });
    let eth = wei as f64 / 1e18;
    assert_eq!(eth, 0.0);
}

#[test]
fn wei_beyond_u128_saturates() {
    assert_eq!(saturating_wei(Wei { high: 1, low: 0 }), u128::MAX);
    assert_eq!(saturating_wei(Wei { high: u128::MAX, low: u128::MAX }), u128::MAX);
    assert_eq!(saturating_wei(Wei { high: 0, low: u128::MAX }), u128::MAX);
    assert_eq!(saturating_wei(Wei { high: 0, low: 5 }), 5);
}

#[test]
fn op_stack_chains_are_base_and_optimism() {
    let base = alloy_chains::Chain::from_named(alloy_chains::NamedChain::Base).id();
    let optimism = alloy_chains::Chain::from_named(alloy_chains::NamedChain::Optimism).id();
    let arbitrum = alloy_chains::Chain::from_named(alloy_chains::NamedChain::Arbitrum).id();
    assert_eq!(base, BASE_CHAIN_ID);
    assert_eq!(optimism, OPTIMISM_CHAIN_ID);
    assert!(is_op_stack(&ChainIdentity::new(base)));
    assert!(is_op_stack(&ChainIdentity::new(optimism)));
    assert!(!is_op_stack(&ChainIdentity::new(arbitrum)));
    assert!(!is_op_stack(&ChainIdentity::mainnet()));
}

#[test]
fn tx_defaults_for_missing_fields() {
    let mut t = tx(None, Vec::new());
    t.gas_price = None;
    t.value = Wei { high: 3, low: 0 };
    let p = tx_to_payload(4, &t);
    assert_eq!(p.tx_index, 4);
    assert_eq!(p.gas, 21_000);
    assert_eq!(p.gas_price, 0);
    assert_eq!(p.value_wei, u128::MAX);
    assert_eq!(p.blob_count, 0);
    assert_eq!(p.to, None);
    assert_eq!(p.from, [1u8; 20]);
    assert_eq!(p.hash, [7u8; 32]);
    assert_eq!(p.op_stack_fees, None::<OpStackFees>);
}

#[test]
fn tx_counts_blobs() {
    let mut t = tx(Some([2u8; 20]), Vec::new());
    t.blob_hash_count = Some(3);
    t.max_fee_per_blob_gas = Some(1_000_000_000);
    let p = tx_to_payload(0, &t);
    assert_eq!(p.blob_count, 3);
    assert_eq!(p.max_fee_per_blob_gas, Some(1_000_000_000));
    assert_eq!(p.gas_price, 30_000_000_000);
    assert_eq!(p.value_wei, 1_000_000_000_000_000_000);
}

#[test]
fn block_payload_counts_and_indexes_transactions() {
    let b = block(vec![
        tx(Some([2u8; 20]), Vec::new()),
        tx(None, vec![1, 2, 3]),
        tx(Some([3u8; 20]), Vec::new()),
    ]);
    let p = block_to_payload(ChainIdentity::mainnet(), &b);
    assert_eq!(p.tx_count, 3);
    assert_eq!(p.transactions.len(), 3);
    for (i, t) in p.transactions.iter().enumerate() {
        assert_eq!(t.tx_index, i);
    }
    assert_eq!(p.number, 18_000_000);
    assert_eq!(p.gas_used, 12_000_000);
    assert_eq!(p.gas_limit, 30_000_000);
    assert_eq!(p.timestamp, 1_700_000_000);
    assert_eq!(p.base_fee_per_gas, Some(30_000_000_000));
    assert_eq!(p.blob_gas_used, Some(131_072));
    assert_eq!(p.chain, ChainIdentity::mainnet());
    assert_eq!(p.transactions[1].to, None);
}

#[test]
fn empty_block_has_no_transactions() {
    let p = block_to_payload(ChainIdentity::mainnet(), &block(Vec::new()));
    assert_eq!(p.tx_count, 0);
    assert!(p.transactions.is_empty());
    assert_eq!(p.l1_origin_number, None);
}

#[test]
fn op_stack_block_carries_its_l1_origin() {
    let b = block(vec![
        tx(Some(L1_BLOCK_PREDEPLOY), attributes_calldata(36)),
        tx(Some([2u8; 20]), Vec::new()),
    ]);
    let base = block_to_payload(ChainIdentity::new(BASE_CHAIN_ID), &b);
    assert_eq!(base.l1_origin_number, Some(256));
    assert_eq!(base.tx_count, 2);
    let mainnet = block_to_payload(ChainIdentity::mainnet(), &b);
    assert_eq!(mainnet.l1_origin_number, None);
}
