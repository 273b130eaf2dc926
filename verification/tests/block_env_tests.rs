use pbb_poc::attributes::BlockAttributes;
use pbb_poc::block_env::{build, build_replay, next_block_base_fee};
use pbb_poc::chain::{BaseFeeParams, ChainSpec, SpecId};
use pbb_poc::types::{Address, Header, B256};

fn test_chain_spec() -> ChainSpec {
    ChainSpec {
        chain_id: 17000,
        shanghai_time: Some(1000),
        cancun_time: Some(2000),
        prague_time: None,
        base_fee_params: vec![(0, BaseFeeParams { max_change_denominator: 8, elasticity_multiplier: 2 })],
    }
}

fn addr(last: u8) -> Address {
    let mut bytes = [0u8; 20];
    bytes[19] = last;
    Address { bytes }
}

fn word(last: u8) -> B256 {
    let mut bytes = [0u8; 32];
    bytes[31] = last;
    B256 { bytes }
}

fn parent_header() -> Header {
    Header {
        number: 41,
        timestamp: 1990,
        beneficiary: addr(9),
        gas_limit: 30_000_000,
        gas_used: 30_000_000,
        base_fee_per_gas: Some(100),
        excess_blob_gas: None,
        blob_gas_used: None,
        mix_hash: word(7),
    }
}

fn attributes_at(timestamp: u64) -> BlockAttributes {
    BlockAttributes {
        timestamp,
        suggested_fee_recipient: addr(3),
        prev_randao: word(5),
        parent_beacon_block_root: None,
        withdrawals: None,
    }
}

#[test]
fn spec_id_resolution_follows_the_schedule() {
    let spec = test_chain_spec();
    assert_eq!(spec.spec_id_at_timestamp(0), SpecId::Merge);
    assert_eq!(spec.spec_id_at_timestamp(999), SpecId::Merge);
    assert_eq!(spec.spec_id_at_timestamp(1000), SpecId::Shanghai);
    assert_eq!(spec.spec_id_at_timestamp(1999), SpecId::Shanghai);
    assert_eq!(spec.spec_id_at_timestamp(2000), SpecId::Cancun);
    let mut with_prague = test_chain_spec();
    with_prague.prague_time = Some(3000);
    assert_eq!(with_prague.spec_id_at_timestamp(3000), SpecId::Prague);
    assert_eq!(with_prague.spec_id_at_timestamp(2999), SpecId::Cancun);
}

#[test]
fn base_fee_params_pick_the_last_activated_entry() {
    let mut spec = test_chain_spec();
    spec.base_fee_params = vec![
        (0, BaseFeeParams { max_change_denominator: 8, elasticity_multiplier: 2 }),
        (1500, BaseFeeParams { max_change_denominator: 250, elasticity_multiplier: 6 }),
    ];
    assert_eq!(spec.base_fee_params_at_timestamp(0).max_change_denominator, 8);
    assert_eq!(spec.base_fee_params_at_timestamp(1499).max_change_denominator, 8);
    assert_eq!(spec.base_fee_params_at_timestamp(1500).max_change_denominator, 250);
    assert_eq!(spec.base_fee_params_at_timestamp(9999).elasticity_multiplier, 6);
}

#[test]
fn base_fee_stays_at_the_gas_target() {
    let p = BaseFeeParams { max_change_denominator: 8, elasticity_multiplier: 2 };
    assert_eq!(next_block_base_fee(15_000_000, 30_000_000, 100, p), 100);
}

#[test]
fn base_fee_rises_above_the_gas_target() {
    let p = BaseFeeParams { max_change_denominator: 8, elasticity_multiplier: 2 };
    // delta = 15M over a 15M target: increase = 100 * 15M / (15M * 8) = 12.
    assert_eq!(next_block_base_fee(30_000_000, 30_000_000, 100, p), 112);
    // A tiny overshoot still raises the fee by at least one.
    assert_eq!(next_block_base_fee(15_000_001, 30_000_000, 100, p), 101);
}

#[test]
fn base_fee_falls_below_the_gas_target() {
    let p = BaseFeeParams { max_change_denominator: 8, elasticity_multiplier: 2 };
    // delta = 15M under a 15M target: decrease = 100 * 15M / (15M * 8) = 12.
    assert_eq!(next_block_base_fee(0, 30_000_000, 100, p), 88);
}

#[test]
fn build_combines_parent_and_attributes() {
    // The blob fork activates exactly at the attributes' timestamp while the
    // parent predates it: the excess defaults to zero, and the base fee is
    // the formula applied to the parent's fee and gas usage.
    let spec = test_chain_spec();
    let parent = parent_header();
    let attrs = attributes_at(2000);
    let env = build(&spec, &parent, &attrs);
    assert_eq!(env.number, 42);
    assert_eq!(env.timestamp, 2000);
    assert_eq!(env.coinbase, addr(3));
    assert_eq!(env.gas_limit, 30_000_000);
    assert_eq!(env.basefee, 112);
    assert_eq!(env.difficulty, 0);
    assert_eq!(env.prevrandao, Some(word(5)));
    let blob = env.blob_excess_gas_and_price.expect("blob pair expected at the blob fork");
    assert_eq!(blob.excess_blob_gas, 0);
    assert_eq!(blob.blob_gasprice, 1);
}

#[test]
fn blob_pair_absent_before_the_fork() {
    let spec = test_chain_spec();
    let parent = parent_header();
    let attrs = attributes_at(1999);
    let env = build(&spec, &parent, &attrs);
    assert!(env.blob_excess_gas_and_price.is_none());
}

#[test]
fn blob_excess_carries_over_from_the_parent() {
    let spec = test_chain_spec();
    let mut parent = parent_header();
    parent.excess_blob_gas = Some(300_000);
    parent.blob_gas_used = Some(200_000);
    let attrs = attributes_at(2100);
    let env = build(&spec, &parent, &attrs);
    let blob = env.blob_excess_gas_and_price.expect("blob pair expected");
    // 300000 + 200000 - 393216
    assert_eq!(blob.excess_blob_gas, 106_784);
    assert_eq!(blob.blob_gasprice, 1);
}

#[test]
fn blob_excess_saturates_at_zero() {
    let spec = test_chain_spec();
    let mut parent = parent_header();
    parent.excess_blob_gas = Some(0);
    parent.blob_gas_used = Some(100_000);
    let env = build(&spec, &parent, &attributes_at(2100));
    assert_eq!(env.blob_excess_gas_and_price.unwrap().excess_blob_gas, 0);
}

#[test]
fn blob_price_grows_with_the_excess() {
    let spec = test_chain_spec();
    let mut parent = parent_header();
    parent.excess_blob_gas = Some(10_000_000 + 393_216);
    parent.blob_gas_used = Some(0);
    let env = build(&spec, &parent, &attributes_at(2100));
    let blob = env.blob_excess_gas_and_price.unwrap();
    assert_eq!(blob.excess_blob_gas, 10_000_000);
    assert_eq!(blob.blob_gasprice, 19);
}

#[test]
fn missing_parent_base_fee_defaults_to_zero() {
    let spec = test_chain_spec();
    let mut parent = parent_header();
    parent.base_fee_per_gas = None;
    let env = build(&spec, &parent, &attributes_at(1500));
    assert_eq!(env.basefee, 0);
}

#[test]
fn replay_takes_the_header_fields_one_for_one() {
    let spec = test_chain_spec();
    let mut header = parent_header();
    header.excess_blob_gas = Some(500_000);
    let env = build_replay(&spec, &header);
    assert_eq!(env.number, 41);
    assert_eq!(env.timestamp, 1990);
    assert_eq!(env.coinbase, addr(9));
    assert_eq!(env.gas_limit, 30_000_000);
    assert_eq!(env.basefee, 100);
    assert_eq!(env.prevrandao, Some(word(7)));
    assert_eq!(env.blob_excess_gas_and_price.unwrap().excess_blob_gas, 500_000);
}

#[test]
fn replay_before_the_blob_fork_has_no_blob_pair() {
    let spec = test_chain_spec();
    let header = parent_header();
    let env = build_replay(&spec, &header);
    assert!(env.blob_excess_gas_and_price.is_none());
}
