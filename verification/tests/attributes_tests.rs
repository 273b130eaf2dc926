use pbb_poc::attributes::{
    acquire_from_attempts, attributes_from_header, subscribe_retry_decision, BeaconEventsConfig,
    BlockAttributes, RetryDecision,
};
use pbb_poc::types::{Address, Header, B256};

fn addr(last: u8) -> Address {
    let mut bytes = [0u8; 20];
    bytes[19] = last;
    Address { bytes }
}

fn word(last: u8) -> B256 {
    let mut bytes = [0u8; 32];
    bytes[31] = last;
    B256 { bytes }
}

fn attrs(timestamp: u64) -> BlockAttributes {
    BlockAttributes {
        timestamp,
        suggested_fee_recipient: addr(1),
        prev_randao: word(2),
        parent_beacon_block_root: None,
        withdrawals: None,
    }
}

#[test]
fn default_config_points_at_the_local_node() {
    let config = BeaconEventsConfig::new();
    assert_eq!(config.cl_addr, "127.0.0.1");
    assert_eq!(config.cl_port, 5052);
}

#[test]
fn urls_are_assembled_from_the_config() {
    let config = BeaconEventsConfig::new();
    assert_eq!(config.http_base_url(), "http://127.0.0.1:5052");
    assert_eq!(config.events_url(), "http://127.0.0.1:5052/eth/v1/events");
    assert_eq!(
        config.payload_attributes_url(),
        "http://127.0.0.1:5052/eth/v1/events?topics=payload_attributes"
    );
}

#[test]
fn urls_follow_a_changed_address_and_port() {
    let config = BeaconEventsConfig { cl_addr: String::from("10.0.0.7"), cl_port: 80 };
    assert_eq!(config.http_base_url(), "http://10.0.0.7:80");
}

#[test]
fn failed_subscribe_retries_after_five_seconds() {
    assert_eq!(subscribe_retry_decision(false), RetryDecision::RetryAfterSecs(5));
    assert_eq!(subscribe_retry_decision(true), RetryDecision::Proceed);
}

#[test]
fn two_failures_then_success_yields_two_retries() {
    let attempts = vec![None, None, Some(attrs(77))];
    let (got, retries) = acquire_from_attempts(attempts).expect("an attempt succeeded");
    assert_eq!(retries, 2);
    assert_eq!(got.timestamp, 77);
    assert_eq!(got.suggested_fee_recipient, addr(1));
}

#[test]
fn first_success_wins() {
    let attempts = vec![Some(attrs(1)), Some(attrs(2))];
    let (got, retries) = acquire_from_attempts(attempts).expect("an attempt succeeded");
    assert_eq!(retries, 0);
    assert_eq!(got.timestamp, 1);
}

#[test]
fn no_success_yields_nothing() {
    assert!(acquire_from_attempts(vec![None, None]).is_none());
    assert!(acquire_from_attempts(Vec::new()).is_none());
}

#[test]
fn replay_attributes_come_from_the_header() {
    let header = Header {
        number: 7,
        timestamp: 123,
        beneficiary: addr(4),
        gas_limit: 1,
        gas_used: 0,
        base_fee_per_gas: None,
        excess_blob_gas: None,
        blob_gas_used: None,
        mix_hash: word(9),
    };
    let a = attributes_from_header(&header);
    assert_eq!(a.timestamp, 123);
    assert_eq!(a.suggested_fee_recipient, addr(4));
    assert_eq!(a.prev_randao, word(9));
    assert!(a.parent_beacon_block_root.is_none());
    assert!(a.withdrawals.is_none());
}
