use swap_dispatch::abi::Address;
use swap_dispatch::contract::MAX_BATCH;
use swap_dispatch::ledger::Ledger;
use swap_dispatch::msg::{Metadata, PalomaMsg};
use swap_dispatch::response::{Attribute, Response};
use swap_dispatch::state::State;
use swap_dispatch::time::{Timestamp, NANOS_PER_SECOND};
use swap_dispatch::uint256::Uint256;

#[test]
fn timestamp_counts_nanoseconds() {
    assert_eq!(NANOS_PER_SECOND, 1_000_000_000);
    assert_eq!(Timestamp::from_nanos(42).nanos, 42);
    assert_eq!(Timestamp::from_seconds(3).nanos, 3_000_000_000);
    assert_eq!(Timestamp::from_seconds(18_446_744_073).nanos, 18_446_744_073_000_000_000);
    assert_eq!(Timestamp::from_seconds(2), Timestamp::from_nanos(2_000_000_000));
}

#[test]
fn elapsed_before_is_strict() {
    let stamp = Timestamp::from_seconds(100);
    assert!(!stamp.has_elapsed_before(3600, Timestamp::from_seconds(3699)));
    assert!(!stamp.has_elapsed_before(3600, Timestamp::from_seconds(3700)));
    assert!(stamp.has_elapsed_before(3600, Timestamp::from_nanos(3_700_000_000_001)));
    assert!(stamp.has_elapsed_before(3600, Timestamp::from_seconds(3701)));
    assert!(!stamp.has_elapsed_before(0, stamp));
    assert!(!Timestamp::from_nanos(0).has_elapsed_before(u64::MAX, Timestamp::from_nanos(u64::MAX)));
    assert!(!Timestamp::from_nanos(u64::MAX).has_elapsed_before(1, Timestamp::from_nanos(0)));
}

#[test]
fn uint256_from_u32_is_big_endian() {
    let mut expected = [0u8; 32];
    assert_eq!(Uint256::from_u32(0).to_be_bytes(), expected);
    expected[28..].copy_from_slice(&[0x12, 0x34, 0x56, 0x78]);
    assert_eq!(Uint256::from_u32(0x1234_5678).to_be_bytes(), expected);
    expected[28..].copy_from_slice(&[0xff, 0xff, 0xff, 0xff]);
    assert_eq!(Uint256::from_u32(u32::MAX).to_be_bytes(), expected);
    expected[28..].copy_from_slice(&[0, 0, 1, 0]);
    assert_eq!(Uint256::from_u32(256), Uint256::from_be_bytes(expected));
}

#[test]
fn uint256_keeps_its_bytes() {
    let mut bytes = [0u8; 32];
    for (i, b) in bytes.iter_mut().enumerate() {
        *b = (i * 7 + 1) as u8;
    }
    assert_eq!(Uint256::from_be_bytes(bytes).to_be_bytes(), bytes);
    assert_ne!(Uint256::from_be_bytes(bytes), Uint256::from_u32(1));
}

#[test]
fn address_is_read_from_hex() {
    let lower = Address::parse("00112233445566778899aabbccddeeff10213243").unwrap();
    let mut bytes = [0u8; 20];
    bytes.copy_from_slice(&[
        0x00, 0x11, 0x22, 0x33, 0x44, 0x55, 0x66, 0x77, 0x88, 0x99, 0xaa, 0xbb, 0xcc, 0xdd, 0xee,
        0xff, 0x10, 0x21, 0x32, 0x43,
    ]);
    assert_eq!(lower.to_bytes(), bytes);
    let prefixed = Address::parse("0x00112233445566778899AABBCCDDEEFF10213243").unwrap();
    assert_eq!(prefixed, lower);
    assert_eq!(Address::from_bytes(bytes), lower);
    bytes[19] = 0x44;
    assert_ne!(Address::from_bytes(bytes), lower);
}

#[test]
fn address_rejects_what_is_not_twenty_bytes_of_hex() {
    assert_eq!(Address::parse(""), None);
    assert_eq!(Address::parse("0x"), None);
    assert_eq!(Address::parse("00112233445566778899aabbccddeeff102132"), None);
    assert_eq!(Address::parse("00112233445566778899aabbccddeeff1021324"), None);
    assert_eq!(Address::parse("00112233445566778899aabbccddeeff1021324355"), None);
    assert_eq!(Address::parse("g0112233445566778899aabbccddeeff10213243"), None);
    assert_eq!(Address::parse("paloma1qqqqqqqqqqqqqqqqqqqqqqqqqqqqqqqqqq"), None);
}

#[test]
fn ledger_overwrites_and_never_forgets() {
    let mut ledger = Ledger::new();
    assert_eq!(ledger.stamp_of(0, 0), None);
    ledger.record(0, 0, Timestamp::from_nanos(1));
    ledger.record(u32::MAX, u32::MAX, Timestamp::from_nanos(2));
    ledger.record(0, u32::MAX, Timestamp::from_nanos(3));
    ledger.record(u32::MAX, 0, Timestamp::from_nanos(4));
    ledger.record(0, 1, Timestamp::from_nanos(5));
    ledger.record(1, 0, Timestamp::from_nanos(6));
    assert_eq!(ledger.stamp_of(0, 0), Some(Timestamp::from_nanos(1)));
    assert_eq!(ledger.stamp_of(u32::MAX, u32::MAX), Some(Timestamp::from_nanos(2)));
    assert_eq!(ledger.stamp_of(0, u32::MAX), Some(Timestamp::from_nanos(3)));
    assert_eq!(ledger.stamp_of(u32::MAX, 0), Some(Timestamp::from_nanos(4)));
    assert_eq!(ledger.stamp_of(0, 1), Some(Timestamp::from_nanos(5)));
    assert_eq!(ledger.stamp_of(1, 0), Some(Timestamp::from_nanos(6)));
    ledger.record(0, 1, Timestamp::from_nanos(0));
    assert_eq!(ledger.stamp_of(0, 1), Some(Timestamp::from_nanos(0)));
    assert_eq!(ledger.stamp_of(1, 1), None);
}

#[test]
fn response_collects_in_order() {
    let metadata = Metadata { creator: "c".to_string(), signers: vec![] };
    let first = PalomaMsg { job_id: "a".to_string(), payload: vec![1], metadata: metadata.clone() };
    let second = PalomaMsg { job_id: "b".to_string(), payload: vec![], metadata };
    let response = Response::new()
        .add_attribute("k1", "v1")
        .add_message(first.clone())
        .add_attribute("k2", "v2")
        .add_message(second.clone());
    assert_eq!(response.messages, vec![first, second]);
    assert_eq!(
        response.attributes,
        vec![
            Attribute { key: "k1".to_string(), value: "v1".to_string() },
            Attribute { key: "k2".to_string(), value: "v2".to_string() },
        ]
    );
    assert_eq!(Response::new(), Response { messages: vec![], attributes: vec![] });
}

#[test]
fn clones_are_equal() {
    let metadata = Metadata {
        creator: "creator".to_string(),
        signers: vec!["one".to_string(), "two".to_string()],
    };
    assert_eq!(metadata.clone(), metadata);
    let state = State {
        job_id: "job".to_string(),
        owner: "owner".to_string(),
        retry_delay: 7,
        metadata,
    };
    assert_eq!(state.clone(), state);
}

#[test]
fn largest_batch_is_the_largest_that_fits() {
    assert_eq!(MAX_BATCH, 44_739_240);
    let bytes = |n: u64| 32 * (6 + 3 * n);
    assert!(bytes(MAX_BATCH as u64) <= u32::MAX as u64);
    assert!(bytes(MAX_BATCH as u64 + 1) > u32::MAX as u64);
}
