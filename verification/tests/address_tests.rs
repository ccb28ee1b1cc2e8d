use data_aggregator::address::parse_address;
use data_aggregator::address::ADDRESS_BYTES;
use data_aggregator::address::MAX_ADDRESS_TEXT_LEN;
use data_aggregator::bridge::check_address;
use data_aggregator::bridge::settle;
use data_aggregator::bridge::BridgeError;
use data_aggregator::bridge::WorkerReport;

const KNOWN_ADDRESS: &str = "2gPihUTjt3FJqf1VpidgrY5cZ6PuyMccGVwQHRfjMPZG";

const KNOWN_BYTES: [u8; 32] = [
    24, 243, 6, 223, 230, 153, 210, 8, 92, 137, 123, 67, 164, 197, 79, 196, 125, 43, 183, 85, 103,
    91, 232, 167, 73, 131, 104, 131, 0, 101, 214, 231,
];

#[test]
fn address_constants() {
    assert_eq!(ADDRESS_BYTES, 32);
    assert_eq!(MAX_ADDRESS_TEXT_LEN, 44);
}

#[test]
fn known_address_decodes_to_its_bytes() {
    let address = parse_address(KNOWN_ADDRESS).expect("well-formed address");
    assert_eq!(address.bytes, KNOWN_BYTES);
}

#[test]
fn all_ones_decode_to_the_zero_key() {
    let address = parse_address("11111111111111111111111111111111").expect("well-formed address");
    assert_eq!(address.bytes, [0u8; 32]);
}

#[test]
fn different_addresses_decode_to_different_keys() {
    let first = parse_address(KNOWN_ADDRESS).expect("well-formed address");
    let second = parse_address("My11111111111111111111111111111111111111111")
        .expect("well-formed address");
    assert_ne!(first.bytes, second.bytes);
}

#[test]
fn empty_text_is_no_address() {
    assert!(parse_address("").is_none());
}

#[test]
fn text_with_characters_outside_base58_is_no_address() {
    assert!(parse_address("not-an-address").is_none());
    assert!(parse_address("2gPihUTjt3FJqf1VpidgrY5cZ6PuyMccGVwQHRfjMPZ0").is_none());
    assert!(parse_address("2gPihUTjt3FJqf1VpidgrY5cZ6PuyMccGVwQHRfjMPZO").is_none());
    assert!(parse_address("2gPihUTjt3FJqf1VpidgrY5cZ6PuyMccGVwQHRfjMPZl").is_none());
    assert!(parse_address("2gPihUTjt3FJqf1VpidgrY5cZ6PuyMccGVwQHRfjMP G").is_none());
    assert!(parse_address("ключ").is_none());
}

#[test]
fn text_of_the_wrong_size_is_no_address() {
    assert!(parse_address("2gPihUTjt3FJqf1VpidgrY").is_none());
    assert!(parse_address("1").is_none());
    let doubled = format!("{}{}", KNOWN_ADDRESS, KNOWN_ADDRESS);
    assert!(parse_address(&doubled).is_none());
}

#[test]
fn text_longer_than_the_limit_is_no_address() {
    let long = "1".repeat(MAX_ADDRESS_TEXT_LEN + 1);
    assert!(parse_address(&long).is_none());
    let longer = "z".repeat(500);
    assert!(parse_address(&longer).is_none());
}

#[test]
fn check_address_accepts_a_well_formed_address() {
    match check_address(KNOWN_ADDRESS) {
        Ok(address) => assert_eq!(address.bytes, KNOWN_BYTES),
        Err(failure) => panic!("rejected with {:?}", failure),
    }
}

#[test]
fn check_address_rejects_malformed_input_as_invalid_address() {
    for input in ["", "hello world", "0x1234", "2gPihUTjt3FJqf1VpidgrY", "../etc/passwd"] {
        match check_address(input) {
            Ok(_) => panic!("accepted {:?}", input),
            Err(failure) => assert_eq!(failure, BridgeError::InvalidAddress),
        }
    }
}

#[test]
fn settle_passes_the_snapshot_through() {
    let snapshot = vec![1u8, 2, 3];
    assert_eq!(settle(WorkerReport::Snapshot(snapshot.clone())), Ok(snapshot));
}

#[test]
fn settle_translates_each_failure() {
    assert_eq!(settle(WorkerReport::<u8>::Failed), Err(BridgeError::RpcUnavailable));
    assert_eq!(settle(WorkerReport::<u8>::TimedOut), Err(BridgeError::RpcTimeout));
    assert_eq!(settle(WorkerReport::<u8>::Lost), Err(BridgeError::RpcUnavailable));
}
