use partial_eth_key_cracker::config::{plan_search, worker_count, InvalidConfiguration};
use partial_eth_key_cracker::worker::SearchMode;

const ZERO_KEY: &str = "0000000000000000000000000000000000000000000000000000000000000000";
const TARGET: &str = "0x7e5f4552091a69125d5dfcb7b8c2659029395bdf";
const NODE: &str = "http://localhost:8545";

fn target_bytes() -> Vec<u8> {
    vec![
        0x7e, 0x5f, 0x45, 0x52, 0x09, 0x1a, 0x69, 0x12, 0x5d, 0x5d, 0xfc, 0xb7, 0xb8, 0xc2, 0x65,
        0x90, 0x29, 0x39, 0x5b, 0xdf,
    ]
}

#[test]
fn a_plan_for_a_known_address() {
    let plan = plan_search(ZERO_KEY, 0, 2, TARGET, "").unwrap();
    assert_eq!(plan.template, vec![0u8; 32]);
    assert_eq!(plan.start, 0);
    assert_eq!(plan.end, 1);
    assert_eq!(plan.total_keys, 256);
    assert_eq!(plan.mode, SearchMode::KnownTarget { address: target_bytes() });
    assert_eq!(plan.scratch_length(), 1);
}

#[test]
fn a_plan_for_a_node() {
    let plan = plan_search(ZERO_KEY, 60, 64, "", NODE).unwrap();
    assert_eq!(plan.start, 30);
    assert_eq!(plan.end, 32);
    assert_eq!(plan.total_keys, 65536);
    assert_eq!(plan.mode, SearchMode::RemoteOracle { full_node: String::from(NODE) });
}

#[test]
fn a_node_takes_precedence_over_a_known_address() {
    let plan = plan_search(ZERO_KEY, 0, 2, "no address", NODE).unwrap();
    assert_eq!(plan.mode, SearchMode::RemoteOracle { full_node: String::from(NODE) });
}

#[test]
fn the_key_is_decoded_from_hexadecimal_digits_of_either_case() {
    let key = "000102030405060708090a0b0c0d0e0f101112131415161718191A1B1C1D1E1Fff";
    let plan = plan_search(key, 2, 4, TARGET, "").unwrap();
    let mut expected: Vec<u8> = (0u8..32).collect();
    expected.push(255);
    assert_eq!(plan.template, expected);
    assert_eq!((plan.start, plan.end), (1, 2));
}

#[test]
fn digits_within_one_byte_leave_nothing_unknown() {
    let plan = plan_search(ZERO_KEY, 2, 3, TARGET, "").unwrap();
    assert_eq!((plan.start, plan.end), (1, 1));
    assert_eq!(plan.total_keys, 1);
}

#[test]
fn a_key_that_is_not_hexadecimal_is_refused() {
    let odd = &ZERO_KEY[1..];
    assert_eq!(plan_search(odd, 0, 2, TARGET, ""), Err(InvalidConfiguration::MalformedKey));
    let bad = "g000000000000000000000000000000000000000000000000000000000000000";
    assert_eq!(plan_search(bad, 0, 2, TARGET, ""), Err(InvalidConfiguration::MalformedKey));
    let wide = "é00000000000000000000000000000000000000000000000000000000000000";
    assert_eq!(plan_search(wide, 0, 2, TARGET, ""), Err(InvalidConfiguration::MalformedKey));
}

#[test]
fn offsets_out_of_order_are_refused() {
    assert_eq!(
        plan_search(ZERO_KEY, 4, 4, TARGET, ""),
        Err(InvalidConfiguration::OffsetsOutOfOrder)
    );
    assert_eq!(
        plan_search(ZERO_KEY, 6, 2, TARGET, ""),
        Err(InvalidConfiguration::OffsetsOutOfOrder)
    );
}

#[test]
fn too_many_unknown_bytes_are_refused() {
    assert_eq!(
        plan_search(ZERO_KEY, 0, 32, TARGET, ""),
        Err(InvalidConfiguration::SearchSpaceTooLarge)
    );
    assert!(plan_search(ZERO_KEY, 0, 30, TARGET, "").is_ok());
}

#[test]
fn a_short_key_is_refused() {
    let short = &ZERO_KEY[2..];
    assert_eq!(plan_search(short, 0, 2, TARGET, ""), Err(InvalidConfiguration::KeyTooShort));
    assert_eq!(plan_search("", 0, 2, TARGET, ""), Err(InvalidConfiguration::KeyTooShort));
}

#[test]
fn offsets_beyond_the_key_are_refused() {
    assert_eq!(
        plan_search(ZERO_KEY, 60, 66, TARGET, ""),
        Err(InvalidConfiguration::OffsetsBeyondKey)
    );
    assert!(plan_search(ZERO_KEY, 60, 65, TARGET, "").is_ok());
}

#[test]
fn a_known_address_that_is_no_address_is_refused() {
    assert_eq!(
        plan_search(ZERO_KEY, 0, 2, "0x1234", ""),
        Err(InvalidConfiguration::MalformedTarget)
    );
}

#[test]
fn the_first_fault_is_the_one_named() {
    assert_eq!(plan_search("xyz", 9, 2, "0x12", ""), Err(InvalidConfiguration::MalformedKey));
    assert_eq!(plan_search("00", 9, 2, "0x12", ""), Err(InvalidConfiguration::OffsetsOutOfOrder));
    assert_eq!(
        plan_search("00", 0, 200, "0x12", ""),
        Err(InvalidConfiguration::SearchSpaceTooLarge)
    );
    assert_eq!(plan_search("00", 0, 20, "0x12", ""), Err(InvalidConfiguration::KeyTooShort));
}

#[test]
fn a_node_is_asked_by_one_worker() {
    let mode = SearchMode::RemoteOracle { full_node: String::from(NODE) };
    assert_eq!(worker_count(&mode, 0), 1);
    assert_eq!(worker_count(&mode, 16), 1);
}

#[test]
fn a_known_address_is_searched_by_one_worker_for_each_processor() {
    let mode = SearchMode::KnownTarget { address: target_bytes() };
    assert_eq!(worker_count(&mode, 0), 1);
    assert_eq!(worker_count(&mode, 1), 1);
    assert_eq!(worker_count(&mode, 16), 16);
    assert_eq!(worker_count(&mode, 65535), 65535);
    assert_eq!(worker_count(&mode, 70000), 65535);
}
