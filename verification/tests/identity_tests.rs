use partial_eth_key_cracker::identity::{
    derive_public_identity, parse_address, InvalidAddress, InvalidKeyMaterial, ADDRESS_LENGTH,
    PRIVATE_KEY_LENGTH,
};

fn key_one() -> Vec<u8> {
    let mut key = vec![0u8; 32];
    key[31] = 1;
    key
}

fn address_of_key_one() -> Vec<u8> {
    vec![
        0x7e, 0x5f, 0x45, 0x52, 0x09, 0x1a, 0x69, 0x12, 0x5d, 0x5d, 0xfc, 0xb7, 0xb8, 0xc2, 0x65,
        0x90, 0x29, 0x39, 0x5b, 0xdf,
    ]
}

#[test]
fn lengths_are_those_of_keys_and_addresses() {
    assert_eq!(PRIVATE_KEY_LENGTH, 32);
    assert_eq!(ADDRESS_LENGTH, 20);
}

#[test]
fn key_one_has_its_well_known_address() {
    assert_eq!(derive_public_identity(&key_one()), Ok(address_of_key_one()));
}

#[test]
fn derivation_gives_the_same_address_each_time() {
    let mut key = vec![0u8; 32];
    key[0] = 1;
    let first = derive_public_identity(&key).unwrap();
    let second = derive_public_identity(&key).unwrap();
    assert_eq!(first, second);
    assert_eq!(first.len(), 20);
    assert_ne!(first, address_of_key_one());
}

#[test]
fn the_zero_key_is_no_key() {
    assert_eq!(derive_public_identity(&vec![0u8; 32]), Err(InvalidKeyMaterial));
}

#[test]
fn a_key_beyond_the_curve_order_is_no_key() {
    assert_eq!(derive_public_identity(&vec![255u8; 32]), Err(InvalidKeyMaterial));
}

#[test]
fn key_material_of_another_length_is_refused() {
    assert_eq!(derive_public_identity(&vec![1u8; 31]), Err(InvalidKeyMaterial));
    assert_eq!(derive_public_identity(&vec![1u8; 33]), Err(InvalidKeyMaterial));
    assert_eq!(derive_public_identity(&Vec::new()), Err(InvalidKeyMaterial));
}

#[test]
fn an_address_is_read_from_its_text() {
    assert_eq!(
        parse_address("0x7e5f4552091a69125d5dfcb7b8c2659029395bdf"),
        Ok(address_of_key_one())
    );
    assert_eq!(
        parse_address("7E5F4552091A69125D5DFCB7B8C2659029395BDF"),
        Ok(address_of_key_one())
    );
}

#[test]
fn a_text_that_is_no_address_is_refused() {
    assert_eq!(parse_address("0x1234"), Err(InvalidAddress));
    assert_eq!(
        parse_address("0xzz5f4552091a69125d5dfcb7b8c2659029395bdf"),
        Err(InvalidAddress)
    );
}
