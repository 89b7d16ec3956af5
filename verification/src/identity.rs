//! The public identity of a private key.
//!
//! Deriving an address from a private key is elliptic-curve and hash
//! arithmetic that this library does not prove: it is done by the `clarity`
//! crate and trusted. The library gives the result a name, checks the length
//! of the key material, and turns the outside error into its own.

use std::str::FromStr;
use vstd::prelude::*;

verus! {

/// The error type of the `clarity` crate, carried through unread.
#[verifier::external_type_specification]
#[verifier::external_body]
pub struct ExClarityError(clarity::Error);

/// The address that `clarity` derives from a private key of 32 bytes, or `None`
/// where it rejects the key.
pub uninterp spec fn derived_address(private_key: Seq<u8>) -> Option<Seq<u8>>;

/// The address that `clarity` reads from a text, or `None` where it rejects
/// the text.
pub uninterp spec fn parsed_address(text: Seq<char>) -> Option<Seq<u8>>;

/// A text that is not an address.
#[derive(Debug, Clone, Copy, PartialEq, Eq, Structural)]
pub struct InvalidAddress;

/// Key material that is not a private key: not 32 bytes long, or rejected by
/// the curve arithmetic (the all-zero key is the best known).
#[derive(Debug, Clone, Copy, PartialEq, Eq, Structural)]
pub struct InvalidKeyMaterial;

/// How long a private key is, in bytes.
pub const PRIVATE_KEY_LENGTH: usize = 32;

/// How long an address is, in bytes.
pub const ADDRESS_LENGTH: usize = 20;

/// The public identity of `private_bytes`: what `clarity` derives from
/// them if they are 32 bytes, nothing otherwise.
pub open spec fn public_identity(private_bytes: Seq<u8>) -> Option<Seq<u8>> {
    if private_bytes.len() == PRIVATE_KEY_LENGTH {
        derived_address(private_bytes)
    } else {
        None
    }
}

/// Calls `clarity::PrivateKey::from_bytes` and hands out the bytes of the
/// key's address (`PrivateKey::to_address`, `Address::as_bytes`).
///
/// Trusted: the result is a function of the key bytes alone, named
/// [`derived_address`]; an address is 20 bytes long; a key that `from_bytes`
/// rejects has no address.
#[verifier::external_body]
fn address_of_key(private_key: [u8; 32]) -> (derived: Result<Vec<u8>, clarity::Error>)
    ensures
        match derived {
            Ok(address) => derived_address(private_key@) == Some(address@) && address@.len()
                == ADDRESS_LENGTH,
            Err(_) => derived_address(private_key@) is None,
        },
{
    match clarity::PrivateKey::from_bytes(private_key) {
        Ok(key) => Ok(key.to_address().as_bytes().to_vec()),
        Err(error) => Err(error),
    }
}

/// Calls `clarity::Address::from_str` and hands out the bytes of the address
/// (`Address::as_bytes`).
///
/// Trusted: the result is a function of the text alone, named
/// [`parsed_address`]; an address is 20 bytes long.
#[verifier::external_body]
fn address_of_text(text: &str) -> (parsed: Result<Vec<u8>, clarity::Error>)
    ensures
        match parsed {
            Ok(address) => parsed_address(text@) == Some(address@) && address@.len()
                == ADDRESS_LENGTH,
            Err(_) => parsed_address(text@) is None,
        },
{
    match clarity::Address::from_str(text) {
        Ok(address) => Ok(address.as_bytes().to_vec()),
        Err(error) => Err(error),
    }
}

/// Reads an address from its text as `clarity` does: 40 hexadecimal digits,
/// with or without `0x` before them; the empty text is read as the all-zero
/// address.
pub fn parse_address(text: &str) -> (address: Result<Vec<u8>, InvalidAddress>)
    ensures
        match address {
            Ok(bytes) => parsed_address(text@) == Some(bytes@) && bytes@.len() == ADDRESS_LENGTH,
            Err(_) => parsed_address(text@) is None,
        },
{
    match address_of_text(text) {
        Ok(bytes) => Ok(bytes),
        Err(_) => Err(InvalidAddress),
    }
}

/// Derives the public identity (the address) of a private key.
///
/// Key material of another length than 32 bytes is refused, as is material
/// that the curve arithmetic rejects.
pub fn derive_public_identity(private_bytes: &Vec<u8>) -> (identity: Result<
    Vec<u8>,
    InvalidKeyMaterial,
>)
    ensures
        match identity {
            Ok(address) => public_identity(private_bytes@) == Some(address@) && address@.len()
                == ADDRESS_LENGTH,
            Err(_) => public_identity(private_bytes@) is None,
        },
{
    if private_bytes.len() != PRIVATE_KEY_LENGTH {
        return Err(InvalidKeyMaterial);
    }
    let mut key: [u8; 32] = [0u8; 32];
    let mut index: usize = 0;
    while index < 32
        invariant
            index <= 32,
            private_bytes@.len() == 32,
            forall|i: int| 0 <= i < index ==> key@[i] == private_bytes@[i],
        decreases 32 - index,
    {
        key[index] = private_bytes[index];
        index += 1;
    }
    assert(key@ =~= private_bytes@);
    match address_of_key(key) {
        Ok(address) => Ok(address),
        Err(_) => Err(InvalidKeyMaterial),
    }
}

} // verus!
