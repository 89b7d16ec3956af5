//! From the arguments of a run to the plan of a search.
//!
//! The key comes as hexadecimal text with the unknown digits filled in by
//! zeros, together with the places of the first unknown digit and of the
//! digit after the last. The plan holds the key as bytes, the range of the
//! unknown bytes, the number of candidates and how they are tested. Arguments
//! that give no sound plan are refused before any work begins.

use crate::counter::{search_space_size, space_size, MAX_COUNTER_WIDTH};
use crate::identity::{parse_address, parsed_address, PRIVATE_KEY_LENGTH};
use crate::worker::SearchMode;
use vstd::prelude::*;

verus! {

/// The error type of the `hex` crate, carried through unread.
#[verifier::external_type_specification]
#[verifier::external_body]
pub struct ExFromHexError(hex::FromHexError);

/// Why arguments give no plan.
#[derive(Debug, Clone, Copy, PartialEq, Eq, Structural)]
pub enum InvalidConfiguration {
    /// The key is not hexadecimal text of even length.
    MalformedKey,
    /// The first unknown digit does not come before the end of the unknown digits.
    OffsetsOutOfOrder,
    /// There are more unknown bytes than the widest counter has.
    SearchSpaceTooLarge,
    /// The key is shorter than a private key.
    KeyTooShort,
    /// The unknown bytes reach beyond the end of the key.
    OffsetsBeyondKey,
    /// No node is given and the known address is not an address.
    MalformedTarget,
}

/// What a search needs to know.
#[derive(Debug, Clone, PartialEq, Eq)]
pub struct SearchPlan {
    /// The key, its unknown bytes filled in by anything.
    pub template: Vec<u8>,
    /// The place of the first unknown byte.
    pub start: u8,
    /// The place after the last unknown byte.
    pub end: u8,
    /// How many candidates there are.
    pub total_keys: u128,
    /// How candidates are tested.
    pub mode: SearchMode,
}

/// The number that a hexadecimal digit stands for.
pub open spec fn hex_digit(c: char) -> Option<nat> {
    let code = c as u32;
    if 0x30 <= code <= 0x39 {
        Some((code - 0x30) as nat)
    } else if 0x41 <= code <= 0x46 {
        Some((code - 0x41 + 10) as nat)
    } else if 0x61 <= code <= 0x66 {
        Some((code - 0x61 + 10) as nat)
    } else {
        None
    }
}

/// Whether a text is made of hexadecimal digits, two for each byte.
pub open spec fn is_hex_text(text: Seq<char>) -> bool {
    &&& text.len() % 2 == 0
    &&& forall|i: int| 0 <= i < text.len() ==> hex_digit(#[trigger] text[i]) is Some
}

/// The bytes that a hexadecimal text stands for: of each pair of digits the
/// first is the upper half of the byte.
pub open spec fn hex_bytes(text: Seq<char>) -> Seq<u8> {
    Seq::new(
        text.len() / 2,
        |i: int| (16 * hex_digit(text[2 * i]).unwrap() + hex_digit(text[2 * i + 1]).unwrap()) as u8,
    )
}

/// The place of the byte that holds the hexadecimal digit at place `digit`.
pub open spec fn byte_of_digit(digit: u8) -> u8 {
    digit / 2
}

/// Why the arguments give no plan, if they give none. The first fault in
/// this order is the one that is named.
pub open spec fn fault_of(
    key: Seq<char>,
    start_index: u8,
    end_index: u8,
    known_public_key: Seq<char>,
    full_node: Seq<char>,
) -> Option<InvalidConfiguration> {
    if !is_hex_text(key) {
        Some(InvalidConfiguration::MalformedKey)
    } else if start_index >= end_index {
        Some(InvalidConfiguration::OffsetsOutOfOrder)
    } else if byte_of_digit(end_index) - byte_of_digit(start_index) > MAX_COUNTER_WIDTH {
        Some(InvalidConfiguration::SearchSpaceTooLarge)
    } else if hex_bytes(key).len() < PRIVATE_KEY_LENGTH {
        Some(InvalidConfiguration::KeyTooShort)
    } else if byte_of_digit(end_index) > hex_bytes(key).len() {
        Some(InvalidConfiguration::OffsetsBeyondKey)
    } else if full_node.len() == 0 && parsed_address(known_public_key) is None {
        Some(InvalidConfiguration::MalformedTarget)
    } else {
        None
    }
}

/// Whether `mode` is the way of testing that the arguments ask for: by the
/// node if one is given, else against the known address.
pub open spec fn is_mode_for(mode: SearchMode, known_public_key: Seq<char>, full_node: Seq<char>) -> bool {
    if full_node.len() == 0 {
        mode matches SearchMode::KnownTarget { address } && parsed_address(known_public_key)
            == Some(address@)
    } else {
        mode matches SearchMode::RemoteOracle { full_node: node } && node@ == full_node
    }
}

impl SearchPlan {
    /// The unknown bytes lie inside the key, the key is long enough, and the
    /// number of candidates is that of a counter over the unknown bytes.
    pub open spec fn wf(&self) -> bool {
        &&& self.start <= self.end <= self.template@.len()
        &&& self.template@.len() >= PRIVATE_KEY_LENGTH
        &&& self.end - self.start <= MAX_COUNTER_WIDTH
        &&& self.total_keys == space_size((self.end - self.start) as nat)
    }

    /// How many bytes are unknown.
    pub fn scratch_length(&self) -> (length: u8)
        requires
            self.wf(),
        ensures
            length == self.end - self.start,
            length <= MAX_COUNTER_WIDTH,
    {
        self.end - self.start
    }
}

/// Calls `hex::decode` on a text.
///
/// Trusted: a text of even length whose characters are all hexadecimal
/// digits, upper or lower case, is decoded pair by pair into bytes; any
/// other text is refused.
#[verifier::external_body]
fn decode_hex(text: &str) -> (decoded: Result<Vec<u8>, hex::FromHexError>)
    ensures
        match decoded {
            Ok(bytes) => is_hex_text(text@) && bytes@ == hex_bytes(text@),
            Err(_) => !is_hex_text(text@),
        },
{
    hex::decode(text)
}

/// Makes the plan of a search from the arguments of a run.
///
/// `start_index` and `end_index` count hexadecimal digits of `key`; the
/// unknown bytes are those from the byte of the first to the byte of the
/// second, the latter left out. With a `full_node` the balance of every
/// candidate is looked up there; without one, candidates are compared with
/// `known_public_key`.
pub fn plan_search(
    key: &str,
    start_index: u8,
    end_index: u8,
    known_public_key: &str,
    full_node: &str,
) -> (plan: Result<SearchPlan, InvalidConfiguration>)
    ensures
        match plan {
            Ok(plan) => {
                &&& fault_of(key@, start_index, end_index, known_public_key@, full_node@) is None
                &&& plan.wf()
                &&& plan.template@ == hex_bytes(key@)
                &&& plan.start == byte_of_digit(start_index)
                &&& plan.end == byte_of_digit(end_index)
                &&& is_mode_for(plan.mode, known_public_key@, full_node@)
            },
            Err(fault) => fault_of(key@, start_index, end_index, known_public_key@, full_node@)
                == Some(fault),
        },
{
    let template: Vec<u8> = match decode_hex(key) {
        Ok(bytes) => bytes,
        Err(_) => {
            return Err(InvalidConfiguration::MalformedKey);
        },
    };
    if start_index >= end_index {
        return Err(InvalidConfiguration::OffsetsOutOfOrder);
    }
    let start: u8 = start_index / 2;
    let end: u8 = end_index / 2;
    let total_keys: u128 = match search_space_size(end - start) {
        Some(total) => total,
        None => {
            return Err(InvalidConfiguration::SearchSpaceTooLarge);
        },
    };
    if template.len() < PRIVATE_KEY_LENGTH {
        return Err(InvalidConfiguration::KeyTooShort);
    }
    if end as usize > template.len() {
        return Err(InvalidConfiguration::OffsetsBeyondKey);
    }
    let mode: SearchMode = if full_node.is_empty() {
        match parse_address(known_public_key) {
            Ok(address) => SearchMode::KnownTarget { address },
            Err(_) => {
                return Err(InvalidConfiguration::MalformedTarget);
            },
        }
    } else {
        SearchMode::RemoteOracle { full_node: full_node.to_owned() }
    };
    Ok(SearchPlan { template, start, end, total_keys, mode })
}

/// How many workers a search runs on a machine with `available_cores`
/// processors: one where a node is asked, since its answers set the pace;
/// else one for each processor, at least one and no more than the number of
/// workers can count.
pub fn worker_count(mode: &SearchMode, available_cores: usize) -> (cores: u16)
    ensures
        cores >= 1,
        *mode is RemoteOracle ==> cores == 1,
        *mode is KnownTarget ==> cores == if available_cores == 0 {
            1
        } else if available_cores > u16::MAX {
            u16::MAX as int
        } else {
            available_cores as int
        },
{
    match mode {
        SearchMode::RemoteOracle { .. } => 1,
        SearchMode::KnownTarget { .. } => {
            if available_cores == 0 {
                1
            } else if available_cores > 65535 {
                65535
            } else {
                available_cores as u16
            }
        },
    }
}

} // verus!
