//! Candidate keys: the key template with one counter value written over its
//! unknown bytes.

use crate::counter::{
    increment_vec_uint, le_bytes, le_value, lemma_le_bytes_of_le_value, lemma_le_value_bound,
    lemma_le_value_of_le_bytes, space_size, zeros,
};
use vstd::prelude::*;

verus! {

/// `template` with the bytes at `start..end` taken from `scratch`, the byte at
/// `start` being the first of `scratch`. An empty range leaves the template as
/// it is.
pub open spec fn assemble(template: Seq<u8>, scratch: Seq<u8>, start: int, end: int) -> Seq<u8> {
    Seq::new(
        template.len(),
        |i: int|
            if start <= i < end {
                scratch[i - start]
            } else {
                template[i]
            },
    )
}

/// The candidate that stands at place `index` of the enumeration: the template
/// with the counter value `index` over the bytes at `start..end`.
pub open spec fn candidate_at(template: Seq<u8>, start: int, end: int, index: nat) -> Seq<u8> {
    assemble(template, le_bytes(index, (end - start) as nat), start, end)
}

/// Different scratch values give different candidates.
///
/// For one template and one range inside it, two scratch values of the
/// range's length that differ in any byte are assembled into two different
/// candidates.
pub proof fn lemma_assemble_injective(
    template: Seq<u8>,
    first: Seq<u8>,
    second: Seq<u8>,
    start: int,
    end: int,
)
    requires
        0 <= start <= end <= template.len(),
        first.len() == end - start,
        second.len() == end - start,
        first != second,
    ensures
        assemble(template, first, start, end) != assemble(template, second, start, end),
{
    let left = assemble(template, first, start, end);
    let right = assemble(template, second, start, end);
    if left == right {
        assert forall|i: int| 0 <= i < first.len() implies first[i] == second[i] by {
            assert(left[start + i] == first[i]);
            assert(right[start + i] == second[i]);
        }
        assert(first =~= second);
    }
}

/// Candidates and counter values correspond one to one.
///
/// Two different places of the enumeration, both below the size of the search
/// space, hold different candidates.
pub proof fn lemma_candidates_distinct(
    template: Seq<u8>,
    start: int,
    end: int,
    first: nat,
    second: nat,
)
    requires
        0 <= start <= end <= template.len(),
        first < space_size((end - start) as nat),
        second < space_size((end - start) as nat),
        first != second,
    ensures
        candidate_at(template, start, end, first) != candidate_at(template, start, end, second),
{
    let width = (end - start) as nat;
    lemma_le_value_of_le_bytes(first, width);
    lemma_le_value_of_le_bytes(second, width);
    lemma_assemble_injective(
        template,
        le_bytes(first, width),
        le_bytes(second, width),
        start,
        end,
    );
}

/// Takes the key and the scratch bytes and writes the scratch bytes over the
/// key's bytes at `start..end`, in a copy: neither argument is changed.
///
/// The range has to lie inside the key and the scratch value has to cover
/// it. An empty range (`start >= end`) asks for nothing and the copy equals
/// the key.
pub fn overwirite_scratch_bits(key: &Vec<u8>, scratch: &Vec<u8>, start: u8, end: u8) -> (candidate:
    Vec<u8>)
    requires
        start < end ==> end <= key@.len() && end - start <= scratch@.len(),
    ensures
        candidate@ == assemble(key@, scratch@, start as int, end as int),
        candidate@.len() == key@.len(),
{
    let mut candidate: Vec<u8> = key.clone();
    assert(candidate@ =~= key@);
    let mut index: u8 = start;
    while index < end
        invariant
            start <= index,
            start < end ==> index <= end,
            start >= end ==> index == start,
            start < end ==> end <= key@.len() && end - start <= scratch@.len(),
            candidate@.len() == key@.len(),
            forall|i: int|
                0 <= i < key@.len() ==> #[trigger] candidate@[i] == if start <= i < index {
                    scratch@[i - start]
                } else {
                    key@[i]
                },
        decreases end - index,
    {
        let count: usize = (index - start) as usize;
        candidate[index as usize] = scratch[count];
        index += 1;
    }
    assert(candidate@ =~= assemble(key@, scratch@, start as int, end as int));
    candidate
}

/// Every candidate of the search space, in counter order.
///
/// The list holds one candidate for each value of a counter as wide as the
/// range `start..end`, starting with the all-zero value: `256^(end - start)`
/// candidates, the one at place `k` carrying the counter value `k`.
pub fn enumerate_candidates(partial_key: &Vec<u8>, start: u8, end: u8) -> (candidates: Vec<
    Vec<u8>,
>)
    requires
        start <= end <= partial_key@.len(),
    ensures
        candidates@.len() == space_size((end - start) as nat),
        forall|k: int|
            0 <= k < candidates@.len() ==> (#[trigger] candidates@[k])@ == candidate_at(
                partial_key@,
                start as int,
                end as int,
                k as nat,
            ),
{
    let width: u8 = end - start;
    let mut scratch: Vec<u8> = zeros(width);
    let mut candidates: Vec<Vec<u8>> = Vec::new();
    proof {
        lemma_le_bytes_of_le_value(scratch@);
        lemma_le_value_bound(scratch@);
    }
    candidates.push(overwirite_scratch_bits(partial_key, &scratch, start, end));
    loop
        invariant_except_break
            le_value(scratch@) + 1 == candidates@.len(),
        invariant
            width == end - start,
            start <= end <= partial_key@.len(),
            scratch@.len() == width,
            candidates@.len() <= space_size(width as nat),
            forall|k: int|
                0 <= k < candidates@.len() ==> (#[trigger] candidates@[k])@ == candidate_at(
                    partial_key@,
                    start as int,
                    end as int,
                    k as nat,
                ),
        ensures
            candidates@.len() == space_size(width as nat),
        decreases space_size(width as nat) - candidates@.len(),
    {
        match increment_vec_uint(&mut scratch) {
            Ok(()) => {
                proof {
                    lemma_le_bytes_of_le_value(scratch@);
                    lemma_le_value_bound(scratch@);
                }
                candidates.push(overwirite_scratch_bits(partial_key, &scratch, start, end));
            },
            Err(_) => {
                break ;
            },
        }
    }
    candidates
}

} // verus!
