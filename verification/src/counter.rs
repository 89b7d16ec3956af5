//! The counter that walks the unknown bytes of a key.
//!
//! A counter is a byte buffer of fixed width read as a number whose first byte
//! is the least significant. Incrementing ripples the carry from the first
//! byte upward, so a buffer of `w` bytes runs through every value from `0` to
//! `256^w - 1` before it reports the end of the space.

use vstd::arithmetic::div_mod::{lemma_fundamental_div_mod, lemma_mod_self_0, lemma_small_mod};
use vstd::prelude::*;

verus! {

/// Returned by [`increment_vec_uint`] when the buffer held the last value.
#[derive(Debug, Clone, Copy, PartialEq, Eq, Structural)]
pub struct EndOfSpace;

/// How many values a counter of `width` bytes has: 256 to the power `width`.
pub open spec fn space_size(width: nat) -> nat
    decreases width,
{
    if width == 0 {
        1
    } else {
        256 * space_size((width - 1) as nat)
    }
}

/// The number a buffer stands for, its first byte being the least significant.
pub open spec fn le_value(bytes: Seq<u8>) -> nat
    decreases bytes.len(),
{
    if bytes.len() == 0 {
        0
    } else {
        bytes[0] as nat + 256 * le_value(bytes.drop_first())
    }
}

/// The buffer of `width` bytes that stands for `value`; digits of `value`
/// beyond the width are dropped.
pub open spec fn le_bytes(value: nat, width: nat) -> Seq<u8>
    decreases width,
{
    if width == 0 {
        Seq::<u8>::empty()
    } else {
        seq![(value % 256) as u8] + le_bytes(value / 256, (width - 1) as nat)
    }
}

/// The buffer of `width` bytes that all hold `byte`.
pub open spec fn filled(width: nat, byte: u8) -> Seq<u8> {
    Seq::new(width, |i: int| byte)
}

/// Whether a buffer holds the last value of its width.
pub open spec fn is_last(bytes: Seq<u8>) -> bool {
    le_value(bytes) + 1 == space_size(bytes.len())
}

/// What an increment leaves in the buffer: the next value, or zero after the last.
pub open spec fn successor(bytes: Seq<u8>) -> Seq<u8> {
    le_bytes((le_value(bytes) + 1) % space_size(bytes.len()), bytes.len())
}

/// The buffer after `steps` increments of the all-zero buffer of `width` bytes.
pub open spec fn counter_state(width: nat, steps: nat) -> Seq<u8>
    decreases steps,
{
    if steps == 0 {
        filled(width, 0)
    } else {
        successor(counter_state(width, (steps - 1) as nat))
    }
}

/// No counter is without a value: even the one of no bytes has one.
pub proof fn lemma_space_size_positive(width: nat)
    ensures
        space_size(width) >= 1,
    decreases width,
{
    if width > 0 {
        lemma_space_size_positive((width - 1) as nat);
    }
}

/// Every buffer stands for a number below the size of its space.
pub proof fn lemma_le_value_bound(bytes: Seq<u8>)
    ensures
        le_value(bytes) < space_size(bytes.len()),
    decreases bytes.len(),
{
    if bytes.len() > 0 {
        lemma_le_value_bound(bytes.drop_first());
    }
}

/// Encoding the number of a buffer at the buffer's width gives the buffer back.
pub proof fn lemma_le_bytes_of_le_value(bytes: Seq<u8>)
    ensures
        le_bytes(le_value(bytes), bytes.len()) == bytes,
    decreases bytes.len(),
{
    if bytes.len() == 0 {
        assert(le_bytes(le_value(bytes), bytes.len()) =~= bytes);
    } else {
        let rest = bytes.drop_first();
        lemma_le_bytes_of_le_value(rest);
        let value = le_value(bytes);
        assert(value == bytes[0] as nat + 256 * le_value(rest));
        assert(value % 256 == bytes[0] as nat && value / 256 == le_value(rest)) by {
            vstd::arithmetic::div_mod::lemma_fundamental_div_mod_converse(
                value as int,
                256,
                le_value(rest) as int,
                bytes[0] as int,
            );
        }
        assert(le_bytes(value, bytes.len()) =~= bytes);
    }
}

/// A number below the size of the space survives encoding and decoding.
pub proof fn lemma_le_value_of_le_bytes(value: nat, width: nat)
    requires
        value < space_size(width),
    ensures
        le_bytes(value, width).len() == width,
        le_value(le_bytes(value, width)) == value,
    decreases width,
{
    if width > 0 {
        let rest = le_bytes(value / 256, (width - 1) as nat);
        lemma_fundamental_div_mod(value as int, 256);
        lemma_le_value_of_le_bytes(value / 256, (width - 1) as nat);
        let encoded = le_bytes(value, width);
        assert(encoded.drop_first() =~= rest);
        assert(encoded[0] == (value % 256) as u8);
    }
}

/// The all-zero buffer stands for zero.
pub proof fn lemma_zero_buffer_value(bytes: Seq<u8>)
    requires
        forall|i: int| 0 <= i < bytes.len() ==> bytes[i] == 0u8,
    ensures
        le_value(bytes) == 0,
    decreases bytes.len(),
{
    if bytes.len() > 0 {
        lemma_zero_buffer_value(bytes.drop_first());
    }
}

/// A buffer holds the last value of its width exactly when every byte is 255.
pub proof fn lemma_last_is_all_ones(bytes: Seq<u8>)
    ensures
        is_last(bytes) <==> (forall|i: int| 0 <= i < bytes.len() ==> bytes[i] == 255u8),
    decreases bytes.len(),
{
    if bytes.len() > 0 {
        let rest = bytes.drop_first();
        lemma_last_is_all_ones(rest);
        lemma_le_value_bound(rest);
        if forall|i: int| 0 <= i < bytes.len() ==> bytes[i] == 255u8 {
            assert forall|i: int| 0 <= i < rest.len() implies rest[i] == 255u8 by {
                assert(rest[i] == bytes[i + 1]);
            }
        }
        if is_last(bytes) {
            assert(bytes[0] == 255u8 && is_last(rest));
            assert forall|i: int| 0 <= i < bytes.len() implies bytes[i] == 255u8 by {
                if i > 0 {
                    assert(bytes[i] == rest[i - 1]);
                }
            }
        }
    }
}

/// The carry: where the first `at` bytes went from 255 to 0, the byte at `at`
/// went up by one and the rest stayed, the number went up by one.
proof fn lemma_carry_adds_one(before: Seq<u8>, after: Seq<u8>, at: int)
    requires
        before.len() == after.len(),
        0 <= at < before.len(),
        forall|i: int| 0 <= i < at ==> before[i] == 255u8,
        forall|i: int| 0 <= i < at ==> after[i] == 0u8,
        before[at] < 255,
        after[at] == before[at] + 1,
        forall|i: int| at < i < before.len() ==> after[i] == before[i],
    ensures
        le_value(after) == le_value(before) + 1,
    decreases at,
{
    if at == 0 {
        assert(after.drop_first() =~= before.drop_first());
    } else {
        lemma_carry_adds_one(before.drop_first(), after.drop_first(), at - 1);
    }
}

/// A buffer of `size` zero bytes: the value a counter of that width starts from.
pub fn zeros(size: u8) -> (buffer: Vec<u8>)
    ensures
        buffer@ == filled(size as nat, 0),
        le_value(buffer@) == 0,
{
    let mut buffer: Vec<u8> = Vec::new();
    let mut made: u8 = 0;
    while made < size
        invariant
            made <= size,
            buffer@.len() == made,
            forall|i: int| 0 <= i < made ==> buffer@[i] == 0u8,
        decreases size - made,
    {
        buffer.push(0u8);
        made += 1;
    }
    proof {
        assert(buffer@ =~= filled(size as nat, 0));
        lemma_zero_buffer_value(buffer@);
    }
    buffer
}

/// The widest counter whose number of values fits the counters of this
/// library, in bytes.
pub const MAX_COUNTER_WIDTH: u8 = 15;

/// The number of values of the widest counter: 256 to the power 15.
pub const MAX_SPACE_SIZE: u128 = 0x1_0000_0000_0000_0000_0000_0000_0000_00;

/// A counter of at most `MAX_COUNTER_WIDTH` bytes has at most
/// `MAX_SPACE_SIZE` values.
pub proof fn lemma_space_size_limit(width: nat)
    requires
        width <= MAX_COUNTER_WIDTH,
    ensures
        space_size(width) <= MAX_SPACE_SIZE,
        space_size(MAX_COUNTER_WIDTH as nat) == MAX_SPACE_SIZE,
    decreases MAX_COUNTER_WIDTH - width,
{
    reveal_with_fuel(space_size, 16);
    if width < MAX_COUNTER_WIDTH {
        lemma_space_size_limit(width + 1);
    }
}

/// How many candidates a search over `width` unknown bytes has: 256 to the
/// power `width`, where that fits, which it does up to `MAX_COUNTER_WIDTH`.
pub fn search_space_size(width: u8) -> (size: Option<u128>)
    ensures
        match size {
            Some(total) => width <= MAX_COUNTER_WIDTH && total == space_size(width as nat),
            None => width > MAX_COUNTER_WIDTH,
        },
{
    if width > MAX_COUNTER_WIDTH {
        return None;
    }
    let mut total: u128 = 1;
    let mut bytes: u8 = 0;
    while bytes < width
        invariant
            bytes <= width <= MAX_COUNTER_WIDTH,
            total == space_size(bytes as nat),
        decreases width - bytes,
    {
        proof {
            lemma_space_size_limit((bytes + 1) as nat);
        }
        total = total * 256;
        bytes += 1;
    }
    Some(total)
}

/// Steps the counter in `num` to its next value.
///
/// The first byte below 255 goes up by one and every byte before it, which
/// held 255, falls back to 0. Where every byte holds 255 the buffer held the
/// last value: all bytes fall back to 0 and `EndOfSpace` is returned.
pub fn increment_vec_uint(num: &mut Vec<u8>) -> (outcome: Result<(), EndOfSpace>)
    ensures
        final(num)@ == successor(old(num)@),
        final(num)@.len() == old(num)@.len(),
        outcome is Err <==> is_last(old(num)@),
        outcome is Ok ==> le_value(final(num)@) == le_value(old(num)@) + 1,
        outcome is Err ==> final(num)@ == filled(old(num)@.len(), 0),
{
    let ghost before = num@;
    let width: usize = num.len();
    let mut at: usize = 0;
    while at < width
        invariant
            at <= width,
            width == before.len(),
            num@.len() == before.len(),
            before == old(num)@,
            forall|i: int| 0 <= i < at ==> before[i] == 255u8,
            forall|i: int| 0 <= i < at ==> num@[i] == 0u8,
            forall|i: int| at <= i < width ==> num@[i] == before[i],
        decreases width - at,
    {
        let byte: u8 = num[at];
        if byte < 255 {
            num[at] = byte + 1;
            proof {
                lemma_carry_adds_one(before, num@, at as int);
                lemma_le_value_bound(num@);
                lemma_le_bytes_of_le_value(num@);
                lemma_small_mod(le_value(num@), space_size(before.len()));
            }
            return Ok(());
        }
        num[at] = 0;
        at += 1;
    }
    proof {
        lemma_last_is_all_ones(before);
        lemma_zero_buffer_value(num@);
        lemma_space_size_positive(before.len());
        lemma_mod_self_0(space_size(before.len()) as int);
        lemma_le_bytes_of_le_value(num@);
        assert(num@ =~= filled(before.len(), 0));
    }
    Err(EndOfSpace)
}

/// A counter started at zero visits every value of its width exactly once.
///
/// After `k` increments of the all-zero buffer, with `k` below the size of the
/// space, the buffer stands for `k`. So the buffers visited are pairwise
/// different, every buffer of the width is among them, the end of the space is
/// reported at the last of them and at no earlier one, and that last one is
/// the buffer whose bytes are all 255.
pub proof fn lemma_counter_visits_each_value_once(width: nat)
    ensures
        forall|k: nat|
            k < space_size(width) ==> #[trigger] counter_state(width, k) == le_bytes(k, width)
                && le_value(counter_state(width, k)) == k,
        forall|k: nat|
            k < space_size(width) ==> (is_last(#[trigger] counter_state(width, k)) <==> k + 1
                == space_size(width)),
        forall|j: nat, k: nat|
            j < k < space_size(width) ==> #[trigger] counter_state(width, j)
                != #[trigger] counter_state(width, k),
        forall|bytes: Seq<u8>|
            bytes.len() == width ==> #[trigger] le_value(bytes) < space_size(width)
                && counter_state(width, le_value(bytes)) == bytes,
        counter_state(width, (space_size(width) - 1) as nat) == filled(width, 255),
{
    lemma_space_size_positive(width);
    assert forall|k: nat| k < space_size(width) implies #[trigger] counter_state(width, k)
        == le_bytes(k, width) && le_value(counter_state(width, k)) == k by {
        lemma_counter_state_value(width, k);
    }
    assert forall|k: nat| k < space_size(width) implies (is_last(
        #[trigger] counter_state(width, k),
    ) <==> k + 1 == space_size(width)) by {
        lemma_counter_state_value(width, k);
    }
    assert forall|j: nat, k: nat| j < k < space_size(width) implies #[trigger] counter_state(
        width,
        j,
    ) != #[trigger] counter_state(width, k) by {
        lemma_counter_state_value(width, j);
        lemma_counter_state_value(width, k);
    }
    assert forall|bytes: Seq<u8>| bytes.len() == width implies #[trigger] le_value(bytes)
        < space_size(width) && counter_state(width, le_value(bytes)) == bytes by {
        lemma_le_value_bound(bytes);
        lemma_counter_state_value(width, le_value(bytes));
        lemma_le_bytes_of_le_value(bytes);
    }
    let last = (space_size(width) - 1) as nat;
    lemma_counter_state_value(width, last);
    lemma_last_is_all_ones(counter_state(width, last));
    assert(counter_state(width, last) =~= filled(width, 255));
}

/// After `steps` increments from zero, short of the end, the buffer stands for `steps`.
pub proof fn lemma_counter_state_value(width: nat, steps: nat)
    requires
        steps < space_size(width),
    ensures
        counter_state(width, steps).len() == width,
        le_value(counter_state(width, steps)) == steps,
        counter_state(width, steps) == le_bytes(steps, width),
    decreases steps,
{
    if steps == 0 {
        lemma_zero_buffer_value(filled(width, 0));
        lemma_le_bytes_of_le_value(filled(width, 0));
    } else {
        lemma_counter_state_value(width, (steps - 1) as nat);
        lemma_small_mod(steps, space_size(width));
        lemma_le_value_of_le_bytes(steps, width);
    }
}

} // verus!
