//! Variable-length integers (LEB128, least significant group first), as the
//! wire format writes every key, length and integer.

use vstd::prelude::*;

verus! {

/// The bytes that stand for `value`: seven bits a byte, low bits first, the
/// top bit set on every byte but the last.
pub open spec fn varint_bytes(value: u64) -> Seq<u8>
    decreases value,
{
    if value < 128 {
        seq![value as u8]
    } else {
        seq![(value % 128 + 128) as u8] + varint_bytes(value / 128)
    }
}

/// The value and the length of the integer at the head of `bytes`, where the
/// first byte of `bytes` is the `index`-th byte of that integer (from zero).
/// There is none where the bytes end before a byte without the top bit,
/// where the integer would take more than ten bytes, or where its tenth
/// byte carries more than the single bit that still fits in 64.
pub open spec fn varint_scan(bytes: Seq<u8>, index: nat) -> Option<(nat, nat)>
    decreases bytes.len(),
{
    if bytes.len() == 0 || index >= 10 {
        None
    } else if bytes[0] < 128 {
        if index == 9 && bytes[0] >= 2 {
            None
        } else {
            Some((bytes[0] as nat, 1nat))
        }
    } else {
        match varint_scan(bytes.drop_first(), index + 1) {
            Some((high, n)) => Some((((bytes[0] - 128) + 128 * high) as nat, n + 1)),
            None => None,
        }
    }
}

/// The integer at the head of `bytes` and the number of bytes it takes.
pub open spec fn varint_head(bytes: Seq<u8>) -> Option<(u64, nat)> {
    match varint_scan(bytes, 0) {
        Some((value, n)) => Some((value as u64, n)),
        None => None,
    }
}

/// The exclusive bound on what an integer can hold from its `index`-th byte
/// on: two to the power of `64 - 7 * index`.
pub open spec fn varint_room(index: nat) -> nat {
    if index == 0 {
        0x1_0000_0000_0000_0000
    } else if index == 1 {
        0x200_0000_0000_0000
    } else if index == 2 {
        0x4_0000_0000_0000
    } else if index == 3 {
        0x800_0000_0000
    } else if index == 4 {
        0x10_0000_0000
    } else if index == 5 {
        0x2000_0000
    } else if index == 6 {
        0x40_0000
    } else if index == 7 {
        0x8000
    } else if index == 8 {
        0x100
    } else if index == 9 {
        2
    } else {
        0
    }
}

/// What `varint_scan` reads fits in the room left at `index`, and it takes
/// at least one byte and no more than there are.
pub proof fn lemma_varint_scan_bounds(bytes: Seq<u8>, index: nat)
    ensures
        varint_scan(bytes, index) matches Some((value, n)) ==> value < varint_room(index) && 1 <= n
            <= bytes.len() && index + n <= 10,
    decreases bytes.len(),
{
    if bytes.len() == 0 || index >= 10 {
    } else if bytes[0] < 128 {
    } else {
        lemma_varint_scan_bounds(bytes.drop_first(), index + 1);
    }
}

/// An integer is between one and ten bytes long.
pub proof fn lemma_varint_bytes_len(value: u64)
    ensures
        1 <= varint_bytes(value).len() <= 10,
{
    lemma_varint_bytes_len_from(value, 0);
}

proof fn lemma_varint_bytes_len_from(value: u64, index: nat)
    requires
        index <= 9,
        value < varint_room(index),
    ensures
        1 <= varint_bytes(value).len() <= 10 - index,
    decreases value,
{
    if value >= 128 {
        lemma_varint_bytes_len_from(value / 128, index + 1);
    }
}

/// Reading back what was written gives the value, whatever follows it.
pub proof fn lemma_varint_round_trip(value: u64, rest: Seq<u8>)
    ensures
        varint_scan(varint_bytes(value) + rest, 0) == Some(
            (value as nat, varint_bytes(value).len()),
        ),
        varint_head(varint_bytes(value) + rest) == Some((value, varint_bytes(value).len())),
{
    lemma_varint_scan_written(value, rest, 0);
}

proof fn lemma_varint_scan_written(value: u64, rest: Seq<u8>, index: nat)
    requires
        index <= 9,
        value < varint_room(index),
    ensures
        varint_scan(varint_bytes(value) + rest, index) == Some(
            (value as nat, varint_bytes(value).len()),
        ),
    decreases value,
{
    let bytes = varint_bytes(value) + rest;
    if value < 128 {
        assert(bytes[0] == value as u8);
    } else {
        let tail = varint_bytes(value / 128) + rest;
        assert(bytes[0] == (value % 128 + 128) as u8);
        assert(bytes.drop_first() =~= tail);
        lemma_varint_scan_written(value / 128, rest, index + 1);
    }
}

/// Appends `value` to `out` in the wire's variable-length form.
///
/// Calls `prost::encoding::encode_varint`, which writes seven bits of the
/// value at a time, lowest first, and sets the top bit on each byte that
/// another follows.
#[verifier::external_body]
pub(crate) fn put_varint(value: u64, out: &mut Vec<u8>)
    ensures
        final(out)@ == old(out)@ + varint_bytes(value),
{
    prost::encoding::encode_varint(value, out)
}

/// Reads the integer at the head of `input`; gives it with the number of
/// bytes that follow it.
///
/// Calls `prost::encoding::decode_varint` on the slice, which reads up to
/// ten bytes until one has no top bit, sums their low seven bits by place,
/// advances the slice past what it read, and fails on an empty or unfinished
/// input and on a tenth byte above one.
#[verifier::external_body]
pub(crate) fn take_varint(input: &[u8]) -> (r: Option<(u64, usize)>)
    ensures
        match varint_scan(input@, 0) {
            Some((value, n)) => r == Some((value as u64, (input@.len() - n) as usize)),
            None => r is None,
        },
{
    let mut rest: &[u8] = input;
    match prost::encoding::decode_varint(&mut rest) {
        Ok(value) => Some((value, rest.len())),
        Err(_) => None,
    }
}

} // verus!
