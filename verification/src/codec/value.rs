//! The kinds of value a field can hold: how each is written as fields and
//! how each is taken from a field.

use crate::codec::field::{
    item_bytes, item_ok, items_bytes, key_of, put_bytes, put_scalar, Field, Item, Wire, MAX_NUMBER,
};
use crate::codec::varint::lemma_varint_bytes_len;
use crate::codec::message::{
    encode, encoded, lemma_decoded_encoded, lemma_items_bytes_concat, merge, merged, Lossless,
    Message,
};
use vstd::prelude::*;
use vstd::slice::slice_to_vec;
use vstd::utf8::{decode_utf8, encode_utf8, valid_utf8};

verus! {

/// The field that holds an integer.
pub open spec fn scalar_item(number: u32, value: u64) -> Item {
    Item { number, wire: Wire::Varint, scalar: value, bytes: Seq::empty() }
}

/// The field that holds bytes behind their length.
pub open spec fn bytes_item(number: u32, bytes: Seq<u8>) -> Item {
    Item { number, wire: Wire::Len, scalar: 0, bytes }
}

/// A signed 32-bit integer as the wire's 64 bits: sign-extended.
pub open spec fn int32_scalar(value: i32) -> u64 {
    if value >= 0 {
        value as u64
    } else {
        (0x1_0000_0000_0000_0000 + value) as u64
    }
}

/// The low 32 bits of a wire integer, read as signed.
pub open spec fn scalar_int32(scalar: u64) -> i32 {
    let low = scalar % 0x1_0000_0000;
    if low < 0x8000_0000 {
        low as i32
    } else {
        (low - 0x1_0000_0000) as i32
    }
}

// ---- how a value is written ----

/// A plain integer: left out when zero.
pub open spec fn uint64_items(number: u32, value: u64) -> Seq<Item> {
    if value == 0 {
        Seq::empty()
    } else {
        seq![scalar_item(number, value)]
    }
}

/// An integer with presence: left out only when absent.
pub open spec fn some_uint64_items(number: u32, value: Option<u64>) -> Seq<Item> {
    match value {
        Some(x) => seq![scalar_item(number, x)],
        None => Seq::empty(),
    }
}

/// A plain 32-bit integer: left out when zero.
pub open spec fn uint32_items(number: u32, value: u32) -> Seq<Item> {
    uint64_items(number, value as u64)
}

/// A 32-bit integer with presence.
pub open spec fn some_uint32_items(number: u32, value: Option<u32>) -> Seq<Item> {
    match value {
        Some(x) => seq![scalar_item(number, x as u64)],
        None => Seq::empty(),
    }
}

/// A flag: left out when false, one when true.
pub open spec fn bool_items(number: u32, value: bool) -> Seq<Item> {
    if value {
        seq![scalar_item(number, 1)]
    } else {
        Seq::empty()
    }
}

/// The number of an enumeration's value: left out when zero.
pub open spec fn int32_items(number: u32, value: i32) -> Seq<Item> {
    uint64_items(number, int32_scalar(value))
}

/// A text: its UTF-8 bytes, left out when empty.
pub open spec fn text_items(number: u32, value: Seq<char>) -> Seq<Item> {
    if value.len() == 0 {
        Seq::empty()
    } else {
        seq![bytes_item(number, encode_utf8(value))]
    }
}

/// A text with presence.
pub open spec fn some_text_items(number: u32, value: Option<Seq<char>>) -> Seq<Item> {
    match value {
        Some(x) => seq![bytes_item(number, encode_utf8(x))],
        None => Seq::empty(),
    }
}

/// Raw bytes: left out when empty.
pub open spec fn blob_items(number: u32, value: Seq<u8>) -> Seq<Item> {
    if value.len() == 0 {
        Seq::empty()
    } else {
        seq![bytes_item(number, value)]
    }
}

/// Raw bytes with presence.
pub open spec fn some_blob_items(number: u32, value: Option<Seq<u8>>) -> Seq<Item> {
    match value {
        Some(x) => seq![bytes_item(number, x)],
        None => Seq::empty(),
    }
}

/// A message inside a message: its own bytes, left out only when absent.
pub open spec fn nested_items<M: Message>(number: u32, value: Option<M::V>) -> Seq<Item> {
    match value {
        Some(x) => seq![bytes_item(number, encoded::<M>(x))],
        None => Seq::empty(),
    }
}

/// A list of messages: one field for each, in order.
pub open spec fn repeated_items<M: Message>(number: u32, values: Seq<M::V>) -> Seq<Item>
    decreases values.len(),
{
    if values.len() == 0 {
        Seq::empty()
    } else {
        repeated_items::<M>(number, values.drop_last()).push(
            bytes_item(number, encoded::<M>(values.last())),
        )
    }
}

// ---- whether a value's length can be written ----

/// The bytes of a text have a length that the wire can state.
pub open spec fn text_fits(value: Seq<char>) -> bool {
    encode_utf8(value).len() <= u64::MAX
}

/// The same of a text with presence.
pub open spec fn some_text_fits(value: Option<Seq<char>>) -> bool {
    value matches Some(x) ==> text_fits(x)
}

/// Raw bytes have a length that the wire can state.
pub open spec fn blob_fits(value: Seq<u8>) -> bool {
    value.len() <= u64::MAX
}

/// The same of raw bytes with presence.
pub open spec fn some_blob_fits(value: Option<Seq<u8>>) -> bool {
    value matches Some(x) ==> blob_fits(x)
}

/// A message fits, and so do its bytes as the payload of a field.
pub open spec fn message_fits<M: Message>(value: M::V) -> bool {
    M::fits(value) && encoded::<M>(value).len() <= u64::MAX
}

/// The same of a nested message that may be absent.
pub open spec fn nested_fits<M: Message>(value: Option<M::V>) -> bool {
    value matches Some(x) ==> message_fits::<M>(x)
}

/// The same of every message of a list.
pub open spec fn repeated_fits<M: Message>(values: Seq<M::V>) -> bool {
    forall|i: int| 0 <= i < values.len() ==> message_fits::<M>(#[trigger] values[i])
}

// ---- how a value is taken from a field ----

/// The integer that a field holds, where it holds one.
pub open spec fn item_uint64(item: Item) -> Option<u64> {
    if item.wire == Wire::Varint {
        Some(item.scalar)
    } else {
        None
    }
}

/// A 32-bit field keeps the low 32 bits of what was sent.
pub open spec fn item_uint32(item: Item) -> Option<u32> {
    if item.wire == Wire::Varint {
        Some((item.scalar % 0x1_0000_0000) as u32)
    } else {
        None
    }
}

/// A flag is set by any integer but zero.
pub open spec fn item_bool(item: Item) -> Option<bool> {
    if item.wire == Wire::Varint {
        Some(item.scalar != 0)
    } else {
        None
    }
}

/// The signed 32-bit integer that a field holds: the low 32 bits.
pub open spec fn item_int32(item: Item) -> Option<i32> {
    if item.wire == Wire::Varint {
        Some(scalar_int32(item.scalar))
    } else {
        None
    }
}

/// A text is taken only from well-formed UTF-8.
pub open spec fn item_text(item: Item) -> Option<Seq<char>> {
    if item.wire == Wire::Len && valid_utf8(item.bytes) {
        Some(decode_utf8(item.bytes))
    } else {
        None
    }
}

/// The bytes that a field holds, where it holds bytes.
pub open spec fn item_blob(item: Item) -> Option<Seq<u8>> {
    if item.wire == Wire::Len {
        Some(item.bytes)
    } else {
        None
    }
}

/// A nested message takes in the fields of the payload on top of what it
/// held before, or of the blank message where it held nothing.
pub open spec fn item_nested<M: Message>(current: Option<M::V>, item: Item) -> Option<M::V> {
    if item.wire == Wire::Len {
        merged::<M>(
            match current {
                Some(held) => held,
                None => M::blank(),
            },
            item.bytes,
        )
    } else {
        None
    }
}

/// Turns bytes into a text where they are well-formed UTF-8.
///
/// Calls `String::from_utf8`, which gives the string that the bytes encode
/// and fails where they are not valid UTF-8.
#[verifier::external_body]
pub(crate) fn text_from_utf8(bytes: Vec<u8>) -> (r: Option<String>)
    ensures
        match r {
            Some(text) => valid_utf8(bytes@) && text@ == decode_utf8(bytes@),
            None => !valid_utf8(bytes@),
        },
{
    String::from_utf8(bytes).ok()
}

/// The integer of a field, where the field holds one.
pub fn field_uint64(field: &Field<'_>) -> (r: Option<u64>)
    ensures
        r == item_uint64(field@),
{
    match field.wire {
        Wire::Varint => Some(field.scalar),
        _ => None,
    }
}

/// The 32-bit integer of a field, where the field holds an integer.
pub fn field_uint32(field: &Field<'_>) -> (r: Option<u32>)
    ensures
        r == item_uint32(field@),
{
    match field.wire {
        Wire::Varint => Some((field.scalar % 0x1_0000_0000) as u32),
        _ => None,
    }
}

/// The flag of a field, where the field holds an integer.
pub fn field_bool(field: &Field<'_>) -> (r: Option<bool>)
    ensures
        r == item_bool(field@),
{
    match field.wire {
        Wire::Varint => Some(field.scalar != 0),
        _ => None,
    }
}

/// The signed 32-bit integer of a field, where the field holds an integer.
pub fn field_int32(field: &Field<'_>) -> (r: Option<i32>)
    ensures
        r == item_int32(field@),
{
    match field.wire {
        Wire::Varint => {
            let low: u64 = field.scalar % 0x1_0000_0000;
            if low < 0x8000_0000 {
                Some(low as i32)
            } else {
                Some((low as i64 - 0x1_0000_0000) as i32)
            }
        },
        _ => None,
    }
}

/// The text of a field, where the field holds well-formed UTF-8.
pub fn field_text(field: &Field<'_>) -> (r: Option<String>)
    ensures
        r.deep_view() == item_text(field@),
{
    match field.wire {
        Wire::Len => text_from_utf8(slice_to_vec(field.bytes)),
        _ => None,
    }
}

/// The bytes of a field, where the field holds bytes.
pub fn field_blob(field: &Field<'_>) -> (r: Option<Vec<u8>>)
    ensures
        r.deep_view() == item_blob(field@),
{
    match field.wire {
        Wire::Len => {
            let bytes = slice_to_vec(field.bytes);
            assert(bytes.deep_view() =~= field.bytes@);
            Some(bytes)
        },
        _ => None,
    }
}

/// Takes a field into a nested message that may be absent so far.
pub fn take_nested<M: Message>(slot: &mut Option<M>, field: &Field<'_>) -> (ok: bool)
    ensures
        match item_nested::<M>(old(slot).deep_view(), field@) {
            Some(v) => ok && final(slot).deep_view() == Some(v),
            None => !ok,
        },
{
    match field.wire {
        Wire::Len => {
            let mut inner = match slot.take() {
                Some(held) => held,
                None => M::fresh(),
            };
            if merge(&mut inner, field.bytes) {
                *slot = Some(inner);
                true
            } else {
                false
            }
        },
        _ => false,
    }
}

/// Takes a field as one more message at the end of a list.
pub fn take_repeated<M: Message>(list: &mut Vec<M>, field: &Field<'_>) -> (ok: bool)
    ensures
        match item_nested::<M>(None, field@) {
            Some(v) => ok && final(list).deep_view() == old(list).deep_view().push(v),
            None => !ok,
        },
{
    match field.wire {
        Wire::Len => {
            let mut inner = M::fresh();
            if merge(&mut inner, field.bytes) {
                let ghost v = inner.deep_view();
                list.push(inner);
                assert(list.deep_view() =~= old(list).deep_view().push(v));
                true
            } else {
                false
            }
        },
        _ => false,
    }
}

// ---- writers ----

/// Writes a plain integer.
pub fn put_uint64(number: u32, value: u64, out: &mut Vec<u8>)
    requires
        1 <= number <= MAX_NUMBER,
    ensures
        final(out)@ == old(out)@ + items_bytes(uint64_items(number, value)),
{
    if value != 0 {
        put_scalar(number, value, out);
        proof {
            lemma_items_bytes_one(scalar_item(number, value));
        }
    }
    assert(final(out)@ =~= old(out)@ + items_bytes(uint64_items(number, value)));
}

/// Writes an integer with presence.
pub fn put_some_uint64(number: u32, value: Option<u64>, out: &mut Vec<u8>)
    requires
        1 <= number <= MAX_NUMBER,
    ensures
        final(out)@ == old(out)@ + items_bytes(some_uint64_items(number, value)),
{
    if let Some(x) = value {
        put_scalar(number, x, out);
        proof {
            lemma_items_bytes_one(scalar_item(number, x));
        }
    }
    assert(final(out)@ =~= old(out)@ + items_bytes(some_uint64_items(number, value)));
}

/// Writes a plain 32-bit integer.
pub fn put_uint32(number: u32, value: u32, out: &mut Vec<u8>)
    requires
        1 <= number <= MAX_NUMBER,
    ensures
        final(out)@ == old(out)@ + items_bytes(uint32_items(number, value)),
{
    put_uint64(number, value as u64, out);
}

/// Writes a 32-bit integer with presence.
pub fn put_some_uint32(number: u32, value: Option<u32>, out: &mut Vec<u8>)
    requires
        1 <= number <= MAX_NUMBER,
    ensures
        final(out)@ == old(out)@ + items_bytes(some_uint32_items(number, value)),
{
    if let Some(x) = value {
        put_scalar(number, x as u64, out);
        proof {
            lemma_items_bytes_one(scalar_item(number, x as u64));
        }
    }
    assert(final(out)@ =~= old(out)@ + items_bytes(some_uint32_items(number, value)));
}

/// Writes a flag.
pub fn put_bool(number: u32, value: bool, out: &mut Vec<u8>)
    requires
        1 <= number <= MAX_NUMBER,
    ensures
        final(out)@ == old(out)@ + items_bytes(bool_items(number, value)),
{
    if value {
        put_scalar(number, 1, out);
        proof {
            lemma_items_bytes_one(scalar_item(number, 1));
        }
    }
    assert(final(out)@ =~= old(out)@ + items_bytes(bool_items(number, value)));
}

/// Writes the number of an enumeration's value.
pub fn put_int32(number: u32, value: i32, out: &mut Vec<u8>)
    requires
        1 <= number <= MAX_NUMBER,
    ensures
        final(out)@ == old(out)@ + items_bytes(int32_items(number, value)),
{
    let scalar: u64 = if value >= 0 {
        value as u64
    } else {
        u64::MAX - ((-(value as i64) - 1) as u64)
    };
    put_uint64(number, scalar, out);
}

/// Writes a text.
pub fn put_text(number: u32, value: &String, out: &mut Vec<u8>)
    requires
        1 <= number <= MAX_NUMBER,
    ensures
        final(out)@ == old(out)@ + items_bytes(text_items(number, value@)),
        text_fits(value@),
{
    let text = value.as_str();
    let bytes = text.as_bytes();
    let size = bytes.len();
    assert(encode_utf8(value@).len() == size);
    if !text.is_empty() {
        put_bytes(number, bytes, out);
        proof {
            lemma_items_bytes_one(bytes_item(number, encode_utf8(value@)));
        }
    }
    assert(final(out)@ =~= old(out)@ + items_bytes(text_items(number, value@)));
}

/// Writes a text with presence.
pub fn put_some_text(number: u32, value: &Option<String>, out: &mut Vec<u8>)
    requires
        1 <= number <= MAX_NUMBER,
    ensures
        final(out)@ == old(out)@ + items_bytes(some_text_items(number, value.deep_view())),
        some_text_fits(value.deep_view()),
{
    if let Some(x) = value {
        assert(value.deep_view() == Some(x@));
        put_bytes(number, x.as_str().as_bytes(), out);
        proof {
            lemma_items_bytes_one(bytes_item(number, encode_utf8(x@)));
        }
    }
    assert(final(out)@ =~= old(out)@ + items_bytes(some_text_items(number, value.deep_view())));
}

/// Writes raw bytes.
pub fn put_blob(number: u32, value: &Vec<u8>, out: &mut Vec<u8>)
    requires
        1 <= number <= MAX_NUMBER,
    ensures
        final(out)@ == old(out)@ + items_bytes(blob_items(number, value.deep_view())),
        blob_fits(value.deep_view()),
{
    assert(value.deep_view() =~= value@);
    if value.len() != 0 {
        put_bytes(number, value.as_slice(), out);
        proof {
            lemma_items_bytes_one(bytes_item(number, value@));
        }
    }
    assert(final(out)@ =~= old(out)@ + items_bytes(blob_items(number, value.deep_view())));
}

/// Writes raw bytes with presence.
pub fn put_some_blob(number: u32, value: &Option<Vec<u8>>, out: &mut Vec<u8>)
    requires
        1 <= number <= MAX_NUMBER,
    ensures
        final(out)@ == old(out)@ + items_bytes(some_blob_items(number, value.deep_view())),
        some_blob_fits(value.deep_view()),
{
    if let Some(x) = value {
        assert(x.deep_view() =~= x@);
        assert(value.deep_view() == Some(x.deep_view()));
        put_bytes(number, x.as_slice(), out);
        proof {
            lemma_items_bytes_one(bytes_item(number, x@));
        }
    }
    assert(final(out)@ =~= old(out)@ + items_bytes(some_blob_items(number, value.deep_view())));
}

/// Writes one message as a field of another.
pub fn put_message<M: Message>(number: u32, value: &M, out: &mut Vec<u8>)
    requires
        1 <= number <= MAX_NUMBER,
    ensures
        final(out)@ == old(out)@ + item_bytes(bytes_item(number, encoded::<M>(value.deep_view()))),
        message_fits::<M>(value.deep_view()),
{
    let inner = encode(value);
    put_bytes(number, inner.as_slice(), out);
}

/// Writes a nested message that may be absent.
pub fn put_nested<M: Message>(number: u32, value: &Option<M>, out: &mut Vec<u8>)
    requires
        1 <= number <= MAX_NUMBER,
    ensures
        final(out)@ == old(out)@ + items_bytes(nested_items::<M>(number, value.deep_view())),
        nested_fits::<M>(value.deep_view()),
{
    if let Some(x) = value {
        put_message(number, x, out);
        proof {
            lemma_items_bytes_one(bytes_item(number, encoded::<M>(x.deep_view())));
        }
    }
    assert(final(out)@ =~= old(out)@ + items_bytes(
        nested_items::<M>(number, value.deep_view()),
    ));
}

/// Writes a list of messages, one field for each.
pub fn put_repeated<M: Message>(number: u32, values: &Vec<M>, out: &mut Vec<u8>)
    requires
        1 <= number <= MAX_NUMBER,
    ensures
        final(out)@ == old(out)@ + items_bytes(repeated_items::<M>(number, values.deep_view())),
        repeated_fits::<M>(values.deep_view()),
{
    let ghost all = values.deep_view();
    let mut i: usize = 0;
    assert(all.take(0) =~= Seq::<M::V>::empty());
    assert(out@ =~= old(out)@ + items_bytes(repeated_items::<M>(number, all.take(0))));
    while i < values.len()
        invariant
            1 <= number <= MAX_NUMBER,
            i <= values@.len(),
            all == values.deep_view(),
            out@ == old(out)@ + items_bytes(repeated_items::<M>(number, all.take(i as int))),
            forall|k: int| 0 <= k < i ==> message_fits::<M>(#[trigger] all[k]),
        decreases values@.len() - i,
    {
        let ghost before = repeated_items::<M>(number, all.take(i as int));
        let ghost item = bytes_item(number, encoded::<M>(all[i as int]));
        put_message(number, &values[i], out);
        proof {
            let next = all.take(i + 1);
            assert(next.drop_last() =~= all.take(i as int));
            assert(next.last() == all[i as int]);
            assert(repeated_items::<M>(number, next) =~= before + seq![item]);
            lemma_items_bytes_concat(before, seq![item]);
            lemma_items_bytes_one(item);
            assert(out@ =~= old(out)@ + items_bytes(repeated_items::<M>(number, next)));
        }
        i = i + 1;
    }
    assert(all.take(i as int) =~= all);
}

// ---- facts for reading back ----

/// The bytes of a run of one field.
pub proof fn lemma_items_bytes_one(item: Item)
    ensures
        items_bytes(seq![item]) == item_bytes(item),
{
    let items = seq![item];
    assert(items.drop_first() =~= Seq::<Item>::empty());
    assert(items_bytes(items.drop_first()) =~= Seq::<u8>::empty());
    assert(items_bytes(items) =~= item_bytes(item));
}

// ---- how long what is written can be ----

/// One field is no longer than its payload and twenty bytes for its key
/// and its length.
pub proof fn lemma_item_size(item: Item)
    ensures
        item_bytes(item).len() <= 20 + item.bytes.len(),
{
    lemma_varint_bytes_len(key_of(item.number, item.wire) as u64);
    lemma_varint_bytes_len(item.scalar);
    lemma_varint_bytes_len(item.bytes.len() as u64);
}

/// A run of no field or of one is no longer than one field.
pub proof fn lemma_short_run_size(items: Seq<Item>, payload: nat)
    requires
        items.len() <= 1,
        items.len() == 1 ==> items[0].bytes.len() <= payload,
    ensures
        items_bytes(items).len() <= 20 + payload,
{
    if items.len() == 1 {
        assert(items =~= seq![items[0]]);
        lemma_items_bytes_one(items[0]);
        lemma_item_size(items[0]);
    }
}

/// Two runs, joined, are as long as the two together.
pub proof fn lemma_joined_size(a: Seq<Item>, b: Seq<Item>, x: nat, y: nat)
    requires
        items_bytes(a).len() <= x,
        items_bytes(b).len() <= y,
    ensures
        items_bytes(a + b).len() <= x + y,
{
    lemma_items_bytes_concat(a, b);
}

/// A text that was written is taken back as it was.
pub proof fn lemma_text_round_trip(number: u32, value: Seq<char>)
    ensures
        item_text(bytes_item(number, encode_utf8(value))) == Some(value),
{
    vstd::utf8::encode_utf8_valid_utf8(value);
    vstd::utf8::encode_utf8_decode_utf8(value);
}

/// A signed integer that was written is taken back as it was.
pub proof fn lemma_int32_round_trip(value: i32)
    ensures
        scalar_int32(int32_scalar(value)) == value,
        int32_scalar(value) == 0 <==> value == 0,
{
}

/// A nested message that was written alone is taken back as it was.
pub proof fn lemma_nested_round_trip<M: Lossless>(number: u32, value: M::V)
    requires
        M::fits(value),
    ensures
        item_nested::<M>(None, bytes_item(number, encoded::<M>(value))) == Some(value),
{
    lemma_decoded_encoded::<M>(value);
}

} // verus!
