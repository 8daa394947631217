//! Keyed fields: a key that holds the field's number and the form of its
//! payload, then the payload.

use crate::codec::varint::{
    lemma_varint_round_trip, lemma_varint_scan_bounds, put_varint, take_varint, varint_bytes,
    varint_scan,
};
use vstd::prelude::*;
use vstd::slice::slice_subrange;

verus! {

/// The form of a field's payload on the wire.
#[derive(Clone, Copy, Debug, PartialEq, Eq, Structural)]
pub enum Wire {
    /// A variable-length integer.
    Varint,
    /// Eight bytes.
    Fixed64,
    /// A length, then that many bytes.
    Len,
    /// Four bytes.
    Fixed32,
}

/// One field as specifications see it. `scalar` is the integer of a `Varint`
/// field and zero otherwise; `bytes` is empty for a `Varint` field and the
/// payload otherwise.
pub struct Item {
    pub number: u32,
    pub wire: Wire,
    pub scalar: u64,
    pub bytes: Seq<u8>,
}

/// One field as read from a buffer; `bytes` borrows from the buffer.
pub struct Field<'a> {
    pub number: u32,
    pub wire: Wire,
    pub scalar: u64,
    pub bytes: &'a [u8],
}

impl<'a> View for Field<'a> {
    type V = Item;

    open spec fn view(&self) -> Item {
        Item { number: self.number, wire: self.wire, scalar: self.scalar, bytes: self.bytes@ }
    }
}

/// The largest field number that a key can hold.
pub const MAX_NUMBER: u32 = 0x1fff_ffff;

/// The three low bits of a key.
pub open spec fn wire_code(wire: Wire) -> nat {
    match wire {
        Wire::Varint => 0,
        Wire::Fixed64 => 1,
        Wire::Len => 2,
        Wire::Fixed32 => 5,
    }
}

/// The key of a field: its number above the three bits of its form.
pub open spec fn key_of(number: u32, wire: Wire) -> nat {
    (number * 8 + wire_code(wire)) as nat
}

/// An item that can be written and read back as itself.
pub open spec fn item_ok(item: Item) -> bool {
    &&& 1 <= item.number <= MAX_NUMBER
    &&& match item.wire {
        Wire::Varint => item.bytes.len() == 0,
        Wire::Fixed64 => item.scalar == 0 && item.bytes.len() == 8,
        Wire::Len => item.scalar == 0 && item.bytes.len() <= u64::MAX,
        Wire::Fixed32 => item.scalar == 0 && item.bytes.len() == 4,
    }
}

/// Every item of a run can be written and read back as itself.
#[verifier::opaque]
pub open spec fn items_ok(items: Seq<Item>) -> bool {
    forall|i: int| 0 <= i < items.len() ==> item_ok(#[trigger] items[i])
}

/// Two runs that can be read back can be read back when joined.
pub proof fn lemma_items_ok_concat(a: Seq<Item>, b: Seq<Item>)
    requires
        items_ok(a),
        items_ok(b),
    ensures
        items_ok(a + b),
{
    reveal(items_ok);
    assert forall|i: int| 0 <= i < (a + b).len() implies item_ok(#[trigger] (a + b)[i]) by {
        if i < a.len() {
            assert((a + b)[i] == a[i]);
        } else {
            assert((a + b)[i] == b[i - a.len()]);
        }
    }
}

/// A run that can be read back can be read back with one more such item.
pub proof fn lemma_items_ok_push(a: Seq<Item>, item: Item)
    requires
        items_ok(a),
        item_ok(item),
    ensures
        items_ok(a + seq![item]),
{
    assert(items_ok(seq![item])) by {
        reveal(items_ok);
    }
    lemma_items_ok_concat(a, seq![item]);
}

/// The bytes of one field.
pub open spec fn item_bytes(item: Item) -> Seq<u8> {
    varint_bytes(key_of(item.number, item.wire) as u64) + match item.wire {
        Wire::Varint => varint_bytes(item.scalar),
        Wire::Len => varint_bytes(item.bytes.len() as u64) + item.bytes,
        _ => item.bytes,
    }
}

/// The bytes of a run of fields, one after the other.
pub open spec fn items_bytes(items: Seq<Item>) -> Seq<u8>
    decreases items.len(),
{
    if items.len() == 0 {
        Seq::empty()
    } else {
        item_bytes(items[0]) + items_bytes(items.drop_first())
    }
}

/// The field at the head of `bytes` and the number of bytes it takes. There
/// is none where the key is no valid integer or does not fit 32 bits, where
/// the number is zero, where the form is not one of the four, or where the
/// payload is cut short.
pub open spec fn read_item(bytes: Seq<u8>) -> Option<(Item, nat)> {
    match varint_scan(bytes, 0) {
        None => None,
        Some((key, n)) => {
            let number = (key / 8) as u32;
            let after = bytes.skip(n as int);
            if key > u32::MAX || key / 8 == 0 {
                None
            } else if key % 8 == 0 {
                match varint_scan(after, 0) {
                    Some((value, m)) => Some(
                        (
                            Item {
                                number,
                                wire: Wire::Varint,
                                scalar: value as u64,
                                bytes: Seq::empty(),
                            },
                            n + m,
                        ),
                    ),
                    None => None,
                }
            } else if key % 8 == 1 {
                if after.len() >= 8 {
                    Some(
                        (
                            Item {
                                number,
                                wire: Wire::Fixed64,
                                scalar: 0,
                                bytes: after.take(8),
                            },
                            n + 8,
                        ),
                    )
                } else {
                    None
                }
            } else if key % 8 == 2 {
                match varint_scan(after, 0) {
                    Some((len, m)) => if len <= after.len() - m {
                        Some(
                            (
                                Item {
                                    number,
                                    wire: Wire::Len,
                                    scalar: 0,
                                    bytes: after.subrange(m as int, (m + len) as int),
                                },
                                n + m + len,
                            ),
                        )
                    } else {
                        None
                    },
                    None => None,
                }
            } else if key % 8 == 5 {
                if after.len() >= 4 {
                    Some(
                        (
                            Item {
                                number,
                                wire: Wire::Fixed32,
                                scalar: 0,
                                bytes: after.take(4),
                            },
                            n + 4,
                        ),
                    )
                } else {
                    None
                }
            } else {
                None
            }
        },
    }
}

/// A field that was read took at least one byte and no more than there
/// were, and can be written back.
pub proof fn lemma_read_item_bounds(bytes: Seq<u8>)
    ensures
        read_item(bytes) matches Some((item, n)) ==> 1 <= n <= bytes.len() && item_ok(item),
{
    lemma_varint_scan_bounds(bytes, 0);
    if let Some((key, n)) = varint_scan(bytes, 0) {
        lemma_varint_scan_bounds(bytes.skip(n as int), 0);
    }
}

/// Reading the bytes of a field gives the field, whatever follows it.
pub proof fn lemma_read_item_written(item: Item, rest: Seq<u8>)
    requires
        item_ok(item),
    ensures
        read_item(item_bytes(item) + rest) == Some((item, item_bytes(item).len())),
{
    let key = key_of(item.number, item.wire) as u64;
    let head = varint_bytes(key);
    let payload = match item.wire {
        Wire::Varint => varint_bytes(item.scalar),
        Wire::Len => varint_bytes(item.bytes.len() as u64) + item.bytes,
        _ => item.bytes,
    };
    let bytes = item_bytes(item) + rest;
    assert(bytes =~= head + (payload + rest));
    lemma_varint_round_trip(key, payload + rest);
    let n = head.len();
    let after = bytes.skip(n as int);
    assert(after =~= payload + rest);
    assert(key / 8 == item.number);
    match item.wire {
        Wire::Varint => {
            lemma_varint_round_trip(item.scalar, rest);
            assert(item.bytes =~= Seq::<u8>::empty());
        },
        Wire::Len => {
            let len = item.bytes.len() as u64;
            assert(after =~= varint_bytes(len) + (item.bytes + rest));
            lemma_varint_round_trip(len, item.bytes + rest);
            let m = varint_bytes(len).len();
            assert(after.subrange(m as int, (m + len) as int) =~= item.bytes);
        },
        Wire::Fixed64 => {
            assert(after.take(8) =~= item.bytes);
        },
        Wire::Fixed32 => {
            assert(after.take(4) =~= item.bytes);
        },
    }
}

/// Reads the field that starts at `pos`; gives it with the position after it.
pub fn read_field<'a>(data: &'a [u8], pos: usize) -> (r: Option<(Field<'a>, usize)>)
    requires
        pos <= data@.len(),
    ensures
        match read_item(data@.skip(pos as int)) {
            Some((item, n)) => r matches Some((field, next)) && field@ == item && next == pos + n,
            None => r is None,
        },
{
    let total = data.len();
    let input = slice_subrange(data, pos, total);
    assert(input@ =~= data@.skip(pos as int));
    proof {
        lemma_varint_scan_bounds(input@, 0);
    }
    let (key, left) = match take_varint(input) {
        Some(pair) => pair,
        None => {
            return None;
        },
    };
    let start = total - left;
    let ghost n = (start - pos) as nat;
    if key > 0xffff_ffff || key / 8 == 0 {
        return None;
    }
    let number = (key / 8) as u32;
    let code = key % 8;
    let after = slice_subrange(data, start, total);
    assert(after@ =~= input@.skip(n as int));
    proof {
        lemma_varint_scan_bounds(after@, 0);
    }
    if code == 0 {
        match take_varint(after) {
            Some((value, left)) => {
                let empty = slice_subrange(data, total, total);
                assert(empty@ =~= Seq::<u8>::empty());
                Some((Field { number, wire: Wire::Varint, scalar: value, bytes: empty }, total - left))
            },
            None => None,
        }
    } else if code == 1 {
        if left >= 8 {
            let bytes = slice_subrange(data, start, start + 8);
            assert(bytes@ =~= after@.take(8));
            Some((Field { number, wire: Wire::Fixed64, scalar: 0, bytes }, start + 8))
        } else {
            None
        }
    } else if code == 2 {
        match take_varint(after) {
            Some((len, left)) => {
                if len <= left as u64 {
                    let from = total - left;
                    let to = from + len as usize;
                    let bytes = slice_subrange(data, from, to);
                    assert(bytes@ =~= after@.subrange(from - start, from - start + len));
                    Some((Field { number, wire: Wire::Len, scalar: 0, bytes }, to))
                } else {
                    None
                }
            },
            None => None,
        }
    } else if code == 5 {
        if left >= 4 {
            let bytes = slice_subrange(data, start, start + 4);
            assert(bytes@ =~= after@.take(4));
            Some((Field { number, wire: Wire::Fixed32, scalar: 0, bytes }, start + 4))
        } else {
            None
        }
    } else {
        None
    }
}

/// Appends the key of a field.
pub fn put_key(number: u32, wire: Wire, out: &mut Vec<u8>)
    requires
        1 <= number <= MAX_NUMBER,
    ensures
        final(out)@ == old(out)@ + varint_bytes(key_of(number, wire) as u64),
{
    let code: u64 = match wire {
        Wire::Varint => 0,
        Wire::Fixed64 => 1,
        Wire::Len => 2,
        Wire::Fixed32 => 5,
    };
    put_varint(number as u64 * 8 + code, out);
}

/// Appends an integer field.
pub fn put_scalar(number: u32, value: u64, out: &mut Vec<u8>)
    requires
        1 <= number <= MAX_NUMBER,
    ensures
        final(out)@ == old(out)@ + item_bytes(
            Item { number, wire: Wire::Varint, scalar: value, bytes: Seq::empty() },
        ),
{
    put_key(number, Wire::Varint, out);
    put_varint(value, out);
    assert(final(out)@ =~= old(out)@ + item_bytes(
        Item { number, wire: Wire::Varint, scalar: value, bytes: Seq::empty() },
    ));
}

/// Appends a field whose payload is `bytes` behind their length.
pub fn put_bytes(number: u32, bytes: &[u8], out: &mut Vec<u8>)
    requires
        1 <= number <= MAX_NUMBER,
    ensures
        final(out)@ == old(out)@ + item_bytes(
            Item { number, wire: Wire::Len, scalar: 0, bytes: bytes@ },
        ),
        bytes@.len() <= u64::MAX,
{
    put_key(number, Wire::Len, out);
    put_varint(bytes.len() as u64, out);
    let ghost before = out@;
    out.extend_from_slice(bytes);
    assert(out@ =~= before + bytes@);
    assert(out@ =~= old(out)@ + item_bytes(
        Item { number, wire: Wire::Len, scalar: 0, bytes: bytes@ },
    ));
}

} // verus!
