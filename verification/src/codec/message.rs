//! Messages: a message is written as a run of fields and read by taking in
//! one field after another, starting from the blank message.

use crate::codec::field::{
    item_bytes, item_ok, items_bytes, items_ok, lemma_read_item_bounds, lemma_read_item_written,
    read_field, read_item, Field, Item,
};
use vstd::prelude::*;

verus! {

/// A type of the wire schema.
pub trait Message: Sized + DeepView {
    /// The message with every field at its default.
    spec fn blank() -> Self::V;

    /// The message after it took in one field, or none where the field has
    /// the number of a known field and a payload that is no value for it.
    spec fn absorb(acc: Self::V, item: Item) -> Option<Self::V>;

    /// The fields that stand for the message, in the order they are written.
    spec fn items(v: Self::V) -> Seq<Item>;

    /// Every payload of the message, nested ones included, has a length
    /// that the wire can state.
    spec fn fits(v: Self::V) -> bool;

    /// The blank message.
    fn fresh() -> (m: Self)
        ensures
            m.deep_view() == Self::blank(),
    ;

    /// Takes in one field; says whether the field was accepted. A message
    /// that refused a field is of no further use.
    fn take(&mut self, field: &Field<'_>) -> (ok: bool)
        ensures
            match Self::absorb(old(self).deep_view(), field@) {
                Some(v) => ok && final(self).deep_view() == v,
                None => !ok,
            },
    ;

    /// Appends the fields of the message.
    fn emit(&self, out: &mut Vec<u8>)
        ensures
            final(out)@ == old(out)@ + items_bytes(Self::items(self.deep_view())),
            Self::fits(self.deep_view()),
    ;
}

/// A message type whose fields carry all of a message.
pub trait Lossless: Message {
    /// The fields of a message that fits can each be read back, and the
    /// blank message that takes them in becomes the message.
    proof fn lemma_round_trip(v: Self::V)
        requires
            Self::fits(v),
        ensures
            items_ok(Self::items(v)),
            absorbed::<Self>(Self::blank(), Self::items(v)) == Some(v),
    ;
}

/// The message `acc` after it took in every field of `bytes` in turn, or
/// none where the bytes are no run of fields or a field was refused.
pub open spec fn merged<M: Message>(acc: M::V, bytes: Seq<u8>) -> Option<M::V>
    decreases bytes.len(),
{
    if bytes.len() == 0 {
        Some(acc)
    } else {
        match read_item(bytes) {
            Some((item, n)) => if 1 <= n <= bytes.len() {
                match M::absorb(acc, item) {
                    Some(next) => merged::<M>(next, bytes.skip(n as int)),
                    None => None,
                }
            } else {
                None
            },
            None => None,
        }
    }
}

/// The message that `bytes` stand for.
pub open spec fn decoded<M: Message>(bytes: Seq<u8>) -> Option<M::V> {
    merged::<M>(M::blank(), bytes)
}

/// The bytes that stand for a message.
pub open spec fn encoded<M: Message>(v: M::V) -> Seq<u8> {
    items_bytes(M::items(v))
}

/// The message `acc` after it took in `items` in turn.
#[verifier::opaque]
pub open spec fn absorbed<M: Message>(acc: M::V, items: Seq<Item>) -> Option<M::V>
    decreases items.len(),
{
    if items.len() == 0 {
        Some(acc)
    } else {
        match M::absorb(acc, items[0]) {
            Some(next) => absorbed::<M>(next, items.drop_first()),
            None => None,
        }
    }
}

/// Takes in the fields of `data`, one after the other.
pub fn merge<M: Message>(m: &mut M, data: &[u8]) -> (ok: bool)
    ensures
        match merged::<M>(old(m).deep_view(), data@) {
            Some(v) => ok && final(m).deep_view() == v,
            None => !ok,
        },
{
    let ghost goal = merged::<M>(m.deep_view(), data@);
    let mut pos: usize = 0;
    assert(data@.skip(0) =~= data@);
    while pos < data.len()
        invariant
            pos <= data@.len(),
            goal == merged::<M>(old(m).deep_view(), data@),
            goal == merged::<M>(m.deep_view(), data@.skip(pos as int)),
        decreases data@.len() - pos,
    {
        let ghost rest = data@.skip(pos as int);
        proof {
            lemma_read_item_bounds(rest);
        }
        match read_field(data, pos) {
            None => {
                return false;
            },
            Some((field, next)) => {
                if !m.take(&field) {
                    return false;
                }
                assert(rest.skip(next - pos) =~= data@.skip(next as int));
                pos = next;
            },
        }
    }
    true
}

/// Reads a whole message.
pub fn decode<M: Message>(data: &[u8]) -> (r: Option<M>)
    ensures
        match decoded::<M>(data@) {
            Some(v) => r matches Some(m) && m.deep_view() == v,
            None => r is None,
        },
{
    let mut m = M::fresh();
    if merge(&mut m, data) {
        Some(m)
    } else {
        None
    }
}

/// Writes a whole message.
pub fn encode<M: Message>(m: &M) -> (out: Vec<u8>)
    ensures
        out@ == encoded::<M>(m.deep_view()),
        M::fits(m.deep_view()),
{
    let mut out: Vec<u8> = Vec::new();
    m.emit(&mut out);
    out
}

/// Writes a message and reads it back. What comes out is the message that
/// went in, whatever the message.
pub fn reread<M: Lossless>(message: &M) -> (back: M)
    ensures
        back.deep_view() == message.deep_view(),
{
    let bytes = encode(message);
    proof {
        lemma_decoded_encoded::<M>(message.deep_view());
    }
    match decode::<M>(bytes.as_slice()) {
        Some(back) => back,
        None => M::fresh(),
    }
}

/// The bytes of two runs of fields, joined, are the bytes of the joined run.
pub proof fn lemma_items_bytes_concat(a: Seq<Item>, b: Seq<Item>)
    ensures
        items_bytes(a + b) == items_bytes(a) + items_bytes(b),
    decreases a.len(),
{
    if a.len() == 0 {
        assert(a + b =~= b);
    } else {
        assert((a + b).drop_first() =~= a.drop_first() + b);
        lemma_items_bytes_concat(a.drop_first(), b);
    }
}

/// What was written so far, and then more, is what the joined run writes.
pub proof fn lemma_items_bytes_extend(
    start: Seq<u8>,
    before: Seq<u8>,
    after: Seq<u8>,
    run: Seq<Item>,
    more: Seq<Item>,
)
    requires
        before == start + items_bytes(run),
        after == before + items_bytes(more),
    ensures
        after == start + items_bytes(run + more),
{
    lemma_items_bytes_concat(run, more);
    assert(after =~= start + items_bytes(run + more));
}

/// Taking in two runs of fields, joined, is taking in the first and then
/// the second.
pub proof fn lemma_absorbed_concat<M: Message>(acc: M::V, a: Seq<Item>, b: Seq<Item>)
    ensures
        absorbed::<M>(acc, a + b) == match absorbed::<M>(acc, a) {
            Some(mid) => absorbed::<M>(mid, b),
            None => None,
        },
    decreases a.len(),
{
    reveal_with_fuel(absorbed, 2);
    if a.len() == 0 {
        assert(a + b =~= b);
    } else {
        assert((a + b).drop_first() =~= a.drop_first() + b);
        assert((a + b)[0] == a[0]);
        match M::absorb(acc, a[0]) {
            Some(next) => lemma_absorbed_concat::<M>(next, a.drop_first(), b),
            None => {},
        }
    }
}

/// Reading the bytes of a run of fields takes in those fields.
pub proof fn lemma_merged_written<M: Message>(acc: M::V, items: Seq<Item>)
    requires
        items_ok(items),
    ensures
        merged::<M>(acc, items_bytes(items)) == absorbed::<M>(acc, items),
    decreases items.len(),
{
    reveal(items_ok);
    reveal_with_fuel(absorbed, 2);
    if items.len() != 0 {
        let head = items[0];
        let tail = items.drop_first();
        let bytes = items_bytes(items);
        lemma_read_item_written(head, items_bytes(tail));
        lemma_read_item_bounds(bytes);
        assert(bytes.skip(item_bytes(head).len() as int) =~= items_bytes(tail));
        assert forall|i: int| 0 <= i < tail.len() implies item_ok(#[trigger] tail[i]) by {
            assert(tail[i] == items[i + 1]);
        }
        match M::absorb(acc, head) {
            Some(next) => lemma_merged_written::<M>(next, tail),
            None => {},
        }
    }
}

/// Taking in no field changes nothing.
pub proof fn lemma_absorbed_none<M: Message>(acc: M::V)
    ensures
        absorbed::<M>(acc, Seq::empty()) == Some(acc),
{
    reveal_with_fuel(absorbed, 2);
}

/// Taking in a run of one field is taking in that field.
pub proof fn lemma_absorbed_one<M: Message>(acc: M::V, item: Item)
    ensures
        absorbed::<M>(acc, seq![item]) == M::absorb(acc, item),
{
    reveal_with_fuel(absorbed, 2);
    let items = seq![item];
    assert(items.drop_first() =~= Seq::<Item>::empty());
    assert(items[0] == item);
    match M::absorb(acc, item) {
        Some(next) => {
            assert(absorbed::<M>(next, items.drop_first()) == Some(next));
        },
        None => {},
    }
}

/// Decoding what encoding wrote gives the message back, for every message
/// that fits the wire.
pub proof fn lemma_decoded_encoded<M: Lossless>(v: M::V)
    requires
        M::fits(v),
    ensures
        decoded::<M>(encoded::<M>(v)) == Some(v),
{
    M::lemma_round_trip(v);
    lemma_merged_written::<M>(M::blank(), M::items(v));
}

} // verus!
