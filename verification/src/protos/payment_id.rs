//! The identifier of a payment.

use crate::codec::field::{Field, Item, items_bytes, items_ok};
use crate::codec::message::{absorbed, lemma_absorbed_none, lemma_absorbed_one, Lossless, Message};
use crate::codec::value::{blob_fits, blob_items, bytes_item, field_blob, item_blob, put_blob};
use vstd::prelude::*;

verus! {

/// An identifier for a payment: 32 raw bytes.
#[derive(Clone, Debug, PartialEq, Eq)]
pub struct PaymentId {
    pub data: Vec<u8>,
}

/// What a `PaymentId` holds, as specifications see it.
pub struct PaymentIdView {
    pub data: Seq<u8>,
}

impl DeepView for PaymentId {
    type V = PaymentIdView;

    open spec fn deep_view(&self) -> PaymentIdView {
        PaymentIdView {
            data: self.data.deep_view(),
        }
    }
}

impl View for PaymentId {
    type V = PaymentIdView;

    open spec fn view(&self) -> PaymentIdView {
        self.deep_view()
    }
}

impl Message for PaymentId {
    open spec fn blank() -> PaymentIdView {
        PaymentIdView {
            data: Seq::empty(),
        }
    }

    open spec fn absorb(acc: PaymentIdView, item: Item) -> Option<PaymentIdView> {
        if item.number == 1 {
            match item_blob(item) {
                Some(x) => Some(PaymentIdView { data: x, ..acc }),
                None => None,
            }
        } else {
            Some(acc)
        }
    }

    open spec fn items(v: PaymentIdView) -> Seq<Item> {
        blob_items(1, v.data)
    }

    open spec fn fits(v: PaymentIdView) -> bool {
        &&& blob_fits(v.data)
    }

    fn fresh() -> (m: Self) {
        let m = PaymentId {
            data: Vec::new(),
        };
        assert(m.data.deep_view() =~= Seq::empty());
        m
    }

    fn take(&mut self, field: &Field<'_>) -> (ok: bool) {
        if field.number == 1 {
            match field_blob(field) {
                Some(x) => {
                    self.data = x;
                    true
                },
                None => false,
            }
        } else {
            true
        }
    }

    fn emit(&self, out: &mut Vec<u8>) {
        let ghost v = self.deep_view();
        put_blob(1, &self.data, out);
        let ghost run = blob_items(1, v.data);
    }
}

impl Lossless for PaymentId {
    proof fn lemma_round_trip(v: PaymentIdView) {
        let s0 = Self::blank();
        let i1 = blob_items(1, v.data);
        let s1 = PaymentIdView { data: v.data, ..s0 };
        assert(items_ok(i1) && absorbed::<Self>(s0, i1) == Some(s1)) by {
            reveal(items_ok);
            if v.data.len() == 0 {
                assert(v.data =~= Seq::<u8>::empty());
                lemma_absorbed_none::<Self>(s0);
            } else {
                lemma_absorbed_one::<Self>(s0, bytes_item(1, v.data));
            }
        }
        let r1 = i1;
        assert(s1 == v);
    }
}

} // verus!
