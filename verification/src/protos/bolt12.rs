//! Offers: making one to be paid, and paying one.

use crate::codec::field::{Field, Item, items_bytes, items_ok, lemma_items_ok_concat};
use crate::codec::message::{
    absorbed, encoded, lemma_absorbed_concat, lemma_absorbed_none, lemma_absorbed_one,
    lemma_items_bytes_extend, Lossless, Message,
};
use crate::codec::value::{
    bytes_item, field_text, field_uint64, item_nested, item_text, item_uint64,
    lemma_nested_round_trip, lemma_text_round_trip, nested_fits, nested_items, put_nested,
    put_some_text, put_some_uint64, put_text, scalar_item, some_text_fits, some_text_items,
    some_uint64_items, take_nested, text_fits, text_items,
};
use crate::protos::payment_id::{PaymentId, PaymentIdView};
use vstd::prelude::*;
use vstd::utf8::encode_utf8;

verus! {

/// Asks for an offer.
#[derive(Clone, Debug, PartialEq, Eq)]
pub struct Bolt12ReceiveRequest {
    /// What the offer says it is for.
    pub description: String,
    /// The amount in millisatoshis; absent for an offer that takes any amount.
    pub amount_msat: Option<u64>,
}

/// What a `Bolt12ReceiveRequest` holds, as specifications see it.
pub struct Bolt12ReceiveRequestView {
    pub description: Seq<char>,
    pub amount_msat: Option<u64>,
}

impl DeepView for Bolt12ReceiveRequest {
    type V = Bolt12ReceiveRequestView;

    open spec fn deep_view(&self) -> Bolt12ReceiveRequestView {
        Bolt12ReceiveRequestView {
            description: self.description.deep_view(),
            amount_msat: self.amount_msat.deep_view(),
        }
    }
}

impl View for Bolt12ReceiveRequest {
    type V = Bolt12ReceiveRequestView;

    open spec fn view(&self) -> Bolt12ReceiveRequestView {
        self.deep_view()
    }
}

impl Message for Bolt12ReceiveRequest {
    open spec fn blank() -> Bolt12ReceiveRequestView {
        Bolt12ReceiveRequestView {
            description: Seq::empty(),
            amount_msat: None,
        }
    }

    open spec fn absorb(acc: Bolt12ReceiveRequestView, item: Item) -> Option<
        Bolt12ReceiveRequestView,
    > {
        if item.number == 1 {
            match item_text(item) {
                Some(x) => Some(Bolt12ReceiveRequestView { description: x, ..acc }),
                None => None,
            }
        } else if item.number == 2 {
            match item_uint64(item) {
                Some(x) => Some(Bolt12ReceiveRequestView { amount_msat: Some(x), ..acc }),
                None => None,
            }
        } else {
            Some(acc)
        }
    }

    open spec fn items(v: Bolt12ReceiveRequestView) -> Seq<Item> {
        text_items(1, v.description) + some_uint64_items(2, v.amount_msat)
    }

    open spec fn fits(v: Bolt12ReceiveRequestView) -> bool {
        &&& text_fits(v.description)
    }

    fn fresh() -> (m: Self) {
        let m = Bolt12ReceiveRequest {
            description: String::new(),
            amount_msat: None,
        };
        m
    }

    fn take(&mut self, field: &Field<'_>) -> (ok: bool) {
        if field.number == 1 {
            match field_text(field) {
                Some(x) => {
                    self.description = x;
                    true
                },
                None => false,
            }
        } else if field.number == 2 {
            match field_uint64(field) {
                Some(x) => {
                    self.amount_msat = Some(x);
                    true
                },
                None => false,
            }
        } else {
            true
        }
    }

    fn emit(&self, out: &mut Vec<u8>) {
        let ghost v = self.deep_view();
        put_text(1, &self.description, out);
        let ghost run = text_items(1, v.description);
        let ghost mid = out@;
        put_some_uint64(2, self.amount_msat, out);
        proof {
            lemma_items_bytes_extend(
                old(out)@,
                mid,
                out@,
                run,
                some_uint64_items(2, v.amount_msat),
            );
        }
        let ghost run = run + some_uint64_items(2, v.amount_msat);
    }
}

impl Lossless for Bolt12ReceiveRequest {
    proof fn lemma_round_trip(v: Bolt12ReceiveRequestView) {
        let s0 = Self::blank();
        let i1 = text_items(1, v.description);
        let s1 = Bolt12ReceiveRequestView { description: v.description, ..s0 };
        assert(items_ok(i1) && absorbed::<Self>(s0, i1) == Some(s1)) by {
            reveal(items_ok);
            if v.description.len() == 0 {
                assert(v.description =~= Seq::<char>::empty());
                lemma_absorbed_none::<Self>(s0);
            } else {
                lemma_text_round_trip(1, v.description);
                lemma_absorbed_one::<Self>(s0, bytes_item(1, encode_utf8(v.description)));
            }
        }
        let r1 = i1;
        let i2 = some_uint64_items(2, v.amount_msat);
        let s2 = Bolt12ReceiveRequestView { amount_msat: v.amount_msat, ..s1 };
        assert(items_ok(i2) && absorbed::<Self>(s1, i2) == Some(s2)) by {
            reveal(items_ok);
            match v.amount_msat {
                Some(x) => {
                    lemma_absorbed_one::<Self>(s1, scalar_item(2, x as u64));
                },
                None => {
                    lemma_absorbed_none::<Self>(s1);
                },
            }
        }
        lemma_absorbed_concat::<Self>(s0, r1, i2);
        lemma_items_ok_concat(r1, i2);
        let r2 = r1 + i2;
        assert(s2 == v);
    }
}

/// An offer.
#[derive(Clone, Debug, PartialEq, Eq)]
pub struct Bolt12ReceiveResponse {
    pub offer: String,
}

/// What a `Bolt12ReceiveResponse` holds, as specifications see it.
pub struct Bolt12ReceiveResponseView {
    pub offer: Seq<char>,
}

impl DeepView for Bolt12ReceiveResponse {
    type V = Bolt12ReceiveResponseView;

    open spec fn deep_view(&self) -> Bolt12ReceiveResponseView {
        Bolt12ReceiveResponseView {
            offer: self.offer.deep_view(),
        }
    }
}

impl View for Bolt12ReceiveResponse {
    type V = Bolt12ReceiveResponseView;

    open spec fn view(&self) -> Bolt12ReceiveResponseView {
        self.deep_view()
    }
}

impl Message for Bolt12ReceiveResponse {
    open spec fn blank() -> Bolt12ReceiveResponseView {
        Bolt12ReceiveResponseView {
            offer: Seq::empty(),
        }
    }

    open spec fn absorb(acc: Bolt12ReceiveResponseView, item: Item) -> Option<
        Bolt12ReceiveResponseView,
    > {
        if item.number == 1 {
            match item_text(item) {
                Some(x) => Some(Bolt12ReceiveResponseView { offer: x, ..acc }),
                None => None,
            }
        } else {
            Some(acc)
        }
    }

    open spec fn items(v: Bolt12ReceiveResponseView) -> Seq<Item> {
        text_items(1, v.offer)
    }

    open spec fn fits(v: Bolt12ReceiveResponseView) -> bool {
        &&& text_fits(v.offer)
    }

    fn fresh() -> (m: Self) {
        let m = Bolt12ReceiveResponse {
            offer: String::new(),
        };
        m
    }

    fn take(&mut self, field: &Field<'_>) -> (ok: bool) {
        if field.number == 1 {
            match field_text(field) {
                Some(x) => {
                    self.offer = x;
                    true
                },
                None => false,
            }
        } else {
            true
        }
    }

    fn emit(&self, out: &mut Vec<u8>) {
        let ghost v = self.deep_view();
        put_text(1, &self.offer, out);
        let ghost run = text_items(1, v.offer);
    }
}

impl Lossless for Bolt12ReceiveResponse {
    proof fn lemma_round_trip(v: Bolt12ReceiveResponseView) {
        let s0 = Self::blank();
        let i1 = text_items(1, v.offer);
        let s1 = Bolt12ReceiveResponseView { offer: v.offer, ..s0 };
        assert(items_ok(i1) && absorbed::<Self>(s0, i1) == Some(s1)) by {
            reveal(items_ok);
            if v.offer.len() == 0 {
                assert(v.offer =~= Seq::<char>::empty());
                lemma_absorbed_none::<Self>(s0);
            } else {
                lemma_text_round_trip(1, v.offer);
                lemma_absorbed_one::<Self>(s0, bytes_item(1, encode_utf8(v.offer)));
            }
        }
        let r1 = i1;
        assert(s1 == v);
    }
}

/// Asks to pay an offer.
#[derive(Clone, Debug, PartialEq, Eq)]
pub struct Bolt12SendRequest {
    /// The offer to pay.
    pub offer: String,
    /// The amount in millisatoshis; absent to pay the amount the offer names.
    pub amount_msat: Option<u64>,
    /// A note for the payee.
    pub payer_note: Option<String>,
}

/// What a `Bolt12SendRequest` holds, as specifications see it.
pub struct Bolt12SendRequestView {
    pub offer: Seq<char>,
    pub amount_msat: Option<u64>,
    pub payer_note: Option<Seq<char>>,
}

impl DeepView for Bolt12SendRequest {
    type V = Bolt12SendRequestView;

    open spec fn deep_view(&self) -> Bolt12SendRequestView {
        Bolt12SendRequestView {
            offer: self.offer.deep_view(),
            amount_msat: self.amount_msat.deep_view(),
            payer_note: self.payer_note.deep_view(),
        }
    }
}

impl View for Bolt12SendRequest {
    type V = Bolt12SendRequestView;

    open spec fn view(&self) -> Bolt12SendRequestView {
        self.deep_view()
    }
}

impl Message for Bolt12SendRequest {
    open spec fn blank() -> Bolt12SendRequestView {
        Bolt12SendRequestView {
            offer: Seq::empty(),
            amount_msat: None,
            payer_note: None,
        }
    }

    open spec fn absorb(acc: Bolt12SendRequestView, item: Item) -> Option<Bolt12SendRequestView> {
        if item.number == 1 {
            match item_text(item) {
                Some(x) => Some(Bolt12SendRequestView { offer: x, ..acc }),
                None => None,
            }
        } else if item.number == 2 {
            match item_uint64(item) {
                Some(x) => Some(Bolt12SendRequestView { amount_msat: Some(x), ..acc }),
                None => None,
            }
        } else if item.number == 3 {
            match item_text(item) {
                Some(x) => Some(Bolt12SendRequestView { payer_note: Some(x), ..acc }),
                None => None,
            }
        } else {
            Some(acc)
        }
    }

    open spec fn items(v: Bolt12SendRequestView) -> Seq<Item> {
        text_items(1, v.offer)
            + some_uint64_items(2, v.amount_msat)
            + some_text_items(3, v.payer_note)
    }

    open spec fn fits(v: Bolt12SendRequestView) -> bool {
        &&& text_fits(v.offer)
        &&& some_text_fits(v.payer_note)
    }

    fn fresh() -> (m: Self) {
        let m = Bolt12SendRequest {
            offer: String::new(),
            amount_msat: None,
            payer_note: None,
        };
        m
    }

    fn take(&mut self, field: &Field<'_>) -> (ok: bool) {
        if field.number == 1 {
            match field_text(field) {
                Some(x) => {
                    self.offer = x;
                    true
                },
                None => false,
            }
        } else if field.number == 2 {
            match field_uint64(field) {
                Some(x) => {
                    self.amount_msat = Some(x);
                    true
                },
                None => false,
            }
        } else if field.number == 3 {
            match field_text(field) {
                Some(x) => {
                    self.payer_note = Some(x);
                    true
                },
                None => false,
            }
        } else {
            true
        }
    }

    fn emit(&self, out: &mut Vec<u8>) {
        let ghost v = self.deep_view();
        put_text(1, &self.offer, out);
        let ghost run = text_items(1, v.offer);
        let ghost mid = out@;
        put_some_uint64(2, self.amount_msat, out);
        proof {
            lemma_items_bytes_extend(
                old(out)@,
                mid,
                out@,
                run,
                some_uint64_items(2, v.amount_msat),
            );
        }
        let ghost run = run + some_uint64_items(2, v.amount_msat);
        let ghost mid = out@;
        put_some_text(3, &self.payer_note, out);
        proof {
            lemma_items_bytes_extend(old(out)@, mid, out@, run, some_text_items(3, v.payer_note));
        }
        let ghost run = run + some_text_items(3, v.payer_note);
    }
}

impl Lossless for Bolt12SendRequest {
    proof fn lemma_round_trip(v: Bolt12SendRequestView) {
        let s0 = Self::blank();
        let i1 = text_items(1, v.offer);
        let s1 = Bolt12SendRequestView { offer: v.offer, ..s0 };
        assert(items_ok(i1) && absorbed::<Self>(s0, i1) == Some(s1)) by {
            reveal(items_ok);
            if v.offer.len() == 0 {
                assert(v.offer =~= Seq::<char>::empty());
                lemma_absorbed_none::<Self>(s0);
            } else {
                lemma_text_round_trip(1, v.offer);
                lemma_absorbed_one::<Self>(s0, bytes_item(1, encode_utf8(v.offer)));
            }
        }
        let r1 = i1;
        let i2 = some_uint64_items(2, v.amount_msat);
        let s2 = Bolt12SendRequestView { amount_msat: v.amount_msat, ..s1 };
        assert(items_ok(i2) && absorbed::<Self>(s1, i2) == Some(s2)) by {
            reveal(items_ok);
            match v.amount_msat {
                Some(x) => {
                    lemma_absorbed_one::<Self>(s1, scalar_item(2, x as u64));
                },
                None => {
                    lemma_absorbed_none::<Self>(s1);
                },
            }
        }
        lemma_absorbed_concat::<Self>(s0, r1, i2);
        lemma_items_ok_concat(r1, i2);
        let r2 = r1 + i2;
        let i3 = some_text_items(3, v.payer_note);
        let s3 = Bolt12SendRequestView { payer_note: v.payer_note, ..s2 };
        assert(items_ok(i3) && absorbed::<Self>(s2, i3) == Some(s3)) by {
            reveal(items_ok);
            match v.payer_note {
                Some(x) => {
                    lemma_text_round_trip(3, x);
                    lemma_absorbed_one::<Self>(s2, bytes_item(3, encode_utf8(x)));
                },
                None => {
                    lemma_absorbed_none::<Self>(s2);
                },
            }
        }
        lemma_absorbed_concat::<Self>(s0, r2, i3);
        lemma_items_ok_concat(r2, i3);
        let r3 = r2 + i3;
        assert(s3 == v);
    }
}

/// The payment that was started.
#[derive(Clone, Debug, PartialEq, Eq)]
pub struct Bolt12SendResponse {
    pub payment_id: Option<PaymentId>,
}

/// What a `Bolt12SendResponse` holds, as specifications see it.
pub struct Bolt12SendResponseView {
    pub payment_id: Option<PaymentIdView>,
}

impl DeepView for Bolt12SendResponse {
    type V = Bolt12SendResponseView;

    open spec fn deep_view(&self) -> Bolt12SendResponseView {
        Bolt12SendResponseView {
            payment_id: self.payment_id.deep_view(),
        }
    }
}

impl View for Bolt12SendResponse {
    type V = Bolt12SendResponseView;

    open spec fn view(&self) -> Bolt12SendResponseView {
        self.deep_view()
    }
}

impl Message for Bolt12SendResponse {
    open spec fn blank() -> Bolt12SendResponseView {
        Bolt12SendResponseView {
            payment_id: None,
        }
    }

    open spec fn absorb(acc: Bolt12SendResponseView, item: Item) -> Option<Bolt12SendResponseView> {
        if item.number == 1 {
            match item_nested::<PaymentId>(acc.payment_id, item) {
                Some(x) => Some(Bolt12SendResponseView { payment_id: Some(x), ..acc }),
                None => None,
            }
        } else {
            Some(acc)
        }
    }

    open spec fn items(v: Bolt12SendResponseView) -> Seq<Item> {
        nested_items::<PaymentId>(1, v.payment_id)
    }

    open spec fn fits(v: Bolt12SendResponseView) -> bool {
        &&& nested_fits::<PaymentId>(v.payment_id)
    }

    fn fresh() -> (m: Self) {
        let m = Bolt12SendResponse {
            payment_id: None,
        };
        m
    }

    fn take(&mut self, field: &Field<'_>) -> (ok: bool) {
        if field.number == 1 {
            take_nested(&mut self.payment_id, field)
        } else {
            true
        }
    }

    fn emit(&self, out: &mut Vec<u8>) {
        let ghost v = self.deep_view();
        put_nested(1, &self.payment_id, out);
        let ghost run = nested_items::<PaymentId>(1, v.payment_id);
    }
}

impl Lossless for Bolt12SendResponse {
    proof fn lemma_round_trip(v: Bolt12SendResponseView) {
        let s0 = Self::blank();
        let i1 = nested_items::<PaymentId>(1, v.payment_id);
        let s1 = Bolt12SendResponseView { payment_id: v.payment_id, ..s0 };
        assert(items_ok(i1) && absorbed::<Self>(s0, i1) == Some(s1)) by {
            reveal(items_ok);
            match v.payment_id {
                Some(x) => {
                    lemma_nested_round_trip::<PaymentId>(1, x);
                    lemma_absorbed_one::<Self>(s0, bytes_item(1, encoded::<PaymentId>(x)));
                },
                None => {
                    lemma_absorbed_none::<Self>(s0);
                },
            }
        }
        let r1 = i1;
        assert(s1 == v);
    }
}

} // verus!
