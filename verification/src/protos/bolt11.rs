//! Invoices: making one to be paid, and paying one.

use crate::codec::field::{Field, Item, items_bytes, items_ok, lemma_items_ok_concat};
use crate::codec::message::{
    absorbed, encoded, lemma_absorbed_concat, lemma_absorbed_none, lemma_absorbed_one,
    lemma_items_bytes_extend, Lossless, Message,
};
use crate::codec::value::{
    bytes_item, field_text, field_uint32, field_uint64, item_nested, item_text, item_uint32,
    item_uint64, lemma_nested_round_trip, lemma_text_round_trip, nested_fits, nested_items,
    put_nested, put_some_uint64, put_text, put_uint32, scalar_item, some_uint64_items, take_nested,
    text_fits, text_items, uint32_items,
};
use crate::protos::payment_id::{PaymentId, PaymentIdView};
use vstd::prelude::*;
use vstd::utf8::encode_utf8;

verus! {

/// Asks for an invoice.
#[derive(Clone, Debug, PartialEq, Eq)]
pub struct Bolt11ReceiveRequest {
    /// What the invoice says it is for.
    pub description: String,
    /// How long the invoice stays payable, in seconds.
    pub expiry_secs: u32,
    /// The amount in millisatoshis; absent for an invoice that takes any
    /// amount.
    pub amount_msat: Option<u64>,
}

/// What a `Bolt11ReceiveRequest` holds, as specifications see it.
pub struct Bolt11ReceiveRequestView {
    pub description: Seq<char>,
    pub expiry_secs: u32,
    pub amount_msat: Option<u64>,
}

impl DeepView for Bolt11ReceiveRequest {
    type V = Bolt11ReceiveRequestView;

    open spec fn deep_view(&self) -> Bolt11ReceiveRequestView {
        Bolt11ReceiveRequestView {
            description: self.description.deep_view(),
            expiry_secs: self.expiry_secs.deep_view(),
            amount_msat: self.amount_msat.deep_view(),
        }
    }
}

impl View for Bolt11ReceiveRequest {
    type V = Bolt11ReceiveRequestView;

    open spec fn view(&self) -> Bolt11ReceiveRequestView {
        self.deep_view()
    }
}

impl Message for Bolt11ReceiveRequest {
    open spec fn blank() -> Bolt11ReceiveRequestView {
        Bolt11ReceiveRequestView {
            description: Seq::empty(),
            expiry_secs: 0,
            amount_msat: None,
        }
    }

    open spec fn absorb(acc: Bolt11ReceiveRequestView, item: Item) -> Option<
        Bolt11ReceiveRequestView,
    > {
        if item.number == 1 {
            match item_text(item) {
                Some(x) => Some(Bolt11ReceiveRequestView { description: x, ..acc }),
                None => None,
            }
        } else if item.number == 2 {
            match item_uint32(item) {
                Some(x) => Some(Bolt11ReceiveRequestView { expiry_secs: x, ..acc }),
                None => None,
            }
        } else if item.number == 3 {
            match item_uint64(item) {
                Some(x) => Some(Bolt11ReceiveRequestView { amount_msat: Some(x), ..acc }),
                None => None,
            }
        } else {
            Some(acc)
        }
    }

    open spec fn items(v: Bolt11ReceiveRequestView) -> Seq<Item> {
        text_items(1, v.description)
            + uint32_items(2, v.expiry_secs)
            + some_uint64_items(3, v.amount_msat)
    }

    open spec fn fits(v: Bolt11ReceiveRequestView) -> bool {
        &&& text_fits(v.description)
    }

    fn fresh() -> (m: Self) {
        let m = Bolt11ReceiveRequest {
            description: String::new(),
            expiry_secs: 0,
            amount_msat: None,
        };
        m
    }

    fn take(&mut self, field: &Field<'_>) -> (ok: bool) {
        if field.number == 1 {
            match field_text(field) {
                Some(x) => {
                    self.description = x;
                    true
                },
                None => false,
            }
        } else if field.number == 2 {
            match field_uint32(field) {
                Some(x) => {
                    self.expiry_secs = x;
                    true
                },
                None => false,
            }
        } else if field.number == 3 {
            match field_uint64(field) {
                Some(x) => {
                    self.amount_msat = Some(x);
                    true
                },
                None => false,
            }
        } else {
            true
        }
    }

    fn emit(&self, out: &mut Vec<u8>) {
        let ghost v = self.deep_view();
        put_text(1, &self.description, out);
        let ghost run = text_items(1, v.description);
        let ghost mid = out@;
        put_uint32(2, self.expiry_secs, out);
        proof {
            lemma_items_bytes_extend(old(out)@, mid, out@, run, uint32_items(2, v.expiry_secs));
        }
        let ghost run = run + uint32_items(2, v.expiry_secs);
        let ghost mid = out@;
        put_some_uint64(3, self.amount_msat, out);
        proof {
            lemma_items_bytes_extend(
                old(out)@,
                mid,
                out@,
                run,
                some_uint64_items(3, v.amount_msat),
            );
        }
        let ghost run = run + some_uint64_items(3, v.amount_msat);
    }
}

impl Lossless for Bolt11ReceiveRequest {
    proof fn lemma_round_trip(v: Bolt11ReceiveRequestView) {
        let s0 = Self::blank();
        let i1 = text_items(1, v.description);
        let s1 = Bolt11ReceiveRequestView { description: v.description, ..s0 };
        assert(items_ok(i1) && absorbed::<Self>(s0, i1) == Some(s1)) by {
            reveal(items_ok);
            if v.description.len() == 0 {
                assert(v.description =~= Seq::<char>::empty());
                lemma_absorbed_none::<Self>(s0);
            } else {
                lemma_text_round_trip(1, v.description);
                lemma_absorbed_one::<Self>(s0, bytes_item(1, encode_utf8(v.description)));
            }
        }
        let r1 = i1;
        let i2 = uint32_items(2, v.expiry_secs);
        let s2 = Bolt11ReceiveRequestView { expiry_secs: v.expiry_secs, ..s1 };
        assert(items_ok(i2) && absorbed::<Self>(s1, i2) == Some(s2)) by {
            reveal(items_ok);
            if v.expiry_secs == 0 {
                lemma_absorbed_none::<Self>(s1);
            } else {
                lemma_absorbed_one::<Self>(s1, scalar_item(2, v.expiry_secs as u64));
            }
        }
        lemma_absorbed_concat::<Self>(s0, r1, i2);
        lemma_items_ok_concat(r1, i2);
        let r2 = r1 + i2;
        let i3 = some_uint64_items(3, v.amount_msat);
        let s3 = Bolt11ReceiveRequestView { amount_msat: v.amount_msat, ..s2 };
        assert(items_ok(i3) && absorbed::<Self>(s2, i3) == Some(s3)) by {
            reveal(items_ok);
            match v.amount_msat {
                Some(x) => {
                    lemma_absorbed_one::<Self>(s2, scalar_item(3, x as u64));
                },
                None => {
                    lemma_absorbed_none::<Self>(s2);
                },
            }
        }
        lemma_absorbed_concat::<Self>(s0, r2, i3);
        lemma_items_ok_concat(r2, i3);
        let r3 = r2 + i3;
        assert(s3 == v);
    }
}

/// An invoice.
#[derive(Clone, Debug, PartialEq, Eq)]
pub struct Bolt11ReceiveResponse {
    pub invoice: String,
}

/// What a `Bolt11ReceiveResponse` holds, as specifications see it.
pub struct Bolt11ReceiveResponseView {
    pub invoice: Seq<char>,
}

impl DeepView for Bolt11ReceiveResponse {
    type V = Bolt11ReceiveResponseView;

    open spec fn deep_view(&self) -> Bolt11ReceiveResponseView {
        Bolt11ReceiveResponseView {
            invoice: self.invoice.deep_view(),
        }
    }
}

impl View for Bolt11ReceiveResponse {
    type V = Bolt11ReceiveResponseView;

    open spec fn view(&self) -> Bolt11ReceiveResponseView {
        self.deep_view()
    }
}

impl Message for Bolt11ReceiveResponse {
    open spec fn blank() -> Bolt11ReceiveResponseView {
        Bolt11ReceiveResponseView {
            invoice: Seq::empty(),
        }
    }

    open spec fn absorb(acc: Bolt11ReceiveResponseView, item: Item) -> Option<
        Bolt11ReceiveResponseView,
    > {
        if item.number == 1 {
            match item_text(item) {
                Some(x) => Some(Bolt11ReceiveResponseView { invoice: x, ..acc }),
                None => None,
            }
        } else {
            Some(acc)
        }
    }

    open spec fn items(v: Bolt11ReceiveResponseView) -> Seq<Item> {
        text_items(1, v.invoice)
    }

    open spec fn fits(v: Bolt11ReceiveResponseView) -> bool {
        &&& text_fits(v.invoice)
    }

    fn fresh() -> (m: Self) {
        let m = Bolt11ReceiveResponse {
            invoice: String::new(),
        };
        m
    }

    fn take(&mut self, field: &Field<'_>) -> (ok: bool) {
        if field.number == 1 {
            match field_text(field) {
                Some(x) => {
                    self.invoice = x;
                    true
                },
                None => false,
            }
        } else {
            true
        }
    }

    fn emit(&self, out: &mut Vec<u8>) {
        let ghost v = self.deep_view();
        put_text(1, &self.invoice, out);
        let ghost run = text_items(1, v.invoice);
    }
}

impl Lossless for Bolt11ReceiveResponse {
    proof fn lemma_round_trip(v: Bolt11ReceiveResponseView) {
        let s0 = Self::blank();
        let i1 = text_items(1, v.invoice);
        let s1 = Bolt11ReceiveResponseView { invoice: v.invoice, ..s0 };
        assert(items_ok(i1) && absorbed::<Self>(s0, i1) == Some(s1)) by {
            reveal(items_ok);
            if v.invoice.len() == 0 {
                assert(v.invoice =~= Seq::<char>::empty());
                lemma_absorbed_none::<Self>(s0);
            } else {
                lemma_text_round_trip(1, v.invoice);
                lemma_absorbed_one::<Self>(s0, bytes_item(1, encode_utf8(v.invoice)));
            }
        }
        let r1 = i1;
        assert(s1 == v);
    }
}

/// Asks to pay an invoice.
#[derive(Clone, Debug, PartialEq, Eq)]
pub struct Bolt11SendRequest {
    /// The invoice to pay.
    pub invoice: String,
    /// The amount in millisatoshis; absent to pay the amount the invoice names.
    pub amount_msat: Option<u64>,
}

/// What a `Bolt11SendRequest` holds, as specifications see it.
pub struct Bolt11SendRequestView {
    pub invoice: Seq<char>,
    pub amount_msat: Option<u64>,
}

impl DeepView for Bolt11SendRequest {
    type V = Bolt11SendRequestView;

    open spec fn deep_view(&self) -> Bolt11SendRequestView {
        Bolt11SendRequestView {
            invoice: self.invoice.deep_view(),
            amount_msat: self.amount_msat.deep_view(),
        }
    }
}

impl View for Bolt11SendRequest {
    type V = Bolt11SendRequestView;

    open spec fn view(&self) -> Bolt11SendRequestView {
        self.deep_view()
    }
}

impl Message for Bolt11SendRequest {
    open spec fn blank() -> Bolt11SendRequestView {
        Bolt11SendRequestView {
            invoice: Seq::empty(),
            amount_msat: None,
        }
    }

    open spec fn absorb(acc: Bolt11SendRequestView, item: Item) -> Option<Bolt11SendRequestView> {
        if item.number == 1 {
            match item_text(item) {
                Some(x) => Some(Bolt11SendRequestView { invoice: x, ..acc }),
                None => None,
            }
        } else if item.number == 2 {
            match item_uint64(item) {
                Some(x) => Some(Bolt11SendRequestView { amount_msat: Some(x), ..acc }),
                None => None,
            }
        } else {
            Some(acc)
        }
    }

    open spec fn items(v: Bolt11SendRequestView) -> Seq<Item> {
        text_items(1, v.invoice) + some_uint64_items(2, v.amount_msat)
    }

    open spec fn fits(v: Bolt11SendRequestView) -> bool {
        &&& text_fits(v.invoice)
    }

    fn fresh() -> (m: Self) {
        let m = Bolt11SendRequest {
            invoice: String::new(),
            amount_msat: None,
        };
        m
    }

    fn take(&mut self, field: &Field<'_>) -> (ok: bool) {
        if field.number == 1 {
            match field_text(field) {
                Some(x) => {
                    self.invoice = x;
                    true
                },
                None => false,
            }
        } else if field.number == 2 {
            match field_uint64(field) {
                Some(x) => {
                    self.amount_msat = Some(x);
                    true
                },
                None => false,
            }
        } else {
            true
        }
    }

    fn emit(&self, out: &mut Vec<u8>) {
        let ghost v = self.deep_view();
        put_text(1, &self.invoice, out);
        let ghost run = text_items(1, v.invoice);
        let ghost mid = out@;
        put_some_uint64(2, self.amount_msat, out);
        proof {
            lemma_items_bytes_extend(
                old(out)@,
                mid,
                out@,
                run,
                some_uint64_items(2, v.amount_msat),
            );
        }
        let ghost run = run + some_uint64_items(2, v.amount_msat);
    }
}

impl Lossless for Bolt11SendRequest {
    proof fn lemma_round_trip(v: Bolt11SendRequestView) {
        let s0 = Self::blank();
        let i1 = text_items(1, v.invoice);
        let s1 = Bolt11SendRequestView { invoice: v.invoice, ..s0 };
        assert(items_ok(i1) && absorbed::<Self>(s0, i1) == Some(s1)) by {
            reveal(items_ok);
            if v.invoice.len() == 0 {
                assert(v.invoice =~= Seq::<char>::empty());
                lemma_absorbed_none::<Self>(s0);
            } else {
                lemma_text_round_trip(1, v.invoice);
                lemma_absorbed_one::<Self>(s0, bytes_item(1, encode_utf8(v.invoice)));
            }
        }
        let r1 = i1;
        let i2 = some_uint64_items(2, v.amount_msat);
        let s2 = Bolt11SendRequestView { amount_msat: v.amount_msat, ..s1 };
        assert(items_ok(i2) && absorbed::<Self>(s1, i2) == Some(s2)) by {
            reveal(items_ok);
            match v.amount_msat {
                Some(x) => {
                    lemma_absorbed_one::<Self>(s1, scalar_item(2, x as u64));
                },
                None => {
                    lemma_absorbed_none::<Self>(s1);
                },
            }
        }
        lemma_absorbed_concat::<Self>(s0, r1, i2);
        lemma_items_ok_concat(r1, i2);
        let r2 = r1 + i2;
        assert(s2 == v);
    }
}

/// The payment that was started.
#[derive(Clone, Debug, PartialEq, Eq)]
pub struct Bolt11SendResponse {
    pub payment_id: Option<PaymentId>,
}

/// What a `Bolt11SendResponse` holds, as specifications see it.
pub struct Bolt11SendResponseView {
    pub payment_id: Option<PaymentIdView>,
}

impl DeepView for Bolt11SendResponse {
    type V = Bolt11SendResponseView;

    open spec fn deep_view(&self) -> Bolt11SendResponseView {
        Bolt11SendResponseView {
            payment_id: self.payment_id.deep_view(),
        }
    }
}

impl View for Bolt11SendResponse {
    type V = Bolt11SendResponseView;

    open spec fn view(&self) -> Bolt11SendResponseView {
        self.deep_view()
    }
}

impl Message for Bolt11SendResponse {
    open spec fn blank() -> Bolt11SendResponseView {
        Bolt11SendResponseView {
            payment_id: None,
        }
    }

    open spec fn absorb(acc: Bolt11SendResponseView, item: Item) -> Option<Bolt11SendResponseView> {
        if item.number == 1 {
            match item_nested::<PaymentId>(acc.payment_id, item) {
                Some(x) => Some(Bolt11SendResponseView { payment_id: Some(x), ..acc }),
                None => None,
            }
        } else {
            Some(acc)
        }
    }

    open spec fn items(v: Bolt11SendResponseView) -> Seq<Item> {
        nested_items::<PaymentId>(1, v.payment_id)
    }

    open spec fn fits(v: Bolt11SendResponseView) -> bool {
        &&& nested_fits::<PaymentId>(v.payment_id)
    }

    fn fresh() -> (m: Self) {
        let m = Bolt11SendResponse {
            payment_id: None,
        };
        m
    }

    fn take(&mut self, field: &Field<'_>) -> (ok: bool) {
        if field.number == 1 {
            take_nested(&mut self.payment_id, field)
        } else {
            true
        }
    }

    fn emit(&self, out: &mut Vec<u8>) {
        let ghost v = self.deep_view();
        put_nested(1, &self.payment_id, out);
        let ghost run = nested_items::<PaymentId>(1, v.payment_id);
    }
}

impl Lossless for Bolt11SendResponse {
    proof fn lemma_round_trip(v: Bolt11SendResponseView) {
        let s0 = Self::blank();
        let i1 = nested_items::<PaymentId>(1, v.payment_id);
        let s1 = Bolt11SendResponseView { payment_id: v.payment_id, ..s0 };
        assert(items_ok(i1) && absorbed::<Self>(s0, i1) == Some(s1)) by {
            reveal(items_ok);
            match v.payment_id {
                Some(x) => {
                    lemma_nested_round_trip::<PaymentId>(1, x);
                    lemma_absorbed_one::<Self>(s0, bytes_item(1, encoded::<PaymentId>(x)));
                },
                None => {
                    lemma_absorbed_none::<Self>(s0);
                },
            }
        }
        let r1 = i1;
        assert(s1 == v);
    }
}

} // verus!
