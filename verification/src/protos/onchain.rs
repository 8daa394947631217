//! The on-chain wallet: a fresh address, and a payment to an address.

use crate::codec::field::{Field, Item, items_bytes, items_ok, lemma_items_ok_concat};
use crate::codec::message::{
    absorbed, lemma_absorbed_concat, lemma_absorbed_none, lemma_absorbed_one,
    lemma_items_bytes_extend, Lossless, Message,
};
use crate::codec::value::{
    bytes_item, field_text, field_uint64, item_text, item_uint64, lemma_text_round_trip,
    put_some_uint64, put_text, scalar_item, some_uint64_items, text_fits, text_items,
};
use vstd::prelude::*;
use vstd::utf8::encode_utf8;

verus! {

/// Asks for a new on-chain address to fund the node.
#[derive(Clone, Debug, PartialEq, Eq)]
pub struct OnchainReceiveRequest {}

/// What a `OnchainReceiveRequest` holds, as specifications see it.
pub struct OnchainReceiveRequestView {}

impl DeepView for OnchainReceiveRequest {
    type V = OnchainReceiveRequestView;

    open spec fn deep_view(&self) -> OnchainReceiveRequestView {
        OnchainReceiveRequestView {  }
    }
}

impl View for OnchainReceiveRequest {
    type V = OnchainReceiveRequestView;

    open spec fn view(&self) -> OnchainReceiveRequestView {
        self.deep_view()
    }
}

impl Message for OnchainReceiveRequest {
    open spec fn blank() -> OnchainReceiveRequestView {
        OnchainReceiveRequestView {  }
    }

    open spec fn absorb(acc: OnchainReceiveRequestView, item: Item) -> Option<
        OnchainReceiveRequestView,
    > {
        Some(acc)
    }

    open spec fn items(v: OnchainReceiveRequestView) -> Seq<Item> {
        Seq::empty()
    }

    open spec fn fits(v: OnchainReceiveRequestView) -> bool {
        true
    }

    fn fresh() -> (m: Self) {
        OnchainReceiveRequest {  }
    }

    fn take(&mut self, field: &Field<'_>) -> (ok: bool) {
        true
    }

    fn emit(&self, out: &mut Vec<u8>) {
        assert(out@ =~= old(out)@ + items_bytes(Seq::empty()));
    }
}

impl Lossless for OnchainReceiveRequest {
    proof fn lemma_round_trip(v: OnchainReceiveRequestView) {
        reveal(items_ok);
        lemma_absorbed_none::<Self>(v);
    }
}

/// A new on-chain address.
#[derive(Clone, Debug, PartialEq, Eq)]
pub struct OnchainReceiveResponse {
    pub address: String,
}

/// What a `OnchainReceiveResponse` holds, as specifications see it.
pub struct OnchainReceiveResponseView {
    pub address: Seq<char>,
}

impl DeepView for OnchainReceiveResponse {
    type V = OnchainReceiveResponseView;

    open spec fn deep_view(&self) -> OnchainReceiveResponseView {
        OnchainReceiveResponseView {
            address: self.address.deep_view(),
        }
    }
}

impl View for OnchainReceiveResponse {
    type V = OnchainReceiveResponseView;

    open spec fn view(&self) -> OnchainReceiveResponseView {
        self.deep_view()
    }
}

impl Message for OnchainReceiveResponse {
    open spec fn blank() -> OnchainReceiveResponseView {
        OnchainReceiveResponseView {
            address: Seq::empty(),
        }
    }

    open spec fn absorb(acc: OnchainReceiveResponseView, item: Item) -> Option<
        OnchainReceiveResponseView,
    > {
        if item.number == 1 {
            match item_text(item) {
                Some(x) => Some(OnchainReceiveResponseView { address: x, ..acc }),
                None => None,
            }
        } else {
            Some(acc)
        }
    }

    open spec fn items(v: OnchainReceiveResponseView) -> Seq<Item> {
        text_items(1, v.address)
    }

    open spec fn fits(v: OnchainReceiveResponseView) -> bool {
        &&& text_fits(v.address)
    }

    fn fresh() -> (m: Self) {
        let m = OnchainReceiveResponse {
            address: String::new(),
        };
        m
    }

    fn take(&mut self, field: &Field<'_>) -> (ok: bool) {
        if field.number == 1 {
            match field_text(field) {
                Some(x) => {
                    self.address = x;
                    true
                },
                None => false,
            }
        } else {
            true
        }
    }

    fn emit(&self, out: &mut Vec<u8>) {
        let ghost v = self.deep_view();
        put_text(1, &self.address, out);
        let ghost run = text_items(1, v.address);
    }
}

impl Lossless for OnchainReceiveResponse {
    proof fn lemma_round_trip(v: OnchainReceiveResponseView) {
        let s0 = Self::blank();
        let i1 = text_items(1, v.address);
        let s1 = OnchainReceiveResponseView { address: v.address, ..s0 };
        assert(items_ok(i1) && absorbed::<Self>(s0, i1) == Some(s1)) by {
            reveal(items_ok);
            if v.address.len() == 0 {
                assert(v.address =~= Seq::<char>::empty());
                lemma_absorbed_none::<Self>(s0);
            } else {
                lemma_text_round_trip(1, v.address);
                lemma_absorbed_one::<Self>(s0, bytes_item(1, encode_utf8(v.address)));
            }
        }
        let r1 = i1;
        assert(s1 == v);
    }
}

/// Asks to pay an on-chain address.
#[derive(Clone, Debug, PartialEq, Eq)]
pub struct OnchainSendRequest {
    /// The address to pay.
    pub address: String,
    /// The amount in satoshis; absent to send the whole balance.
    pub amount_sats: Option<u64>,
}

/// What a `OnchainSendRequest` holds, as specifications see it.
pub struct OnchainSendRequestView {
    pub address: Seq<char>,
    pub amount_sats: Option<u64>,
}

impl DeepView for OnchainSendRequest {
    type V = OnchainSendRequestView;

    open spec fn deep_view(&self) -> OnchainSendRequestView {
        OnchainSendRequestView {
            address: self.address.deep_view(),
            amount_sats: self.amount_sats.deep_view(),
        }
    }
}

impl View for OnchainSendRequest {
    type V = OnchainSendRequestView;

    open spec fn view(&self) -> OnchainSendRequestView {
        self.deep_view()
    }
}

impl Message for OnchainSendRequest {
    open spec fn blank() -> OnchainSendRequestView {
        OnchainSendRequestView {
            address: Seq::empty(),
            amount_sats: None,
        }
    }

    open spec fn absorb(acc: OnchainSendRequestView, item: Item) -> Option<OnchainSendRequestView> {
        if item.number == 1 {
            match item_text(item) {
                Some(x) => Some(OnchainSendRequestView { address: x, ..acc }),
                None => None,
            }
        } else if item.number == 2 {
            match item_uint64(item) {
                Some(x) => Some(OnchainSendRequestView { amount_sats: Some(x), ..acc }),
                None => None,
            }
        } else {
            Some(acc)
        }
    }

    open spec fn items(v: OnchainSendRequestView) -> Seq<Item> {
        text_items(1, v.address) + some_uint64_items(2, v.amount_sats)
    }

    open spec fn fits(v: OnchainSendRequestView) -> bool {
        &&& text_fits(v.address)
    }

    fn fresh() -> (m: Self) {
        let m = OnchainSendRequest {
            address: String::new(),
            amount_sats: None,
        };
        m
    }

    fn take(&mut self, field: &Field<'_>) -> (ok: bool) {
        if field.number == 1 {
            match field_text(field) {
                Some(x) => {
                    self.address = x;
                    true
                },
                None => false,
            }
        } else if field.number == 2 {
            match field_uint64(field) {
                Some(x) => {
                    self.amount_sats = Some(x);
                    true
                },
                None => false,
            }
        } else {
            true
        }
    }

    fn emit(&self, out: &mut Vec<u8>) {
        let ghost v = self.deep_view();
        put_text(1, &self.address, out);
        let ghost run = text_items(1, v.address);
        let ghost mid = out@;
        put_some_uint64(2, self.amount_sats, out);
        proof {
            lemma_items_bytes_extend(
                old(out)@,
                mid,
                out@,
                run,
                some_uint64_items(2, v.amount_sats),
            );
        }
        let ghost run = run + some_uint64_items(2, v.amount_sats);
    }
}

impl Lossless for OnchainSendRequest {
    proof fn lemma_round_trip(v: OnchainSendRequestView) {
        let s0 = Self::blank();
        let i1 = text_items(1, v.address);
        let s1 = OnchainSendRequestView { address: v.address, ..s0 };
        assert(items_ok(i1) && absorbed::<Self>(s0, i1) == Some(s1)) by {
            reveal(items_ok);
            if v.address.len() == 0 {
                assert(v.address =~= Seq::<char>::empty());
                lemma_absorbed_none::<Self>(s0);
            } else {
                lemma_text_round_trip(1, v.address);
                lemma_absorbed_one::<Self>(s0, bytes_item(1, encode_utf8(v.address)));
            }
        }
        let r1 = i1;
        let i2 = some_uint64_items(2, v.amount_sats);
        let s2 = OnchainSendRequestView { amount_sats: v.amount_sats, ..s1 };
        assert(items_ok(i2) && absorbed::<Self>(s1, i2) == Some(s2)) by {
            reveal(items_ok);
            match v.amount_sats {
                Some(x) => {
                    lemma_absorbed_one::<Self>(s1, scalar_item(2, x as u64));
                },
                None => {
                    lemma_absorbed_none::<Self>(s1);
                },
            }
        }
        lemma_absorbed_concat::<Self>(s0, r1, i2);
        lemma_items_ok_concat(r1, i2);
        let r2 = r1 + i2;
        assert(s2 == v);
    }
}

/// The transaction that pays.
#[derive(Clone, Debug, PartialEq, Eq)]
pub struct OnchainSendResponse {
    /// The transaction's identifier, in the textual form of transaction ids.
    pub txid: String,
}

/// What a `OnchainSendResponse` holds, as specifications see it.
pub struct OnchainSendResponseView {
    pub txid: Seq<char>,
}

impl DeepView for OnchainSendResponse {
    type V = OnchainSendResponseView;

    open spec fn deep_view(&self) -> OnchainSendResponseView {
        OnchainSendResponseView {
            txid: self.txid.deep_view(),
        }
    }
}

impl View for OnchainSendResponse {
    type V = OnchainSendResponseView;

    open spec fn view(&self) -> OnchainSendResponseView {
        self.deep_view()
    }
}

impl Message for OnchainSendResponse {
    open spec fn blank() -> OnchainSendResponseView {
        OnchainSendResponseView {
            txid: Seq::empty(),
        }
    }

    open spec fn absorb(acc: OnchainSendResponseView, item: Item) -> Option<
        OnchainSendResponseView,
    > {
        if item.number == 1 {
            match item_text(item) {
                Some(x) => Some(OnchainSendResponseView { txid: x, ..acc }),
                None => None,
            }
        } else {
            Some(acc)
        }
    }

    open spec fn items(v: OnchainSendResponseView) -> Seq<Item> {
        text_items(1, v.txid)
    }

    open spec fn fits(v: OnchainSendResponseView) -> bool {
        &&& text_fits(v.txid)
    }

    fn fresh() -> (m: Self) {
        let m = OnchainSendResponse {
            txid: String::new(),
        };
        m
    }

    fn take(&mut self, field: &Field<'_>) -> (ok: bool) {
        if field.number == 1 {
            match field_text(field) {
                Some(x) => {
                    self.txid = x;
                    true
                },
                None => false,
            }
        } else {
            true
        }
    }

    fn emit(&self, out: &mut Vec<u8>) {
        let ghost v = self.deep_view();
        put_text(1, &self.txid, out);
        let ghost run = text_items(1, v.txid);
    }
}

impl Lossless for OnchainSendResponse {
    proof fn lemma_round_trip(v: OnchainSendResponseView) {
        let s0 = Self::blank();
        let i1 = text_items(1, v.txid);
        let s1 = OnchainSendResponseView { txid: v.txid, ..s0 };
        assert(items_ok(i1) && absorbed::<Self>(s0, i1) == Some(s1)) by {
            reveal(items_ok);
            if v.txid.len() == 0 {
                assert(v.txid =~= Seq::<char>::empty());
                lemma_absorbed_none::<Self>(s0);
            } else {
                lemma_text_round_trip(1, v.txid);
                lemma_absorbed_one::<Self>(s0, bytes_item(1, encode_utf8(v.txid)));
            }
        }
        let r1 = i1;
        assert(s1 == v);
    }
}

} // verus!
