//! Payments: the record of one, its kind, and the history of all.

use crate::codec::field::{
    Field, Item, item_ok, items_bytes, items_ok, lemma_items_ok_concat, lemma_items_ok_push,
};
use crate::codec::message::{
    absorbed, encoded, lemma_absorbed_concat, lemma_absorbed_none, lemma_absorbed_one,
    lemma_items_bytes_extend, Lossless, Message,
};
use crate::codec::value::{
    blob_fits, blob_items, bytes_item, field_blob, field_int32, field_text, field_uint64,
    int32_items, int32_scalar, item_blob, item_int32, item_nested, item_text, item_uint64,
    lemma_int32_round_trip, lemma_items_bytes_one, lemma_joined_size, lemma_nested_round_trip,
    lemma_short_run_size, lemma_text_round_trip, message_fits, nested_fits, nested_items, put_blob,
    put_int32, put_message, put_nested, put_repeated, put_some_blob, put_some_text,
    put_some_uint64, put_text, put_uint64, repeated_fits, repeated_items, scalar_item,
    some_blob_fits, some_blob_items, some_text_fits, some_text_items, some_uint64_items,
    take_nested, take_repeated, text_fits, text_items, uint64_items,
};
use crate::protos::payment_kind;
use crate::protos::payment_id::{PaymentId, PaymentIdView};
use vstd::prelude::*;
use vstd::utf8::encode_utf8;

verus! {

/// Asks for every payment the node has recorded.
#[derive(Clone, Debug, PartialEq, Eq)]
pub struct PaymentsHistoryRequest {}

/// What a `PaymentsHistoryRequest` holds, as specifications see it.
pub struct PaymentsHistoryRequestView {}

impl DeepView for PaymentsHistoryRequest {
    type V = PaymentsHistoryRequestView;

    open spec fn deep_view(&self) -> PaymentsHistoryRequestView {
        PaymentsHistoryRequestView {  }
    }
}

impl View for PaymentsHistoryRequest {
    type V = PaymentsHistoryRequestView;

    open spec fn view(&self) -> PaymentsHistoryRequestView {
        self.deep_view()
    }
}

impl Message for PaymentsHistoryRequest {
    open spec fn blank() -> PaymentsHistoryRequestView {
        PaymentsHistoryRequestView {  }
    }

    open spec fn absorb(acc: PaymentsHistoryRequestView, item: Item) -> Option<
        PaymentsHistoryRequestView,
    > {
        Some(acc)
    }

    open spec fn items(v: PaymentsHistoryRequestView) -> Seq<Item> {
        Seq::empty()
    }

    open spec fn fits(v: PaymentsHistoryRequestView) -> bool {
        true
    }

    fn fresh() -> (m: Self) {
        PaymentsHistoryRequest {  }
    }

    fn take(&mut self, field: &Field<'_>) -> (ok: bool) {
        true
    }

    fn emit(&self, out: &mut Vec<u8>) {
        assert(out@ =~= old(out)@ + items_bytes(Seq::empty()));
    }
}

impl Lossless for PaymentsHistoryRequest {
    proof fn lemma_round_trip(v: PaymentsHistoryRequestView) {
        reveal(items_ok);
        lemma_absorbed_none::<Self>(v);
    }
}

/// Asks for one payment by its identifier.
#[derive(Clone, Debug, PartialEq, Eq)]
pub struct GetPaymentDetailsRequest {
    /// The payment's identifier: a text of exactly 32 bytes.
    pub payment_id: String,
}

/// What a `GetPaymentDetailsRequest` holds, as specifications see it.
pub struct GetPaymentDetailsRequestView {
    pub payment_id: Seq<char>,
}

impl DeepView for GetPaymentDetailsRequest {
    type V = GetPaymentDetailsRequestView;

    open spec fn deep_view(&self) -> GetPaymentDetailsRequestView {
        GetPaymentDetailsRequestView {
            payment_id: self.payment_id.deep_view(),
        }
    }
}

impl View for GetPaymentDetailsRequest {
    type V = GetPaymentDetailsRequestView;

    open spec fn view(&self) -> GetPaymentDetailsRequestView {
        self.deep_view()
    }
}

impl Message for GetPaymentDetailsRequest {
    open spec fn blank() -> GetPaymentDetailsRequestView {
        GetPaymentDetailsRequestView {
            payment_id: Seq::empty(),
        }
    }

    open spec fn absorb(acc: GetPaymentDetailsRequestView, item: Item) -> Option<
        GetPaymentDetailsRequestView,
    > {
        if item.number == 1 {
            match item_text(item) {
                Some(x) => Some(GetPaymentDetailsRequestView { payment_id: x, ..acc }),
                None => None,
            }
        } else {
            Some(acc)
        }
    }

    open spec fn items(v: GetPaymentDetailsRequestView) -> Seq<Item> {
        text_items(1, v.payment_id)
    }

    open spec fn fits(v: GetPaymentDetailsRequestView) -> bool {
        &&& text_fits(v.payment_id)
    }

    fn fresh() -> (m: Self) {
        let m = GetPaymentDetailsRequest {
            payment_id: String::new(),
        };
        m
    }

    fn take(&mut self, field: &Field<'_>) -> (ok: bool) {
        if field.number == 1 {
            match field_text(field) {
                Some(x) => {
                    self.payment_id = x;
                    true
                },
                None => false,
            }
        } else {
            true
        }
    }

    fn emit(&self, out: &mut Vec<u8>) {
        let ghost v = self.deep_view();
        put_text(1, &self.payment_id, out);
        let ghost run = text_items(1, v.payment_id);
    }
}

impl Lossless for GetPaymentDetailsRequest {
    proof fn lemma_round_trip(v: GetPaymentDetailsRequestView) {
        let s0 = Self::blank();
        let i1 = text_items(1, v.payment_id);
        let s1 = GetPaymentDetailsRequestView { payment_id: v.payment_id, ..s0 };
        assert(items_ok(i1) && absorbed::<Self>(s0, i1) == Some(s1)) by {
            reveal(items_ok);
            if v.payment_id.len() == 0 {
                assert(v.payment_id =~= Seq::<char>::empty());
                lemma_absorbed_none::<Self>(s0);
            } else {
                lemma_text_round_trip(1, v.payment_id);
                lemma_absorbed_one::<Self>(s0, bytes_item(1, encode_utf8(v.payment_id)));
            }
        }
        let r1 = i1;
        assert(s1 == v);
    }
}

/// An on-chain payment.
#[derive(Clone, Debug, PartialEq, Eq)]
pub struct Onchain {}

/// What a `Onchain` holds, as specifications see it.
pub struct OnchainView {}

impl DeepView for Onchain {
    type V = OnchainView;

    open spec fn deep_view(&self) -> OnchainView {
        OnchainView {  }
    }
}

impl View for Onchain {
    type V = OnchainView;

    open spec fn view(&self) -> OnchainView {
        self.deep_view()
    }
}

impl Message for Onchain {
    open spec fn blank() -> OnchainView {
        OnchainView {  }
    }

    open spec fn absorb(acc: OnchainView, item: Item) -> Option<OnchainView> {
        Some(acc)
    }

    open spec fn items(v: OnchainView) -> Seq<Item> {
        Seq::empty()
    }

    open spec fn fits(v: OnchainView) -> bool {
        true
    }

    fn fresh() -> (m: Self) {
        Onchain {  }
    }

    fn take(&mut self, field: &Field<'_>) -> (ok: bool) {
        true
    }

    fn emit(&self, out: &mut Vec<u8>) {
        assert(out@ =~= old(out)@ + items_bytes(Seq::empty()));
    }
}

/// The bytes of a `Onchain` are no more than its texts, bytes and nested
/// messages together, and twenty bytes for each field.
pub proof fn lemma_onchain_size(v: OnchainView)
    ensures
        encoded::<Onchain>(v).len() <= 0,
{
}

impl Lossless for Onchain {
    proof fn lemma_round_trip(v: OnchainView) {
        reveal(items_ok);
        lemma_absorbed_none::<Self>(v);
    }
}

/// A payment of an invoice.
#[derive(Clone, Debug, PartialEq, Eq)]
pub struct Bolt11 {
    /// The payment's hash, in hexadecimal.
    pub hash: String,
    /// The payment's preimage, in hexadecimal, where known.
    pub preimage: Option<String>,
    /// The payment's secret, where known.
    pub secret: Option<Vec<u8>>,
}

/// What a `Bolt11` holds, as specifications see it.
pub struct Bolt11View {
    pub hash: Seq<char>,
    pub preimage: Option<Seq<char>>,
    pub secret: Option<Seq<u8>>,
}

impl DeepView for Bolt11 {
    type V = Bolt11View;

    open spec fn deep_view(&self) -> Bolt11View {
        Bolt11View {
            hash: self.hash.deep_view(),
            preimage: self.preimage.deep_view(),
            secret: self.secret.deep_view(),
        }
    }
}

impl View for Bolt11 {
    type V = Bolt11View;

    open spec fn view(&self) -> Bolt11View {
        self.deep_view()
    }
}

impl Message for Bolt11 {
    open spec fn blank() -> Bolt11View {
        Bolt11View {
            hash: Seq::empty(),
            preimage: None,
            secret: None,
        }
    }

    open spec fn absorb(acc: Bolt11View, item: Item) -> Option<Bolt11View> {
        if item.number == 1 {
            match item_text(item) {
                Some(x) => Some(Bolt11View { hash: x, ..acc }),
                None => None,
            }
        } else if item.number == 2 {
            match item_text(item) {
                Some(x) => Some(Bolt11View { preimage: Some(x), ..acc }),
                None => None,
            }
        } else if item.number == 3 {
            match item_blob(item) {
                Some(x) => Some(Bolt11View { secret: Some(x), ..acc }),
                None => None,
            }
        } else {
            Some(acc)
        }
    }

    open spec fn items(v: Bolt11View) -> Seq<Item> {
        text_items(1, v.hash) + some_text_items(2, v.preimage) + some_blob_items(3, v.secret)
    }

    open spec fn fits(v: Bolt11View) -> bool {
        &&& text_fits(v.hash)
        &&& some_text_fits(v.preimage)
        &&& some_blob_fits(v.secret)
    }

    fn fresh() -> (m: Self) {
        let m = Bolt11 {
            hash: String::new(),
            preimage: None,
            secret: None,
        };
        m
    }

    fn take(&mut self, field: &Field<'_>) -> (ok: bool) {
        if field.number == 1 {
            match field_text(field) {
                Some(x) => {
                    self.hash = x;
                    true
                },
                None => false,
            }
        } else if field.number == 2 {
            match field_text(field) {
                Some(x) => {
                    self.preimage = Some(x);
                    true
                },
                None => false,
            }
        } else if field.number == 3 {
            match field_blob(field) {
                Some(x) => {
                    self.secret = Some(x);
                    true
                },
                None => false,
            }
        } else {
            true
        }
    }

    fn emit(&self, out: &mut Vec<u8>) {
        let ghost v = self.deep_view();
        put_text(1, &self.hash, out);
        let ghost run = text_items(1, v.hash);
        let ghost mid = out@;
        put_some_text(2, &self.preimage, out);
        proof {
            lemma_items_bytes_extend(old(out)@, mid, out@, run, some_text_items(2, v.preimage));
        }
        let ghost run = run + some_text_items(2, v.preimage);
        let ghost mid = out@;
        put_some_blob(3, &self.secret, out);
        proof {
            lemma_items_bytes_extend(old(out)@, mid, out@, run, some_blob_items(3, v.secret));
        }
        let ghost run = run + some_blob_items(3, v.secret);
    }
}

/// The bytes of a `Bolt11` are no more than its texts, bytes and nested
/// messages together, and twenty bytes for each field.
pub proof fn lemma_bolt11_size(v: Bolt11View)
    ensures
        encoded::<Bolt11>(v).len() <= 60
            + encode_utf8(v.hash).len()
            + (match v.preimage {
                Some(x) => encode_utf8(x).len(),
                None => 0,
            })
            + (match v.secret {
                Some(x) => x.len(),
                None => 0,
            }),
{
    let i1 = text_items(1, v.hash);
    let n1: nat = encode_utf8(v.hash).len();
    lemma_short_run_size(i1, n1);
    let r1 = i1;
    let b1: nat = 20 + n1;
    let i2 = some_text_items(2, v.preimage);
    let n2: nat = match v.preimage { Some(x) => encode_utf8(x).len(), None => 0 };
    lemma_short_run_size(i2, n2);
    lemma_joined_size(r1, i2, b1, 20 + n2);
    let r2 = r1 + i2;
    let b2: nat = b1 + 20 + n2;
    let i3 = some_blob_items(3, v.secret);
    let n3: nat = match v.secret { Some(x) => x.len(), None => 0 };
    lemma_short_run_size(i3, n3);
    lemma_joined_size(r2, i3, b2, 20 + n3);
    let r3 = r2 + i3;
    let b3: nat = b2 + 20 + n3;
}

impl Lossless for Bolt11 {
    proof fn lemma_round_trip(v: Bolt11View) {
        let s0 = Self::blank();
        let i1 = text_items(1, v.hash);
        let s1 = Bolt11View { hash: v.hash, ..s0 };
        assert(items_ok(i1) && absorbed::<Self>(s0, i1) == Some(s1)) by {
            reveal(items_ok);
            if v.hash.len() == 0 {
                assert(v.hash =~= Seq::<char>::empty());
                lemma_absorbed_none::<Self>(s0);
            } else {
                lemma_text_round_trip(1, v.hash);
                lemma_absorbed_one::<Self>(s0, bytes_item(1, encode_utf8(v.hash)));
            }
        }
        let r1 = i1;
        let i2 = some_text_items(2, v.preimage);
        let s2 = Bolt11View { preimage: v.preimage, ..s1 };
        assert(items_ok(i2) && absorbed::<Self>(s1, i2) == Some(s2)) by {
            reveal(items_ok);
            match v.preimage {
                Some(x) => {
                    lemma_text_round_trip(2, x);
                    lemma_absorbed_one::<Self>(s1, bytes_item(2, encode_utf8(x)));
                },
                None => {
                    lemma_absorbed_none::<Self>(s1);
                },
            }
        }
        lemma_absorbed_concat::<Self>(s0, r1, i2);
        lemma_items_ok_concat(r1, i2);
        let r2 = r1 + i2;
        let i3 = some_blob_items(3, v.secret);
        let s3 = Bolt11View { secret: v.secret, ..s2 };
        assert(items_ok(i3) && absorbed::<Self>(s2, i3) == Some(s3)) by {
            reveal(items_ok);
            match v.secret {
                Some(x) => {
                    lemma_absorbed_one::<Self>(s2, bytes_item(3, x));
                },
                None => {
                    lemma_absorbed_none::<Self>(s2);
                },
            }
        }
        lemma_absorbed_concat::<Self>(s0, r2, i3);
        lemma_items_ok_concat(r2, i3);
        let r3 = r2 + i3;
        assert(s3 == v);
    }
}

/// The most a liquidity provider may charge to open a channel for a payment.
#[derive(Clone, Debug, PartialEq, Eq)]
pub struct LspFeeLimits {
    pub max_total_opening_fee_msat: Option<u64>,
    pub max_proportional_opening_fee_ppm_msat: Option<u64>,
}

/// What a `LspFeeLimits` holds, as specifications see it.
pub struct LspFeeLimitsView {
    pub max_total_opening_fee_msat: Option<u64>,
    pub max_proportional_opening_fee_ppm_msat: Option<u64>,
}

impl DeepView for LspFeeLimits {
    type V = LspFeeLimitsView;

    open spec fn deep_view(&self) -> LspFeeLimitsView {
        LspFeeLimitsView {
            max_total_opening_fee_msat: self.max_total_opening_fee_msat.deep_view(),
            max_proportional_opening_fee_ppm_msat: self.max_proportional_opening_fee_ppm_msat.deep_view(),
        }
    }
}

impl View for LspFeeLimits {
    type V = LspFeeLimitsView;

    open spec fn view(&self) -> LspFeeLimitsView {
        self.deep_view()
    }
}

impl Message for LspFeeLimits {
    open spec fn blank() -> LspFeeLimitsView {
        LspFeeLimitsView {
            max_total_opening_fee_msat: None,
            max_proportional_opening_fee_ppm_msat: None,
        }
    }

    open spec fn absorb(acc: LspFeeLimitsView, item: Item) -> Option<LspFeeLimitsView> {
        if item.number == 1 {
            match item_uint64(item) {
                Some(x) => Some(LspFeeLimitsView { max_total_opening_fee_msat: Some(x), ..acc }),
                None => None,
            }
        } else if item.number == 2 {
            match item_uint64(item) {
                Some(x) => Some(LspFeeLimitsView { max_proportional_opening_fee_ppm_msat: Some(x), ..acc }),
                None => None,
            }
        } else {
            Some(acc)
        }
    }

    open spec fn items(v: LspFeeLimitsView) -> Seq<Item> {
        some_uint64_items(1, v.max_total_opening_fee_msat)
            + some_uint64_items(2, v.max_proportional_opening_fee_ppm_msat)
    }

    open spec fn fits(v: LspFeeLimitsView) -> bool {
        true
    }

    fn fresh() -> (m: Self) {
        let m = LspFeeLimits {
            max_total_opening_fee_msat: None,
            max_proportional_opening_fee_ppm_msat: None,
        };
        m
    }

    fn take(&mut self, field: &Field<'_>) -> (ok: bool) {
        if field.number == 1 {
            match field_uint64(field) {
                Some(x) => {
                    self.max_total_opening_fee_msat = Some(x);
                    true
                },
                None => false,
            }
        } else if field.number == 2 {
            match field_uint64(field) {
                Some(x) => {
                    self.max_proportional_opening_fee_ppm_msat = Some(x);
                    true
                },
                None => false,
            }
        } else {
            true
        }
    }

    fn emit(&self, out: &mut Vec<u8>) {
        let ghost v = self.deep_view();
        put_some_uint64(1, self.max_total_opening_fee_msat, out);
        let ghost run = some_uint64_items(1, v.max_total_opening_fee_msat);
        let ghost mid = out@;
        put_some_uint64(2, self.max_proportional_opening_fee_ppm_msat, out);
        proof {
            lemma_items_bytes_extend(
                old(out)@,
                mid,
                out@,
                run,
                some_uint64_items(2, v.max_proportional_opening_fee_ppm_msat),
            );
        }
        let ghost run = run + some_uint64_items(2, v.max_proportional_opening_fee_ppm_msat);
    }
}

/// The bytes of a `LspFeeLimits` are no more than its texts, bytes and nested
/// messages together, and twenty bytes for each field.
pub proof fn lemma_lsp_fee_limits_size(v: LspFeeLimitsView)
    ensures
        encoded::<LspFeeLimits>(v).len() <= 40,
{
    let i1 = some_uint64_items(1, v.max_total_opening_fee_msat);
    let n1: nat = 0;
    lemma_short_run_size(i1, n1);
    let r1 = i1;
    let b1: nat = 20 + n1;
    let i2 = some_uint64_items(2, v.max_proportional_opening_fee_ppm_msat);
    let n2: nat = 0;
    lemma_short_run_size(i2, n2);
    lemma_joined_size(r1, i2, b1, 20 + n2);
    let r2 = r1 + i2;
    let b2: nat = b1 + 20 + n2;
}

impl Lossless for LspFeeLimits {
    proof fn lemma_round_trip(v: LspFeeLimitsView) {
        let s0 = Self::blank();
        let i1 = some_uint64_items(1, v.max_total_opening_fee_msat);
        let s1 = LspFeeLimitsView { max_total_opening_fee_msat: v.max_total_opening_fee_msat, ..s0 };
        assert(items_ok(i1) && absorbed::<Self>(s0, i1) == Some(s1)) by {
            reveal(items_ok);
            match v.max_total_opening_fee_msat {
                Some(x) => {
                    lemma_absorbed_one::<Self>(s0, scalar_item(1, x as u64));
                },
                None => {
                    lemma_absorbed_none::<Self>(s0);
                },
            }
        }
        let r1 = i1;
        let i2 = some_uint64_items(2, v.max_proportional_opening_fee_ppm_msat);
        let s2 = LspFeeLimitsView { max_proportional_opening_fee_ppm_msat: v.max_proportional_opening_fee_ppm_msat, ..s1 };
        assert(items_ok(i2) && absorbed::<Self>(s1, i2) == Some(s2)) by {
            reveal(items_ok);
            match v.max_proportional_opening_fee_ppm_msat {
                Some(x) => {
                    lemma_absorbed_one::<Self>(s1, scalar_item(2, x as u64));
                },
                None => {
                    lemma_absorbed_none::<Self>(s1);
                },
            }
        }
        lemma_absorbed_concat::<Self>(s0, r1, i2);
        lemma_items_ok_concat(r1, i2);
        let r2 = r1 + i2;
        assert(s2 == v);
    }
}

/// A payment of an invoice for which a channel is opened just in time.
#[derive(Clone, Debug, PartialEq, Eq)]
pub struct Bolt11Jit {
    /// The payment's hash, in hexadecimal.
    pub hash: String,
    /// The payment's preimage, in hexadecimal, where known.
    pub preimage: Option<String>,
    /// The payment's secret, where known.
    pub secret: Option<Vec<u8>>,
    pub lsp_fee_limits: Option<LspFeeLimits>,
}

/// What a `Bolt11Jit` holds, as specifications see it.
pub struct Bolt11JitView {
    pub hash: Seq<char>,
    pub preimage: Option<Seq<char>>,
    pub secret: Option<Seq<u8>>,
    pub lsp_fee_limits: Option<LspFeeLimitsView>,
}

impl DeepView for Bolt11Jit {
    type V = Bolt11JitView;

    open spec fn deep_view(&self) -> Bolt11JitView {
        Bolt11JitView {
            hash: self.hash.deep_view(),
            preimage: self.preimage.deep_view(),
            secret: self.secret.deep_view(),
            lsp_fee_limits: self.lsp_fee_limits.deep_view(),
        }
    }
}

impl View for Bolt11Jit {
    type V = Bolt11JitView;

    open spec fn view(&self) -> Bolt11JitView {
        self.deep_view()
    }
}

impl Message for Bolt11Jit {
    open spec fn blank() -> Bolt11JitView {
        Bolt11JitView {
            hash: Seq::empty(),
            preimage: None,
            secret: None,
            lsp_fee_limits: None,
        }
    }

    open spec fn absorb(acc: Bolt11JitView, item: Item) -> Option<Bolt11JitView> {
        if item.number == 1 {
            match item_text(item) {
                Some(x) => Some(Bolt11JitView { hash: x, ..acc }),
                None => None,
            }
        } else if item.number == 2 {
            match item_text(item) {
                Some(x) => Some(Bolt11JitView { preimage: Some(x), ..acc }),
                None => None,
            }
        } else if item.number == 3 {
            match item_blob(item) {
                Some(x) => Some(Bolt11JitView { secret: Some(x), ..acc }),
                None => None,
            }
        } else if item.number == 4 {
            match item_nested::<LspFeeLimits>(acc.lsp_fee_limits, item) {
                Some(x) => Some(Bolt11JitView { lsp_fee_limits: Some(x), ..acc }),
                None => None,
            }
        } else {
            Some(acc)
        }
    }

    open spec fn items(v: Bolt11JitView) -> Seq<Item> {
        text_items(1, v.hash)
            + some_text_items(2, v.preimage)
            + some_blob_items(3, v.secret)
            + nested_items::<LspFeeLimits>(4, v.lsp_fee_limits)
    }

    open spec fn fits(v: Bolt11JitView) -> bool {
        &&& text_fits(v.hash)
        &&& some_text_fits(v.preimage)
        &&& some_blob_fits(v.secret)
        &&& nested_fits::<LspFeeLimits>(v.lsp_fee_limits)
    }

    fn fresh() -> (m: Self) {
        let m = Bolt11Jit {
            hash: String::new(),
            preimage: None,
            secret: None,
            lsp_fee_limits: None,
        };
        m
    }

    fn take(&mut self, field: &Field<'_>) -> (ok: bool) {
        if field.number == 1 {
            match field_text(field) {
                Some(x) => {
                    self.hash = x;
                    true
                },
                None => false,
            }
        } else if field.number == 2 {
            match field_text(field) {
                Some(x) => {
                    self.preimage = Some(x);
                    true
                },
                None => false,
            }
        } else if field.number == 3 {
            match field_blob(field) {
                Some(x) => {
                    self.secret = Some(x);
                    true
                },
                None => false,
            }
        } else if field.number == 4 {
            take_nested(&mut self.lsp_fee_limits, field)
        } else {
            true
        }
    }

    fn emit(&self, out: &mut Vec<u8>) {
        let ghost v = self.deep_view();
        put_text(1, &self.hash, out);
        let ghost run = text_items(1, v.hash);
        let ghost mid = out@;
        put_some_text(2, &self.preimage, out);
        proof {
            lemma_items_bytes_extend(old(out)@, mid, out@, run, some_text_items(2, v.preimage));
        }
        let ghost run = run + some_text_items(2, v.preimage);
        let ghost mid = out@;
        put_some_blob(3, &self.secret, out);
        proof {
            lemma_items_bytes_extend(old(out)@, mid, out@, run, some_blob_items(3, v.secret));
        }
        let ghost run = run + some_blob_items(3, v.secret);
        let ghost mid = out@;
        put_nested(4, &self.lsp_fee_limits, out);
        proof {
            lemma_items_bytes_extend(
                old(out)@,
                mid,
                out@,
                run,
                nested_items::<LspFeeLimits>(4, v.lsp_fee_limits),
            );
        }
        let ghost run = run + nested_items::<LspFeeLimits>(4, v.lsp_fee_limits);
    }
}

/// The bytes of a `Bolt11Jit` are no more than its texts, bytes and nested
/// messages together, and twenty bytes for each field.
pub proof fn lemma_bolt11_jit_size(v: Bolt11JitView)
    ensures
        encoded::<Bolt11Jit>(v).len() <= 80
            + encode_utf8(v.hash).len()
            + (match v.preimage {
                Some(x) => encode_utf8(x).len(),
                None => 0,
            })
            + (match v.secret {
                Some(x) => x.len(),
                None => 0,
            })
            + (match v.lsp_fee_limits {
                Some(x) => encoded::<LspFeeLimits>(x).len(),
                None => 0,
            }),
{
    let i1 = text_items(1, v.hash);
    let n1: nat = encode_utf8(v.hash).len();
    lemma_short_run_size(i1, n1);
    let r1 = i1;
    let b1: nat = 20 + n1;
    let i2 = some_text_items(2, v.preimage);
    let n2: nat = match v.preimage { Some(x) => encode_utf8(x).len(), None => 0 };
    lemma_short_run_size(i2, n2);
    lemma_joined_size(r1, i2, b1, 20 + n2);
    let r2 = r1 + i2;
    let b2: nat = b1 + 20 + n2;
    let i3 = some_blob_items(3, v.secret);
    let n3: nat = match v.secret { Some(x) => x.len(), None => 0 };
    lemma_short_run_size(i3, n3);
    lemma_joined_size(r2, i3, b2, 20 + n3);
    let r3 = r2 + i3;
    let b3: nat = b2 + 20 + n3;
    let i4 = nested_items::<LspFeeLimits>(4, v.lsp_fee_limits);
    let n4: nat = match v.lsp_fee_limits { Some(x) => encoded::<LspFeeLimits>(x).len(), None => 0 };
    lemma_short_run_size(i4, n4);
    lemma_joined_size(r3, i4, b3, 20 + n4);
    let r4 = r3 + i4;
    let b4: nat = b3 + 20 + n4;
}

impl Lossless for Bolt11Jit {
    proof fn lemma_round_trip(v: Bolt11JitView) {
        let s0 = Self::blank();
        let i1 = text_items(1, v.hash);
        let s1 = Bolt11JitView { hash: v.hash, ..s0 };
        assert(items_ok(i1) && absorbed::<Self>(s0, i1) == Some(s1)) by {
            reveal(items_ok);
            if v.hash.len() == 0 {
                assert(v.hash =~= Seq::<char>::empty());
                lemma_absorbed_none::<Self>(s0);
            } else {
                lemma_text_round_trip(1, v.hash);
                lemma_absorbed_one::<Self>(s0, bytes_item(1, encode_utf8(v.hash)));
            }
        }
        let r1 = i1;
        let i2 = some_text_items(2, v.preimage);
        let s2 = Bolt11JitView { preimage: v.preimage, ..s1 };
        assert(items_ok(i2) && absorbed::<Self>(s1, i2) == Some(s2)) by {
            reveal(items_ok);
            match v.preimage {
                Some(x) => {
                    lemma_text_round_trip(2, x);
                    lemma_absorbed_one::<Self>(s1, bytes_item(2, encode_utf8(x)));
                },
                None => {
                    lemma_absorbed_none::<Self>(s1);
                },
            }
        }
        lemma_absorbed_concat::<Self>(s0, r1, i2);
        lemma_items_ok_concat(r1, i2);
        let r2 = r1 + i2;
        let i3 = some_blob_items(3, v.secret);
        let s3 = Bolt11JitView { secret: v.secret, ..s2 };
        assert(items_ok(i3) && absorbed::<Self>(s2, i3) == Some(s3)) by {
            reveal(items_ok);
            match v.secret {
                Some(x) => {
                    lemma_absorbed_one::<Self>(s2, bytes_item(3, x));
                },
                None => {
                    lemma_absorbed_none::<Self>(s2);
                },
            }
        }
        lemma_absorbed_concat::<Self>(s0, r2, i3);
        lemma_items_ok_concat(r2, i3);
        let r3 = r2 + i3;
        let i4 = nested_items::<LspFeeLimits>(4, v.lsp_fee_limits);
        let s4 = Bolt11JitView { lsp_fee_limits: v.lsp_fee_limits, ..s3 };
        assert(items_ok(i4) && absorbed::<Self>(s3, i4) == Some(s4)) by {
            reveal(items_ok);
            match v.lsp_fee_limits {
                Some(x) => {
                    lemma_nested_round_trip::<LspFeeLimits>(4, x);
                    lemma_absorbed_one::<Self>(s3, bytes_item(4, encoded::<LspFeeLimits>(x)));
                },
                None => {
                    lemma_absorbed_none::<Self>(s3);
                },
            }
        }
        lemma_absorbed_concat::<Self>(s0, r3, i4);
        lemma_items_ok_concat(r3, i4);
        let r4 = r3 + i4;
        assert(s4 == v);
    }
}

/// A payment of an offer.
#[derive(Clone, Debug, PartialEq, Eq)]
pub struct Bolt12Offer {
    /// The payment's hash, in hexadecimal, where known.
    pub hash: Option<String>,
    /// The payment's preimage, in hexadecimal, where known.
    pub preimage: Option<String>,
    /// The payment's secret, where known.
    pub secret: Option<Vec<u8>>,
    /// The offer's identifier.
    pub offer_id: Vec<u8>,
}

/// What a `Bolt12Offer` holds, as specifications see it.
pub struct Bolt12OfferView {
    pub hash: Option<Seq<char>>,
    pub preimage: Option<Seq<char>>,
    pub secret: Option<Seq<u8>>,
    pub offer_id: Seq<u8>,
}

impl DeepView for Bolt12Offer {
    type V = Bolt12OfferView;

    open spec fn deep_view(&self) -> Bolt12OfferView {
        Bolt12OfferView {
            hash: self.hash.deep_view(),
            preimage: self.preimage.deep_view(),
            secret: self.secret.deep_view(),
            offer_id: self.offer_id.deep_view(),
        }
    }
}

impl View for Bolt12Offer {
    type V = Bolt12OfferView;

    open spec fn view(&self) -> Bolt12OfferView {
        self.deep_view()
    }
}

impl Message for Bolt12Offer {
    open spec fn blank() -> Bolt12OfferView {
        Bolt12OfferView {
            hash: None,
            preimage: None,
            secret: None,
            offer_id: Seq::empty(),
        }
    }

    open spec fn absorb(acc: Bolt12OfferView, item: Item) -> Option<Bolt12OfferView> {
        if item.number == 1 {
            match item_text(item) {
                Some(x) => Some(Bolt12OfferView { hash: Some(x), ..acc }),
                None => None,
            }
        } else if item.number == 2 {
            match item_text(item) {
                Some(x) => Some(Bolt12OfferView { preimage: Some(x), ..acc }),
                None => None,
            }
        } else if item.number == 3 {
            match item_blob(item) {
                Some(x) => Some(Bolt12OfferView { secret: Some(x), ..acc }),
                None => None,
            }
        } else if item.number == 4 {
            match item_blob(item) {
                Some(x) => Some(Bolt12OfferView { offer_id: x, ..acc }),
                None => None,
            }
        } else {
            Some(acc)
        }
    }

    open spec fn items(v: Bolt12OfferView) -> Seq<Item> {
        some_text_items(1, v.hash)
            + some_text_items(2, v.preimage)
            + some_blob_items(3, v.secret)
            + blob_items(4, v.offer_id)
    }

    open spec fn fits(v: Bolt12OfferView) -> bool {
        &&& some_text_fits(v.hash)
        &&& some_text_fits(v.preimage)
        &&& some_blob_fits(v.secret)
        &&& blob_fits(v.offer_id)
    }

    fn fresh() -> (m: Self) {
        let m = Bolt12Offer {
            hash: None,
            preimage: None,
            secret: None,
            offer_id: Vec::new(),
        };
        assert(m.offer_id.deep_view() =~= Seq::empty());
        m
    }

    fn take(&mut self, field: &Field<'_>) -> (ok: bool) {
        if field.number == 1 {
            match field_text(field) {
                Some(x) => {
                    self.hash = Some(x);
                    true
                },
                None => false,
            }
        } else if field.number == 2 {
            match field_text(field) {
                Some(x) => {
                    self.preimage = Some(x);
                    true
                },
                None => false,
            }
        } else if field.number == 3 {
            match field_blob(field) {
                Some(x) => {
                    self.secret = Some(x);
                    true
                },
                None => false,
            }
        } else if field.number == 4 {
            match field_blob(field) {
                Some(x) => {
                    self.offer_id = x;
                    true
                },
                None => false,
            }
        } else {
            true
        }
    }

    fn emit(&self, out: &mut Vec<u8>) {
        let ghost v = self.deep_view();
        put_some_text(1, &self.hash, out);
        let ghost run = some_text_items(1, v.hash);
        let ghost mid = out@;
        put_some_text(2, &self.preimage, out);
        proof {
            lemma_items_bytes_extend(old(out)@, mid, out@, run, some_text_items(2, v.preimage));
        }
        let ghost run = run + some_text_items(2, v.preimage);
        let ghost mid = out@;
        put_some_blob(3, &self.secret, out);
        proof {
            lemma_items_bytes_extend(old(out)@, mid, out@, run, some_blob_items(3, v.secret));
        }
        let ghost run = run + some_blob_items(3, v.secret);
        let ghost mid = out@;
        put_blob(4, &self.offer_id, out);
        proof {
            lemma_items_bytes_extend(old(out)@, mid, out@, run, blob_items(4, v.offer_id));
        }
        let ghost run = run + blob_items(4, v.offer_id);
    }
}

/// The bytes of a `Bolt12Offer` are no more than its texts, bytes and nested
/// messages together, and twenty bytes for each field.
pub proof fn lemma_bolt12_offer_size(v: Bolt12OfferView)
    ensures
        encoded::<Bolt12Offer>(v).len() <= 80
            + (match v.hash {
                Some(x) => encode_utf8(x).len(),
                None => 0,
            })
            + (match v.preimage {
                Some(x) => encode_utf8(x).len(),
                None => 0,
            })
            + (match v.secret {
                Some(x) => x.len(),
                None => 0,
            })
            + v.offer_id.len(),
{
    let i1 = some_text_items(1, v.hash);
    let n1: nat = match v.hash { Some(x) => encode_utf8(x).len(), None => 0 };
    lemma_short_run_size(i1, n1);
    let r1 = i1;
    let b1: nat = 20 + n1;
    let i2 = some_text_items(2, v.preimage);
    let n2: nat = match v.preimage { Some(x) => encode_utf8(x).len(), None => 0 };
    lemma_short_run_size(i2, n2);
    lemma_joined_size(r1, i2, b1, 20 + n2);
    let r2 = r1 + i2;
    let b2: nat = b1 + 20 + n2;
    let i3 = some_blob_items(3, v.secret);
    let n3: nat = match v.secret { Some(x) => x.len(), None => 0 };
    lemma_short_run_size(i3, n3);
    lemma_joined_size(r2, i3, b2, 20 + n3);
    let r3 = r2 + i3;
    let b3: nat = b2 + 20 + n3;
    let i4 = blob_items(4, v.offer_id);
    let n4: nat = v.offer_id.len();
    lemma_short_run_size(i4, n4);
    lemma_joined_size(r3, i4, b3, 20 + n4);
    let r4 = r3 + i4;
    let b4: nat = b3 + 20 + n4;
}

impl Lossless for Bolt12Offer {
    proof fn lemma_round_trip(v: Bolt12OfferView) {
        let s0 = Self::blank();
        let i1 = some_text_items(1, v.hash);
        let s1 = Bolt12OfferView { hash: v.hash, ..s0 };
        assert(items_ok(i1) && absorbed::<Self>(s0, i1) == Some(s1)) by {
            reveal(items_ok);
            match v.hash {
                Some(x) => {
                    lemma_text_round_trip(1, x);
                    lemma_absorbed_one::<Self>(s0, bytes_item(1, encode_utf8(x)));
                },
                None => {
                    lemma_absorbed_none::<Self>(s0);
                },
            }
        }
        let r1 = i1;
        let i2 = some_text_items(2, v.preimage);
        let s2 = Bolt12OfferView { preimage: v.preimage, ..s1 };
        assert(items_ok(i2) && absorbed::<Self>(s1, i2) == Some(s2)) by {
            reveal(items_ok);
            match v.preimage {
                Some(x) => {
                    lemma_text_round_trip(2, x);
                    lemma_absorbed_one::<Self>(s1, bytes_item(2, encode_utf8(x)));
                },
                None => {
                    lemma_absorbed_none::<Self>(s1);
                },
            }
        }
        lemma_absorbed_concat::<Self>(s0, r1, i2);
        lemma_items_ok_concat(r1, i2);
        let r2 = r1 + i2;
        let i3 = some_blob_items(3, v.secret);
        let s3 = Bolt12OfferView { secret: v.secret, ..s2 };
        assert(items_ok(i3) && absorbed::<Self>(s2, i3) == Some(s3)) by {
            reveal(items_ok);
            match v.secret {
                Some(x) => {
                    lemma_absorbed_one::<Self>(s2, bytes_item(3, x));
                },
                None => {
                    lemma_absorbed_none::<Self>(s2);
                },
            }
        }
        lemma_absorbed_concat::<Self>(s0, r2, i3);
        lemma_items_ok_concat(r2, i3);
        let r3 = r2 + i3;
        let i4 = blob_items(4, v.offer_id);
        let s4 = Bolt12OfferView { offer_id: v.offer_id, ..s3 };
        assert(items_ok(i4) && absorbed::<Self>(s3, i4) == Some(s4)) by {
            reveal(items_ok);
            if v.offer_id.len() == 0 {
                assert(v.offer_id =~= Seq::<u8>::empty());
                lemma_absorbed_none::<Self>(s3);
            } else {
                lemma_absorbed_one::<Self>(s3, bytes_item(4, v.offer_id));
            }
        }
        lemma_absorbed_concat::<Self>(s0, r3, i4);
        lemma_items_ok_concat(r3, i4);
        let r4 = r3 + i4;
        assert(s4 == v);
    }
}

/// A payment of a refund.
#[derive(Clone, Debug, PartialEq, Eq)]
pub struct Bolt12Refund {
    /// The payment's hash, in hexadecimal, where known.
    pub hash: Option<String>,
    /// The payment's preimage, in hexadecimal, where known.
    pub preimage: Option<String>,
    /// The payment's secret, where known.
    pub secret: Option<Vec<u8>>,
}

/// What a `Bolt12Refund` holds, as specifications see it.
pub struct Bolt12RefundView {
    pub hash: Option<Seq<char>>,
    pub preimage: Option<Seq<char>>,
    pub secret: Option<Seq<u8>>,
}

impl DeepView for Bolt12Refund {
    type V = Bolt12RefundView;

    open spec fn deep_view(&self) -> Bolt12RefundView {
        Bolt12RefundView {
            hash: self.hash.deep_view(),
            preimage: self.preimage.deep_view(),
            secret: self.secret.deep_view(),
        }
    }
}

impl View for Bolt12Refund {
    type V = Bolt12RefundView;

    open spec fn view(&self) -> Bolt12RefundView {
        self.deep_view()
    }
}

impl Message for Bolt12Refund {
    open spec fn blank() -> Bolt12RefundView {
        Bolt12RefundView {
            hash: None,
            preimage: None,
            secret: None,
        }
    }

    open spec fn absorb(acc: Bolt12RefundView, item: Item) -> Option<Bolt12RefundView> {
        if item.number == 1 {
            match item_text(item) {
                Some(x) => Some(Bolt12RefundView { hash: Some(x), ..acc }),
                None => None,
            }
        } else if item.number == 2 {
            match item_text(item) {
                Some(x) => Some(Bolt12RefundView { preimage: Some(x), ..acc }),
                None => None,
            }
        } else if item.number == 3 {
            match item_blob(item) {
                Some(x) => Some(Bolt12RefundView { secret: Some(x), ..acc }),
                None => None,
            }
        } else {
            Some(acc)
        }
    }

    open spec fn items(v: Bolt12RefundView) -> Seq<Item> {
        some_text_items(1, v.hash) + some_text_items(2, v.preimage) + some_blob_items(3, v.secret)
    }

    open spec fn fits(v: Bolt12RefundView) -> bool {
        &&& some_text_fits(v.hash)
        &&& some_text_fits(v.preimage)
        &&& some_blob_fits(v.secret)
    }

    fn fresh() -> (m: Self) {
        let m = Bolt12Refund {
            hash: None,
            preimage: None,
            secret: None,
        };
        m
    }

    fn take(&mut self, field: &Field<'_>) -> (ok: bool) {
        if field.number == 1 {
            match field_text(field) {
                Some(x) => {
                    self.hash = Some(x);
                    true
                },
                None => false,
            }
        } else if field.number == 2 {
            match field_text(field) {
                Some(x) => {
                    self.preimage = Some(x);
                    true
                },
                None => false,
            }
        } else if field.number == 3 {
            match field_blob(field) {
                Some(x) => {
                    self.secret = Some(x);
                    true
                },
                None => false,
            }
        } else {
            true
        }
    }

    fn emit(&self, out: &mut Vec<u8>) {
        let ghost v = self.deep_view();
        put_some_text(1, &self.hash, out);
        let ghost run = some_text_items(1, v.hash);
        let ghost mid = out@;
        put_some_text(2, &self.preimage, out);
        proof {
            lemma_items_bytes_extend(old(out)@, mid, out@, run, some_text_items(2, v.preimage));
        }
        let ghost run = run + some_text_items(2, v.preimage);
        let ghost mid = out@;
        put_some_blob(3, &self.secret, out);
        proof {
            lemma_items_bytes_extend(old(out)@, mid, out@, run, some_blob_items(3, v.secret));
        }
        let ghost run = run + some_blob_items(3, v.secret);
    }
}

/// The bytes of a `Bolt12Refund` are no more than its texts, bytes and nested
/// messages together, and twenty bytes for each field.
pub proof fn lemma_bolt12_refund_size(v: Bolt12RefundView)
    ensures
        encoded::<Bolt12Refund>(v).len() <= 60
            + (match v.hash {
                Some(x) => encode_utf8(x).len(),
                None => 0,
            })
            + (match v.preimage {
                Some(x) => encode_utf8(x).len(),
                None => 0,
            })
            + (match v.secret {
                Some(x) => x.len(),
                None => 0,
            }),
{
    let i1 = some_text_items(1, v.hash);
    let n1: nat = match v.hash { Some(x) => encode_utf8(x).len(), None => 0 };
    lemma_short_run_size(i1, n1);
    let r1 = i1;
    let b1: nat = 20 + n1;
    let i2 = some_text_items(2, v.preimage);
    let n2: nat = match v.preimage { Some(x) => encode_utf8(x).len(), None => 0 };
    lemma_short_run_size(i2, n2);
    lemma_joined_size(r1, i2, b1, 20 + n2);
    let r2 = r1 + i2;
    let b2: nat = b1 + 20 + n2;
    let i3 = some_blob_items(3, v.secret);
    let n3: nat = match v.secret { Some(x) => x.len(), None => 0 };
    lemma_short_run_size(i3, n3);
    lemma_joined_size(r2, i3, b2, 20 + n3);
    let r3 = r2 + i3;
    let b3: nat = b2 + 20 + n3;
}

impl Lossless for Bolt12Refund {
    proof fn lemma_round_trip(v: Bolt12RefundView) {
        let s0 = Self::blank();
        let i1 = some_text_items(1, v.hash);
        let s1 = Bolt12RefundView { hash: v.hash, ..s0 };
        assert(items_ok(i1) && absorbed::<Self>(s0, i1) == Some(s1)) by {
            reveal(items_ok);
            match v.hash {
                Some(x) => {
                    lemma_text_round_trip(1, x);
                    lemma_absorbed_one::<Self>(s0, bytes_item(1, encode_utf8(x)));
                },
                None => {
                    lemma_absorbed_none::<Self>(s0);
                },
            }
        }
        let r1 = i1;
        let i2 = some_text_items(2, v.preimage);
        let s2 = Bolt12RefundView { preimage: v.preimage, ..s1 };
        assert(items_ok(i2) && absorbed::<Self>(s1, i2) == Some(s2)) by {
            reveal(items_ok);
            match v.preimage {
                Some(x) => {
                    lemma_text_round_trip(2, x);
                    lemma_absorbed_one::<Self>(s1, bytes_item(2, encode_utf8(x)));
                },
                None => {
                    lemma_absorbed_none::<Self>(s1);
                },
            }
        }
        lemma_absorbed_concat::<Self>(s0, r1, i2);
        lemma_items_ok_concat(r1, i2);
        let r2 = r1 + i2;
        let i3 = some_blob_items(3, v.secret);
        let s3 = Bolt12RefundView { secret: v.secret, ..s2 };
        assert(items_ok(i3) && absorbed::<Self>(s2, i3) == Some(s3)) by {
            reveal(items_ok);
            match v.secret {
                Some(x) => {
                    lemma_absorbed_one::<Self>(s2, bytes_item(3, x));
                },
                None => {
                    lemma_absorbed_none::<Self>(s2);
                },
            }
        }
        lemma_absorbed_concat::<Self>(s0, r2, i3);
        lemma_items_ok_concat(r2, i3);
        let r3 = r2 + i3;
        assert(s3 == v);
    }
}

/// A payment sent without an invoice.
#[derive(Clone, Debug, PartialEq, Eq)]
pub struct Spontaneous {
    /// The payment's hash, in hexadecimal.
    pub hash: String,
    /// The payment's preimage, in hexadecimal, where known.
    pub preimage: Option<String>,
}

/// What a `Spontaneous` holds, as specifications see it.
pub struct SpontaneousView {
    pub hash: Seq<char>,
    pub preimage: Option<Seq<char>>,
}

impl DeepView for Spontaneous {
    type V = SpontaneousView;

    open spec fn deep_view(&self) -> SpontaneousView {
        SpontaneousView {
            hash: self.hash.deep_view(),
            preimage: self.preimage.deep_view(),
        }
    }
}

impl View for Spontaneous {
    type V = SpontaneousView;

    open spec fn view(&self) -> SpontaneousView {
        self.deep_view()
    }
}

impl Message for Spontaneous {
    open spec fn blank() -> SpontaneousView {
        SpontaneousView {
            hash: Seq::empty(),
            preimage: None,
        }
    }

    open spec fn absorb(acc: SpontaneousView, item: Item) -> Option<SpontaneousView> {
        if item.number == 1 {
            match item_text(item) {
                Some(x) => Some(SpontaneousView { hash: x, ..acc }),
                None => None,
            }
        } else if item.number == 2 {
            match item_text(item) {
                Some(x) => Some(SpontaneousView { preimage: Some(x), ..acc }),
                None => None,
            }
        } else {
            Some(acc)
        }
    }

    open spec fn items(v: SpontaneousView) -> Seq<Item> {
        text_items(1, v.hash) + some_text_items(2, v.preimage)
    }

    open spec fn fits(v: SpontaneousView) -> bool {
        &&& text_fits(v.hash)
        &&& some_text_fits(v.preimage)
    }

    fn fresh() -> (m: Self) {
        let m = Spontaneous {
            hash: String::new(),
            preimage: None,
        };
        m
    }

    fn take(&mut self, field: &Field<'_>) -> (ok: bool) {
        if field.number == 1 {
            match field_text(field) {
                Some(x) => {
                    self.hash = x;
                    true
                },
                None => false,
            }
        } else if field.number == 2 {
            match field_text(field) {
                Some(x) => {
                    self.preimage = Some(x);
                    true
                },
                None => false,
            }
        } else {
            true
        }
    }

    fn emit(&self, out: &mut Vec<u8>) {
        let ghost v = self.deep_view();
        put_text(1, &self.hash, out);
        let ghost run = text_items(1, v.hash);
        let ghost mid = out@;
        put_some_text(2, &self.preimage, out);
        proof {
            lemma_items_bytes_extend(old(out)@, mid, out@, run, some_text_items(2, v.preimage));
        }
        let ghost run = run + some_text_items(2, v.preimage);
    }
}

/// The bytes of a `Spontaneous` are no more than its texts, bytes and nested
/// messages together, and twenty bytes for each field.
pub proof fn lemma_spontaneous_size(v: SpontaneousView)
    ensures
        encoded::<Spontaneous>(v).len() <= 40
            + encode_utf8(v.hash).len()
            + (match v.preimage {
                Some(x) => encode_utf8(x).len(),
                None => 0,
            }),
{
    let i1 = text_items(1, v.hash);
    let n1: nat = encode_utf8(v.hash).len();
    lemma_short_run_size(i1, n1);
    let r1 = i1;
    let b1: nat = 20 + n1;
    let i2 = some_text_items(2, v.preimage);
    let n2: nat = match v.preimage { Some(x) => encode_utf8(x).len(), None => 0 };
    lemma_short_run_size(i2, n2);
    lemma_joined_size(r1, i2, b1, 20 + n2);
    let r2 = r1 + i2;
    let b2: nat = b1 + 20 + n2;
}

impl Lossless for Spontaneous {
    proof fn lemma_round_trip(v: SpontaneousView) {
        let s0 = Self::blank();
        let i1 = text_items(1, v.hash);
        let s1 = SpontaneousView { hash: v.hash, ..s0 };
        assert(items_ok(i1) && absorbed::<Self>(s0, i1) == Some(s1)) by {
            reveal(items_ok);
            if v.hash.len() == 0 {
                assert(v.hash =~= Seq::<char>::empty());
                lemma_absorbed_none::<Self>(s0);
            } else {
                lemma_text_round_trip(1, v.hash);
                lemma_absorbed_one::<Self>(s0, bytes_item(1, encode_utf8(v.hash)));
            }
        }
        let r1 = i1;
        let i2 = some_text_items(2, v.preimage);
        let s2 = SpontaneousView { preimage: v.preimage, ..s1 };
        assert(items_ok(i2) && absorbed::<Self>(s1, i2) == Some(s2)) by {
            reveal(items_ok);
            match v.preimage {
                Some(x) => {
                    lemma_text_round_trip(2, x);
                    lemma_absorbed_one::<Self>(s1, bytes_item(2, encode_utf8(x)));
                },
                None => {
                    lemma_absorbed_none::<Self>(s1);
                },
            }
        }
        lemma_absorbed_concat::<Self>(s0, r1, i2);
        lemma_items_ok_concat(r1, i2);
        let r2 = r1 + i2;
        assert(s2 == v);
    }
}

/// An envelope for the kind of a payment, whichever it is.
#[derive(Clone, Debug, PartialEq, Eq)]
pub struct PaymentKind {
    pub kind: Option<payment_kind::Kind>,
}

/// What a `PaymentKind` holds, as specifications see it.
pub struct PaymentKindView {
    pub kind: Option<payment_kind::KindView>,
}

impl DeepView for PaymentKind {
    type V = PaymentKindView;

    open spec fn deep_view(&self) -> PaymentKindView {
        PaymentKindView {
            kind: self.kind.deep_view(),
        }
    }
}

impl View for PaymentKind {
    type V = PaymentKindView;

    open spec fn view(&self) -> PaymentKindView {
        self.deep_view()
    }
}

/// The one field that stands for the payload that is set, or none.
pub open spec fn payment_kind_kind_items(
    value: Option<payment_kind::KindView>,
) -> Seq<Item> {
    match value {
        Some(payment_kind::KindView::Onchain(inner)) => seq![bytes_item(1, encoded::<Onchain>(inner))],
        Some(payment_kind::KindView::Bolt11(inner)) => seq![bytes_item(2, encoded::<Bolt11>(inner))],
        Some(payment_kind::KindView::Bolt11Jit(inner)) => seq![bytes_item(3, encoded::<Bolt11Jit>(inner))],
        Some(payment_kind::KindView::Bolt12offer(inner)) => seq![bytes_item(4, encoded::<Bolt12Offer>(inner))],
        Some(payment_kind::KindView::Bolt12refund(inner)) => seq![bytes_item(5, encoded::<Bolt12Refund>(inner))],
        Some(payment_kind::KindView::Spontaneous(inner)) => seq![bytes_item(6, encoded::<Spontaneous>(inner))],
        None => Seq::empty(),
    }
}

/// The payload that is set, if any, has a length that the wire can state.
pub open spec fn payment_kind_kind_fits(
    value: Option<payment_kind::KindView>,
) -> bool {
    match value {
        Some(payment_kind::KindView::Onchain(inner)) => message_fits::<Onchain>(inner),
        Some(payment_kind::KindView::Bolt11(inner)) => message_fits::<Bolt11>(inner),
        Some(payment_kind::KindView::Bolt11Jit(inner)) => message_fits::<Bolt11Jit>(inner),
        Some(payment_kind::KindView::Bolt12offer(inner)) => message_fits::<Bolt12Offer>(inner),
        Some(payment_kind::KindView::Bolt12refund(inner)) => message_fits::<Bolt12Refund>(inner),
        Some(payment_kind::KindView::Spontaneous(inner)) => message_fits::<Spontaneous>(inner),
        None => true,
    }
}

impl Message for PaymentKind {
    open spec fn blank() -> PaymentKindView {
        PaymentKindView {
            kind: None,
        }
    }

    open spec fn absorb(acc: PaymentKindView, item: Item) -> Option<PaymentKindView> {
        if item.number == 1 {
            match item_nested::<Onchain>(
                match acc.kind {
                    Some(payment_kind::KindView::Onchain(held)) => Some(held),
                    _ => None,
                },
                item,
            ) {
                Some(x) => Some(PaymentKindView { kind: Some(payment_kind::KindView::Onchain(x)), ..acc }),
                None => None,
            }
        } else if item.number == 2 {
            match item_nested::<Bolt11>(
                match acc.kind {
                    Some(payment_kind::KindView::Bolt11(held)) => Some(held),
                    _ => None,
                },
                item,
            ) {
                Some(x) => Some(PaymentKindView { kind: Some(payment_kind::KindView::Bolt11(x)), ..acc }),
                None => None,
            }
        } else if item.number == 3 {
            match item_nested::<Bolt11Jit>(
                match acc.kind {
                    Some(payment_kind::KindView::Bolt11Jit(held)) => Some(held),
                    _ => None,
                },
                item,
            ) {
                Some(x) => Some(PaymentKindView { kind: Some(payment_kind::KindView::Bolt11Jit(x)), ..acc }),
                None => None,
            }
        } else if item.number == 4 {
            match item_nested::<Bolt12Offer>(
                match acc.kind {
                    Some(payment_kind::KindView::Bolt12offer(held)) => Some(held),
                    _ => None,
                },
                item,
            ) {
                Some(x) => Some(PaymentKindView { kind: Some(payment_kind::KindView::Bolt12offer(x)), ..acc }),
                None => None,
            }
        } else if item.number == 5 {
            match item_nested::<Bolt12Refund>(
                match acc.kind {
                    Some(payment_kind::KindView::Bolt12refund(held)) => Some(held),
                    _ => None,
                },
                item,
            ) {
                Some(x) => Some(PaymentKindView { kind: Some(payment_kind::KindView::Bolt12refund(x)), ..acc }),
                None => None,
            }
        } else if item.number == 6 {
            match item_nested::<Spontaneous>(
                match acc.kind {
                    Some(payment_kind::KindView::Spontaneous(held)) => Some(held),
                    _ => None,
                },
                item,
            ) {
                Some(x) => Some(PaymentKindView { kind: Some(payment_kind::KindView::Spontaneous(x)), ..acc }),
                None => None,
            }
        } else {
            Some(acc)
        }
    }

    open spec fn items(v: PaymentKindView) -> Seq<Item> {
        payment_kind_kind_items(v.kind)
    }

    open spec fn fits(v: PaymentKindView) -> bool {
        &&& payment_kind_kind_fits(v.kind)
    }

    fn fresh() -> (m: Self) {
        let m = PaymentKind {
            kind: None,
        };
        m
    }

    fn take(&mut self, field: &Field<'_>) -> (ok: bool) {
        if field.number == 1 {
            let mut slot = match self.kind.take() {
                Some(payment_kind::Kind::Onchain(held)) => Some(held),
                _ => None,
            };
            if take_nested(&mut slot, field) {
                match slot {
                    Some(x) => {
                        self.kind = Some(payment_kind::Kind::Onchain(x));
                        true
                    },
                    None => false,
                }
            } else {
                false
            }
        } else if field.number == 2 {
            let mut slot = match self.kind.take() {
                Some(payment_kind::Kind::Bolt11(held)) => Some(held),
                _ => None,
            };
            if take_nested(&mut slot, field) {
                match slot {
                    Some(x) => {
                        self.kind = Some(payment_kind::Kind::Bolt11(x));
                        true
                    },
                    None => false,
                }
            } else {
                false
            }
        } else if field.number == 3 {
            let mut slot = match self.kind.take() {
                Some(payment_kind::Kind::Bolt11Jit(held)) => Some(held),
                _ => None,
            };
            if take_nested(&mut slot, field) {
                match slot {
                    Some(x) => {
                        self.kind = Some(payment_kind::Kind::Bolt11Jit(x));
                        true
                    },
                    None => false,
                }
            } else {
                false
            }
        } else if field.number == 4 {
            let mut slot = match self.kind.take() {
                Some(payment_kind::Kind::Bolt12offer(held)) => Some(held),
                _ => None,
            };
            if take_nested(&mut slot, field) {
                match slot {
                    Some(x) => {
                        self.kind = Some(payment_kind::Kind::Bolt12offer(x));
                        true
                    },
                    None => false,
                }
            } else {
                false
            }
        } else if field.number == 5 {
            let mut slot = match self.kind.take() {
                Some(payment_kind::Kind::Bolt12refund(held)) => Some(held),
                _ => None,
            };
            if take_nested(&mut slot, field) {
                match slot {
                    Some(x) => {
                        self.kind = Some(payment_kind::Kind::Bolt12refund(x));
                        true
                    },
                    None => false,
                }
            } else {
                false
            }
        } else if field.number == 6 {
            let mut slot = match self.kind.take() {
                Some(payment_kind::Kind::Spontaneous(held)) => Some(held),
                _ => None,
            };
            if take_nested(&mut slot, field) {
                match slot {
                    Some(x) => {
                        self.kind = Some(payment_kind::Kind::Spontaneous(x));
                        true
                    },
                    None => false,
                }
            } else {
                false
            }
        } else {
            true
        }
    }

    fn emit(&self, out: &mut Vec<u8>) {
        let ghost v = self.deep_view();
        match &self.kind {
            Some(payment_kind::Kind::Onchain(inner)) => {
                put_message(1, inner, out);
                proof {
                    lemma_items_bytes_one(bytes_item(1, encoded::<Onchain>(inner.deep_view())));
                }
            },
            Some(payment_kind::Kind::Bolt11(inner)) => {
                put_message(2, inner, out);
                proof {
                    lemma_items_bytes_one(bytes_item(2, encoded::<Bolt11>(inner.deep_view())));
                }
            },
            Some(payment_kind::Kind::Bolt11Jit(inner)) => {
                put_message(3, inner, out);
                proof {
                    lemma_items_bytes_one(bytes_item(3, encoded::<Bolt11Jit>(inner.deep_view())));
                }
            },
            Some(payment_kind::Kind::Bolt12offer(inner)) => {
                put_message(4, inner, out);
                proof {
                    lemma_items_bytes_one(bytes_item(4, encoded::<Bolt12Offer>(inner.deep_view())));
                }
            },
            Some(payment_kind::Kind::Bolt12refund(inner)) => {
                put_message(5, inner, out);
                proof {
                    lemma_items_bytes_one(bytes_item(5, encoded::<Bolt12Refund>(inner.deep_view())));
                }
            },
            Some(payment_kind::Kind::Spontaneous(inner)) => {
                put_message(6, inner, out);
                proof {
                    lemma_items_bytes_one(bytes_item(6, encoded::<Spontaneous>(inner.deep_view())));
                }
            },
            None => {
                assert(out@ =~= old(out)@ + items_bytes(Seq::empty()));
            },
        }
        let ghost run = payment_kind_kind_items(v.kind);
    }
}

impl Lossless for PaymentKind {
    proof fn lemma_round_trip(v: PaymentKindView) {
        let s0 = Self::blank();
        let i1 = payment_kind_kind_items(v.kind);
        let s1 = PaymentKindView { kind: v.kind, ..s0 };
        assert(items_ok(i1) && absorbed::<Self>(s0, i1) == Some(s1)) by {
            reveal(items_ok);
            match v.kind {
                Some(payment_kind::KindView::Onchain(x)) => {
                    lemma_nested_round_trip::<Onchain>(1, x);
                    lemma_absorbed_one::<Self>(s0, bytes_item(1, encoded::<Onchain>(x)));
                },
                Some(payment_kind::KindView::Bolt11(x)) => {
                    lemma_nested_round_trip::<Bolt11>(2, x);
                    lemma_absorbed_one::<Self>(s0, bytes_item(2, encoded::<Bolt11>(x)));
                },
                Some(payment_kind::KindView::Bolt11Jit(x)) => {
                    lemma_nested_round_trip::<Bolt11Jit>(3, x);
                    lemma_absorbed_one::<Self>(s0, bytes_item(3, encoded::<Bolt11Jit>(x)));
                },
                Some(payment_kind::KindView::Bolt12offer(x)) => {
                    lemma_nested_round_trip::<Bolt12Offer>(4, x);
                    lemma_absorbed_one::<Self>(s0, bytes_item(4, encoded::<Bolt12Offer>(x)));
                },
                Some(payment_kind::KindView::Bolt12refund(x)) => {
                    lemma_nested_round_trip::<Bolt12Refund>(5, x);
                    lemma_absorbed_one::<Self>(s0, bytes_item(5, encoded::<Bolt12Refund>(x)));
                },
                Some(payment_kind::KindView::Spontaneous(x)) => {
                    lemma_nested_round_trip::<Spontaneous>(6, x);
                    lemma_absorbed_one::<Self>(s0, bytes_item(6, encoded::<Spontaneous>(x)));
                },
                None => {
                    lemma_absorbed_none::<Self>(s0);
                },
            }
        }
        let r1 = i1;
        assert(s1 == v);
    }
}

/// The record of one payment.
#[derive(Clone, Debug, PartialEq, Eq)]
pub struct PaymentDetails {
    pub id: Option<PaymentId>,
    pub kind: Option<PaymentKind>,
    /// The amount in millisatoshis, where known.
    pub amount_msat: Option<u64>,
    /// The number of a `PaymentDirection`.
    pub direction: i32,
    /// The number of a `PaymentStatus`.
    pub status: i32,
    pub latest_update_timestamp: u64,
}

/// What a `PaymentDetails` holds, as specifications see it.
pub struct PaymentDetailsView {
    pub id: Option<PaymentIdView>,
    pub kind: Option<PaymentKindView>,
    pub amount_msat: Option<u64>,
    pub direction: i32,
    pub status: i32,
    pub latest_update_timestamp: u64,
}

impl DeepView for PaymentDetails {
    type V = PaymentDetailsView;

    open spec fn deep_view(&self) -> PaymentDetailsView {
        PaymentDetailsView {
            id: self.id.deep_view(),
            kind: self.kind.deep_view(),
            amount_msat: self.amount_msat.deep_view(),
            direction: self.direction.deep_view(),
            status: self.status.deep_view(),
            latest_update_timestamp: self.latest_update_timestamp.deep_view(),
        }
    }
}

impl View for PaymentDetails {
    type V = PaymentDetailsView;

    open spec fn view(&self) -> PaymentDetailsView {
        self.deep_view()
    }
}

impl Message for PaymentDetails {
    open spec fn blank() -> PaymentDetailsView {
        PaymentDetailsView {
            id: None,
            kind: None,
            amount_msat: None,
            direction: 0,
            status: 0,
            latest_update_timestamp: 0,
        }
    }

    open spec fn absorb(acc: PaymentDetailsView, item: Item) -> Option<PaymentDetailsView> {
        if item.number == 1 {
            match item_nested::<PaymentId>(acc.id, item) {
                Some(x) => Some(PaymentDetailsView { id: Some(x), ..acc }),
                None => None,
            }
        } else if item.number == 2 {
            match item_nested::<PaymentKind>(acc.kind, item) {
                Some(x) => Some(PaymentDetailsView { kind: Some(x), ..acc }),
                None => None,
            }
        } else if item.number == 3 {
            match item_uint64(item) {
                Some(x) => Some(PaymentDetailsView { amount_msat: Some(x), ..acc }),
                None => None,
            }
        } else if item.number == 4 {
            match item_int32(item) {
                Some(x) => Some(PaymentDetailsView { direction: x, ..acc }),
                None => None,
            }
        } else if item.number == 5 {
            match item_int32(item) {
                Some(x) => Some(PaymentDetailsView { status: x, ..acc }),
                None => None,
            }
        } else if item.number == 6 {
            match item_uint64(item) {
                Some(x) => Some(PaymentDetailsView { latest_update_timestamp: x, ..acc }),
                None => None,
            }
        } else {
            Some(acc)
        }
    }

    open spec fn items(v: PaymentDetailsView) -> Seq<Item> {
        nested_items::<PaymentId>(1, v.id)
            + nested_items::<PaymentKind>(2, v.kind)
            + some_uint64_items(3, v.amount_msat)
            + int32_items(4, v.direction)
            + int32_items(5, v.status)
            + uint64_items(6, v.latest_update_timestamp)
    }

    open spec fn fits(v: PaymentDetailsView) -> bool {
        &&& nested_fits::<PaymentId>(v.id)
        &&& nested_fits::<PaymentKind>(v.kind)
    }

    fn fresh() -> (m: Self) {
        let m = PaymentDetails {
            id: None,
            kind: None,
            amount_msat: None,
            direction: 0,
            status: 0,
            latest_update_timestamp: 0,
        };
        m
    }

    fn take(&mut self, field: &Field<'_>) -> (ok: bool) {
        if field.number == 1 {
            take_nested(&mut self.id, field)
        } else if field.number == 2 {
            take_nested(&mut self.kind, field)
        } else if field.number == 3 {
            match field_uint64(field) {
                Some(x) => {
                    self.amount_msat = Some(x);
                    true
                },
                None => false,
            }
        } else if field.number == 4 {
            match field_int32(field) {
                Some(x) => {
                    self.direction = x;
                    true
                },
                None => false,
            }
        } else if field.number == 5 {
            match field_int32(field) {
                Some(x) => {
                    self.status = x;
                    true
                },
                None => false,
            }
        } else if field.number == 6 {
            match field_uint64(field) {
                Some(x) => {
                    self.latest_update_timestamp = x;
                    true
                },
                None => false,
            }
        } else {
            true
        }
    }

    fn emit(&self, out: &mut Vec<u8>) {
        let ghost v = self.deep_view();
        put_nested(1, &self.id, out);
        let ghost run = nested_items::<PaymentId>(1, v.id);
        let ghost mid = out@;
        put_nested(2, &self.kind, out);
        proof {
            lemma_items_bytes_extend(
                old(out)@,
                mid,
                out@,
                run,
                nested_items::<PaymentKind>(2, v.kind),
            );
        }
        let ghost run = run + nested_items::<PaymentKind>(2, v.kind);
        let ghost mid = out@;
        put_some_uint64(3, self.amount_msat, out);
        proof {
            lemma_items_bytes_extend(
                old(out)@,
                mid,
                out@,
                run,
                some_uint64_items(3, v.amount_msat),
            );
        }
        let ghost run = run + some_uint64_items(3, v.amount_msat);
        let ghost mid = out@;
        put_int32(4, self.direction, out);
        proof {
            lemma_items_bytes_extend(old(out)@, mid, out@, run, int32_items(4, v.direction));
        }
        let ghost run = run + int32_items(4, v.direction);
        let ghost mid = out@;
        put_int32(5, self.status, out);
        proof {
            lemma_items_bytes_extend(old(out)@, mid, out@, run, int32_items(5, v.status));
        }
        let ghost run = run + int32_items(5, v.status);
        let ghost mid = out@;
        put_uint64(6, self.latest_update_timestamp, out);
        proof {
            lemma_items_bytes_extend(
                old(out)@,
                mid,
                out@,
                run,
                uint64_items(6, v.latest_update_timestamp),
            );
        }
        let ghost run = run + uint64_items(6, v.latest_update_timestamp);
    }
}

impl Lossless for PaymentDetails {
    proof fn lemma_round_trip(v: PaymentDetailsView) {
        let s0 = Self::blank();
        let i1 = nested_items::<PaymentId>(1, v.id);
        let s1 = PaymentDetailsView { id: v.id, ..s0 };
        assert(items_ok(i1) && absorbed::<Self>(s0, i1) == Some(s1)) by {
            reveal(items_ok);
            match v.id {
                Some(x) => {
                    lemma_nested_round_trip::<PaymentId>(1, x);
                    lemma_absorbed_one::<Self>(s0, bytes_item(1, encoded::<PaymentId>(x)));
                },
                None => {
                    lemma_absorbed_none::<Self>(s0);
                },
            }
        }
        let r1 = i1;
        let i2 = nested_items::<PaymentKind>(2, v.kind);
        let s2 = PaymentDetailsView { kind: v.kind, ..s1 };
        assert(items_ok(i2) && absorbed::<Self>(s1, i2) == Some(s2)) by {
            reveal(items_ok);
            match v.kind {
                Some(x) => {
                    lemma_nested_round_trip::<PaymentKind>(2, x);
                    lemma_absorbed_one::<Self>(s1, bytes_item(2, encoded::<PaymentKind>(x)));
                },
                None => {
                    lemma_absorbed_none::<Self>(s1);
                },
            }
        }
        lemma_absorbed_concat::<Self>(s0, r1, i2);
        lemma_items_ok_concat(r1, i2);
        let r2 = r1 + i2;
        let i3 = some_uint64_items(3, v.amount_msat);
        let s3 = PaymentDetailsView { amount_msat: v.amount_msat, ..s2 };
        assert(items_ok(i3) && absorbed::<Self>(s2, i3) == Some(s3)) by {
            reveal(items_ok);
            match v.amount_msat {
                Some(x) => {
                    lemma_absorbed_one::<Self>(s2, scalar_item(3, x as u64));
                },
                None => {
                    lemma_absorbed_none::<Self>(s2);
                },
            }
        }
        lemma_absorbed_concat::<Self>(s0, r2, i3);
        lemma_items_ok_concat(r2, i3);
        let r3 = r2 + i3;
        let i4 = int32_items(4, v.direction);
        let s4 = PaymentDetailsView { direction: v.direction, ..s3 };
        assert(items_ok(i4) && absorbed::<Self>(s3, i4) == Some(s4)) by {
            reveal(items_ok);
            lemma_int32_round_trip(v.direction);
            if v.direction == 0 {
                lemma_absorbed_none::<Self>(s3);
            } else {
                lemma_absorbed_one::<Self>(s3, scalar_item(4, int32_scalar(v.direction)));
            }
        }
        lemma_absorbed_concat::<Self>(s0, r3, i4);
        lemma_items_ok_concat(r3, i4);
        let r4 = r3 + i4;
        let i5 = int32_items(5, v.status);
        let s5 = PaymentDetailsView { status: v.status, ..s4 };
        assert(items_ok(i5) && absorbed::<Self>(s4, i5) == Some(s5)) by {
            reveal(items_ok);
            lemma_int32_round_trip(v.status);
            if v.status == 0 {
                lemma_absorbed_none::<Self>(s4);
            } else {
                lemma_absorbed_one::<Self>(s4, scalar_item(5, int32_scalar(v.status)));
            }
        }
        lemma_absorbed_concat::<Self>(s0, r4, i5);
        lemma_items_ok_concat(r4, i5);
        let r5 = r4 + i5;
        let i6 = uint64_items(6, v.latest_update_timestamp);
        let s6 = PaymentDetailsView { latest_update_timestamp: v.latest_update_timestamp, ..s5 };
        assert(items_ok(i6) && absorbed::<Self>(s5, i6) == Some(s6)) by {
            reveal(items_ok);
            if v.latest_update_timestamp == 0 {
                lemma_absorbed_none::<Self>(s5);
            } else {
                lemma_absorbed_one::<Self>(s5, scalar_item(6, v.latest_update_timestamp as u64));
            }
        }
        lemma_absorbed_concat::<Self>(s0, r5, i6);
        lemma_items_ok_concat(r5, i6);
        let r6 = r5 + i6;
        assert(s6 == v);
    }
}

/// Every payment the node has recorded.
#[derive(Clone, Debug, PartialEq, Eq)]
pub struct PaymentsHistoryResponse {
    pub payments: Vec<PaymentDetails>,
}

/// What a `PaymentsHistoryResponse` holds, as specifications see it.
pub struct PaymentsHistoryResponseView {
    pub payments: Seq<PaymentDetailsView>,
}

impl DeepView for PaymentsHistoryResponse {
    type V = PaymentsHistoryResponseView;

    open spec fn deep_view(&self) -> PaymentsHistoryResponseView {
        PaymentsHistoryResponseView {
            payments: self.payments.deep_view(),
        }
    }
}

impl View for PaymentsHistoryResponse {
    type V = PaymentsHistoryResponseView;

    open spec fn view(&self) -> PaymentsHistoryResponseView {
        self.deep_view()
    }
}

impl Message for PaymentsHistoryResponse {
    open spec fn blank() -> PaymentsHistoryResponseView {
        PaymentsHistoryResponseView {
            payments: Seq::empty(),
        }
    }

    open spec fn absorb(acc: PaymentsHistoryResponseView, item: Item) -> Option<
        PaymentsHistoryResponseView,
    > {
        if item.number == 1 {
            match item_nested::<PaymentDetails>(None, item) {
                Some(x) => Some(PaymentsHistoryResponseView { payments: acc.payments.push(x), ..acc }),
                None => None,
            }
        } else {
            Some(acc)
        }
    }

    open spec fn items(v: PaymentsHistoryResponseView) -> Seq<Item> {
        repeated_items::<PaymentDetails>(1, v.payments)
    }

    open spec fn fits(v: PaymentsHistoryResponseView) -> bool {
        &&& repeated_fits::<PaymentDetails>(v.payments)
    }

    fn fresh() -> (m: Self) {
        let m = PaymentsHistoryResponse {
            payments: Vec::new(),
        };
        assert(m.payments.deep_view() =~= Seq::empty());
        m
    }

    fn take(&mut self, field: &Field<'_>) -> (ok: bool) {
        if field.number == 1 {
            take_repeated(&mut self.payments, field)
        } else {
            true
        }
    }

    fn emit(&self, out: &mut Vec<u8>) {
        let ghost v = self.deep_view();
        put_repeated(1, &self.payments, out);
        let ghost run = repeated_items::<PaymentDetails>(1, v.payments);
    }
}

/// Taking in the fields of a list adds its messages, in order, to what was held.
proof fn lemma_payments_history_response_payments(
    acc: PaymentsHistoryResponseView,
    values: Seq<PaymentDetailsView>,
)
    requires
        repeated_fits::<PaymentDetails>(values),
    ensures
        items_ok(repeated_items::<PaymentDetails>(1, values)),
        absorbed::<PaymentsHistoryResponse>(acc, repeated_items::<PaymentDetails>(1, values)) == Some(
            PaymentsHistoryResponseView { payments: acc.payments + values, ..acc },
        ),
    decreases values.len(),
{
    if values.len() == 0 {
        reveal(items_ok);
        lemma_absorbed_none::<PaymentsHistoryResponse>(acc);
        assert(acc.payments + values =~= acc.payments);
    } else {
        let front = values.drop_last();
        let last = values.last();
        let item = bytes_item(1, encoded::<PaymentDetails>(last));
        let mid = PaymentsHistoryResponseView { payments: acc.payments + front, ..acc };
        assert(repeated_fits::<PaymentDetails>(front));
        lemma_payments_history_response_payments(acc, front);
        lemma_nested_round_trip::<PaymentDetails>(1, last);
        lemma_absorbed_one::<PaymentsHistoryResponse>(mid, item);
        let run = repeated_items::<PaymentDetails>(1, front);
        assert(repeated_items::<PaymentDetails>(1, values) =~= run + seq![item]);
        lemma_absorbed_concat::<PaymentsHistoryResponse>(acc, run, seq![item]);
        assert(item_ok(item));
        lemma_items_ok_push(run, item);
        assert((acc.payments + front).push(last) =~= acc.payments + values);
    }
}

impl Lossless for PaymentsHistoryResponse {
    proof fn lemma_round_trip(v: PaymentsHistoryResponseView) {
        let s0 = Self::blank();
        let i1 = repeated_items::<PaymentDetails>(1, v.payments);
        let s1 = PaymentsHistoryResponseView { payments: v.payments, ..s0 };
        assert(items_ok(i1) && absorbed::<Self>(s0, i1) == Some(s1)) by {
            lemma_payments_history_response_payments(s0, v.payments);
            assert(s0.payments + v.payments =~= v.payments);
        }
        let r1 = i1;
        assert(s1 == v);
    }
}

} // verus!
