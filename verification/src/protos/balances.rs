//! Balances: the totals, and each channel balance and pending sweep by its kind.

use crate::codec::field::{
    Field, Item, item_ok, items_bytes, items_ok, lemma_items_ok_concat, lemma_items_ok_push,
};
use crate::codec::message::{
    absorbed, encoded, lemma_absorbed_concat, lemma_absorbed_none, lemma_absorbed_one,
    lemma_items_bytes_extend, Lossless, Message,
};
use crate::codec::value::{
    bytes_item, field_text, field_uint32, field_uint64, item_nested, item_text, item_uint32,
    item_uint64, lemma_items_bytes_one, lemma_joined_size, lemma_nested_round_trip,
    lemma_short_run_size, lemma_text_round_trip, message_fits, put_message, put_repeated,
    put_some_text, put_text, put_uint32, put_uint64, repeated_fits, repeated_items, scalar_item,
    some_text_fits, some_text_items, take_nested, take_repeated, text_fits, text_items,
    uint32_items, uint64_items,
};
use crate::protos::{lightning_balance, pending_sweep_balance};
use vstd::prelude::*;
use vstd::utf8::encode_utf8;

verus! {

/// Asks for the node's balances.
#[derive(Clone, Debug, PartialEq, Eq)]
pub struct GetBalancesRequest {}

/// What a `GetBalancesRequest` holds, as specifications see it.
pub struct GetBalancesRequestView {}

impl DeepView for GetBalancesRequest {
    type V = GetBalancesRequestView;

    open spec fn deep_view(&self) -> GetBalancesRequestView {
        GetBalancesRequestView {  }
    }
}

impl View for GetBalancesRequest {
    type V = GetBalancesRequestView;

    open spec fn view(&self) -> GetBalancesRequestView {
        self.deep_view()
    }
}

impl Message for GetBalancesRequest {
    open spec fn blank() -> GetBalancesRequestView {
        GetBalancesRequestView {  }
    }

    open spec fn absorb(acc: GetBalancesRequestView, item: Item) -> Option<GetBalancesRequestView> {
        Some(acc)
    }

    open spec fn items(v: GetBalancesRequestView) -> Seq<Item> {
        Seq::empty()
    }

    open spec fn fits(v: GetBalancesRequestView) -> bool {
        true
    }

    fn fresh() -> (m: Self) {
        GetBalancesRequest {  }
    }

    fn take(&mut self, field: &Field<'_>) -> (ok: bool) {
        true
    }

    fn emit(&self, out: &mut Vec<u8>) {
        assert(out@ =~= old(out)@ + items_bytes(Seq::empty()));
    }
}

impl Lossless for GetBalancesRequest {
    proof fn lemma_round_trip(v: GetBalancesRequestView) {
        reveal(items_ok);
        lemma_absorbed_none::<Self>(v);
    }
}

/// A balance that becomes the node's when the channel closes.
#[derive(Clone, Debug, PartialEq, Eq)]
pub struct ClaimableOnChannelClose {
    /// The channel, in hexadecimal.
    pub channel_id: String,
    /// The channel's other party, in hexadecimal.
    pub counterparty_node_id: String,
    pub amount_satoshis: u64,
}

/// What a `ClaimableOnChannelClose` holds, as specifications see it.
pub struct ClaimableOnChannelCloseView {
    pub channel_id: Seq<char>,
    pub counterparty_node_id: Seq<char>,
    pub amount_satoshis: u64,
}

impl DeepView for ClaimableOnChannelClose {
    type V = ClaimableOnChannelCloseView;

    open spec fn deep_view(&self) -> ClaimableOnChannelCloseView {
        ClaimableOnChannelCloseView {
            channel_id: self.channel_id.deep_view(),
            counterparty_node_id: self.counterparty_node_id.deep_view(),
            amount_satoshis: self.amount_satoshis.deep_view(),
        }
    }
}

impl View for ClaimableOnChannelClose {
    type V = ClaimableOnChannelCloseView;

    open spec fn view(&self) -> ClaimableOnChannelCloseView {
        self.deep_view()
    }
}

impl Message for ClaimableOnChannelClose {
    open spec fn blank() -> ClaimableOnChannelCloseView {
        ClaimableOnChannelCloseView {
            channel_id: Seq::empty(),
            counterparty_node_id: Seq::empty(),
            amount_satoshis: 0,
        }
    }

    open spec fn absorb(acc: ClaimableOnChannelCloseView, item: Item) -> Option<
        ClaimableOnChannelCloseView,
    > {
        if item.number == 1 {
            match item_text(item) {
                Some(x) => Some(ClaimableOnChannelCloseView { channel_id: x, ..acc }),
                None => None,
            }
        } else if item.number == 2 {
            match item_text(item) {
                Some(x) => Some(ClaimableOnChannelCloseView { counterparty_node_id: x, ..acc }),
                None => None,
            }
        } else if item.number == 3 {
            match item_uint64(item) {
                Some(x) => Some(ClaimableOnChannelCloseView { amount_satoshis: x, ..acc }),
                None => None,
            }
        } else {
            Some(acc)
        }
    }

    open spec fn items(v: ClaimableOnChannelCloseView) -> Seq<Item> {
        text_items(1, v.channel_id)
            + text_items(2, v.counterparty_node_id)
            + uint64_items(3, v.amount_satoshis)
    }

    open spec fn fits(v: ClaimableOnChannelCloseView) -> bool {
        &&& text_fits(v.channel_id)
        &&& text_fits(v.counterparty_node_id)
    }

    fn fresh() -> (m: Self) {
        let m = ClaimableOnChannelClose {
            channel_id: String::new(),
            counterparty_node_id: String::new(),
            amount_satoshis: 0,
        };
        m
    }

    fn take(&mut self, field: &Field<'_>) -> (ok: bool) {
        if field.number == 1 {
            match field_text(field) {
                Some(x) => {
                    self.channel_id = x;
                    true
                },
                None => false,
            }
        } else if field.number == 2 {
            match field_text(field) {
                Some(x) => {
                    self.counterparty_node_id = x;
                    true
                },
                None => false,
            }
        } else if field.number == 3 {
            match field_uint64(field) {
                Some(x) => {
                    self.amount_satoshis = x;
                    true
                },
                None => false,
            }
        } else {
            true
        }
    }

    fn emit(&self, out: &mut Vec<u8>) {
        let ghost v = self.deep_view();
        put_text(1, &self.channel_id, out);
        let ghost run = text_items(1, v.channel_id);
        let ghost mid = out@;
        put_text(2, &self.counterparty_node_id, out);
        proof {
            lemma_items_bytes_extend(
                old(out)@,
                mid,
                out@,
                run,
                text_items(2, v.counterparty_node_id),
            );
        }
        let ghost run = run + text_items(2, v.counterparty_node_id);
        let ghost mid = out@;
        put_uint64(3, self.amount_satoshis, out);
        proof {
            lemma_items_bytes_extend(old(out)@, mid, out@, run, uint64_items(3, v.amount_satoshis));
        }
        let ghost run = run + uint64_items(3, v.amount_satoshis);
    }
}

/// The bytes of a `ClaimableOnChannelClose` are no more than its texts, bytes and nested
/// messages together, and twenty bytes for each field.
pub proof fn lemma_claimable_on_channel_close_size(v: ClaimableOnChannelCloseView)
    ensures
        encoded::<ClaimableOnChannelClose>(v).len() <= 60
            + encode_utf8(v.channel_id).len()
            + encode_utf8(v.counterparty_node_id).len(),
{
    let i1 = text_items(1, v.channel_id);
    let n1: nat = encode_utf8(v.channel_id).len();
    lemma_short_run_size(i1, n1);
    let r1 = i1;
    let b1: nat = 20 + n1;
    let i2 = text_items(2, v.counterparty_node_id);
    let n2: nat = encode_utf8(v.counterparty_node_id).len();
    lemma_short_run_size(i2, n2);
    lemma_joined_size(r1, i2, b1, 20 + n2);
    let r2 = r1 + i2;
    let b2: nat = b1 + 20 + n2;
    let i3 = uint64_items(3, v.amount_satoshis);
    let n3: nat = 0;
    lemma_short_run_size(i3, n3);
    lemma_joined_size(r2, i3, b2, 20 + n3);
    let r3 = r2 + i3;
    let b3: nat = b2 + 20 + n3;
}

impl Lossless for ClaimableOnChannelClose {
    proof fn lemma_round_trip(v: ClaimableOnChannelCloseView) {
        let s0 = Self::blank();
        let i1 = text_items(1, v.channel_id);
        let s1 = ClaimableOnChannelCloseView { channel_id: v.channel_id, ..s0 };
        assert(items_ok(i1) && absorbed::<Self>(s0, i1) == Some(s1)) by {
            reveal(items_ok);
            if v.channel_id.len() == 0 {
                assert(v.channel_id =~= Seq::<char>::empty());
                lemma_absorbed_none::<Self>(s0);
            } else {
                lemma_text_round_trip(1, v.channel_id);
                lemma_absorbed_one::<Self>(s0, bytes_item(1, encode_utf8(v.channel_id)));
            }
        }
        let r1 = i1;
        let i2 = text_items(2, v.counterparty_node_id);
        let s2 = ClaimableOnChannelCloseView { counterparty_node_id: v.counterparty_node_id, ..s1 };
        assert(items_ok(i2) && absorbed::<Self>(s1, i2) == Some(s2)) by {
            reveal(items_ok);
            if v.counterparty_node_id.len() == 0 {
                assert(v.counterparty_node_id =~= Seq::<char>::empty());
                lemma_absorbed_none::<Self>(s1);
            } else {
                lemma_text_round_trip(2, v.counterparty_node_id);
                lemma_absorbed_one::<Self>(s1, bytes_item(2, encode_utf8(v.counterparty_node_id)));
            }
        }
        lemma_absorbed_concat::<Self>(s0, r1, i2);
        lemma_items_ok_concat(r1, i2);
        let r2 = r1 + i2;
        let i3 = uint64_items(3, v.amount_satoshis);
        let s3 = ClaimableOnChannelCloseView { amount_satoshis: v.amount_satoshis, ..s2 };
        assert(items_ok(i3) && absorbed::<Self>(s2, i3) == Some(s3)) by {
            reveal(items_ok);
            if v.amount_satoshis == 0 {
                lemma_absorbed_none::<Self>(s2);
            } else {
                lemma_absorbed_one::<Self>(s2, scalar_item(3, v.amount_satoshis as u64));
            }
        }
        lemma_absorbed_concat::<Self>(s0, r2, i3);
        lemma_items_ok_concat(r2, i3);
        let r3 = r2 + i3;
        assert(s3 == v);
    }
}

/// A balance of a closed channel that waits for confirmations.
#[derive(Clone, Debug, PartialEq, Eq)]
pub struct ClaimableAwaitingConfirmations {
    /// The channel, in hexadecimal.
    pub channel_id: String,
    /// The channel's other party, in hexadecimal.
    pub counterparty_node_id: String,
    pub amount_satoshis: u64,
    /// The height at which the balance can be spent.
    pub confirmation_height: u32,
}

/// What a `ClaimableAwaitingConfirmations` holds, as specifications see it.
pub struct ClaimableAwaitingConfirmationsView {
    pub channel_id: Seq<char>,
    pub counterparty_node_id: Seq<char>,
    pub amount_satoshis: u64,
    pub confirmation_height: u32,
}

impl DeepView for ClaimableAwaitingConfirmations {
    type V = ClaimableAwaitingConfirmationsView;

    open spec fn deep_view(&self) -> ClaimableAwaitingConfirmationsView {
        ClaimableAwaitingConfirmationsView {
            channel_id: self.channel_id.deep_view(),
            counterparty_node_id: self.counterparty_node_id.deep_view(),
            amount_satoshis: self.amount_satoshis.deep_view(),
            confirmation_height: self.confirmation_height.deep_view(),
        }
    }
}

impl View for ClaimableAwaitingConfirmations {
    type V = ClaimableAwaitingConfirmationsView;

    open spec fn view(&self) -> ClaimableAwaitingConfirmationsView {
        self.deep_view()
    }
}

impl Message for ClaimableAwaitingConfirmations {
    open spec fn blank() -> ClaimableAwaitingConfirmationsView {
        ClaimableAwaitingConfirmationsView {
            channel_id: Seq::empty(),
            counterparty_node_id: Seq::empty(),
            amount_satoshis: 0,
            confirmation_height: 0,
        }
    }

    open spec fn absorb(acc: ClaimableAwaitingConfirmationsView, item: Item) -> Option<
        ClaimableAwaitingConfirmationsView,
    > {
        if item.number == 1 {
            match item_text(item) {
                Some(x) => Some(ClaimableAwaitingConfirmationsView { channel_id: x, ..acc }),
                None => None,
            }
        } else if item.number == 2 {
            match item_text(item) {
                Some(x) => Some(ClaimableAwaitingConfirmationsView { counterparty_node_id: x, ..acc }),
                None => None,
            }
        } else if item.number == 3 {
            match item_uint64(item) {
                Some(x) => Some(ClaimableAwaitingConfirmationsView { amount_satoshis: x, ..acc }),
                None => None,
            }
        } else if item.number == 4 {
            match item_uint32(item) {
                Some(x) => Some(ClaimableAwaitingConfirmationsView { confirmation_height: x, ..acc }),
                None => None,
            }
        } else {
            Some(acc)
        }
    }

    open spec fn items(v: ClaimableAwaitingConfirmationsView) -> Seq<Item> {
        text_items(1, v.channel_id)
            + text_items(2, v.counterparty_node_id)
            + uint64_items(3, v.amount_satoshis)
            + uint32_items(4, v.confirmation_height)
    }

    open spec fn fits(v: ClaimableAwaitingConfirmationsView) -> bool {
        &&& text_fits(v.channel_id)
        &&& text_fits(v.counterparty_node_id)
    }

    fn fresh() -> (m: Self) {
        let m = ClaimableAwaitingConfirmations {
            channel_id: String::new(),
            counterparty_node_id: String::new(),
            amount_satoshis: 0,
            confirmation_height: 0,
        };
        m
    }

    fn take(&mut self, field: &Field<'_>) -> (ok: bool) {
        if field.number == 1 {
            match field_text(field) {
                Some(x) => {
                    self.channel_id = x;
                    true
                },
                None => false,
            }
        } else if field.number == 2 {
            match field_text(field) {
                Some(x) => {
                    self.counterparty_node_id = x;
                    true
                },
                None => false,
            }
        } else if field.number == 3 {
            match field_uint64(field) {
                Some(x) => {
                    self.amount_satoshis = x;
                    true
                },
                None => false,
            }
        } else if field.number == 4 {
            match field_uint32(field) {
                Some(x) => {
                    self.confirmation_height = x;
                    true
                },
                None => false,
            }
        } else {
            true
        }
    }

    fn emit(&self, out: &mut Vec<u8>) {
        let ghost v = self.deep_view();
        put_text(1, &self.channel_id, out);
        let ghost run = text_items(1, v.channel_id);
        let ghost mid = out@;
        put_text(2, &self.counterparty_node_id, out);
        proof {
            lemma_items_bytes_extend(
                old(out)@,
                mid,
                out@,
                run,
                text_items(2, v.counterparty_node_id),
            );
        }
        let ghost run = run + text_items(2, v.counterparty_node_id);
        let ghost mid = out@;
        put_uint64(3, self.amount_satoshis, out);
        proof {
            lemma_items_bytes_extend(old(out)@, mid, out@, run, uint64_items(3, v.amount_satoshis));
        }
        let ghost run = run + uint64_items(3, v.amount_satoshis);
        let ghost mid = out@;
        put_uint32(4, self.confirmation_height, out);
        proof {
            lemma_items_bytes_extend(
                old(out)@,
                mid,
                out@,
                run,
                uint32_items(4, v.confirmation_height),
            );
        }
        let ghost run = run + uint32_items(4, v.confirmation_height);
    }
}

/// The bytes of a `ClaimableAwaitingConfirmations` are no more than its texts, bytes and nested
/// messages together, and twenty bytes for each field.
pub proof fn lemma_claimable_awaiting_confirmations_size(v: ClaimableAwaitingConfirmationsView)
    ensures
        encoded::<ClaimableAwaitingConfirmations>(v).len() <= 80
            + encode_utf8(v.channel_id).len()
            + encode_utf8(v.counterparty_node_id).len(),
{
    let i1 = text_items(1, v.channel_id);
    let n1: nat = encode_utf8(v.channel_id).len();
    lemma_short_run_size(i1, n1);
    let r1 = i1;
    let b1: nat = 20 + n1;
    let i2 = text_items(2, v.counterparty_node_id);
    let n2: nat = encode_utf8(v.counterparty_node_id).len();
    lemma_short_run_size(i2, n2);
    lemma_joined_size(r1, i2, b1, 20 + n2);
    let r2 = r1 + i2;
    let b2: nat = b1 + 20 + n2;
    let i3 = uint64_items(3, v.amount_satoshis);
    let n3: nat = 0;
    lemma_short_run_size(i3, n3);
    lemma_joined_size(r2, i3, b2, 20 + n3);
    let r3 = r2 + i3;
    let b3: nat = b2 + 20 + n3;
    let i4 = uint32_items(4, v.confirmation_height);
    let n4: nat = 0;
    lemma_short_run_size(i4, n4);
    lemma_joined_size(r3, i4, b3, 20 + n4);
    let r4 = r3 + i4;
    let b4: nat = b3 + 20 + n4;
}

impl Lossless for ClaimableAwaitingConfirmations {
    proof fn lemma_round_trip(v: ClaimableAwaitingConfirmationsView) {
        let s0 = Self::blank();
        let i1 = text_items(1, v.channel_id);
        let s1 = ClaimableAwaitingConfirmationsView { channel_id: v.channel_id, ..s0 };
        assert(items_ok(i1) && absorbed::<Self>(s0, i1) == Some(s1)) by {
            reveal(items_ok);
            if v.channel_id.len() == 0 {
                assert(v.channel_id =~= Seq::<char>::empty());
                lemma_absorbed_none::<Self>(s0);
            } else {
                lemma_text_round_trip(1, v.channel_id);
                lemma_absorbed_one::<Self>(s0, bytes_item(1, encode_utf8(v.channel_id)));
            }
        }
        let r1 = i1;
        let i2 = text_items(2, v.counterparty_node_id);
        let s2 = ClaimableAwaitingConfirmationsView { counterparty_node_id: v.counterparty_node_id, ..s1 };
        assert(items_ok(i2) && absorbed::<Self>(s1, i2) == Some(s2)) by {
            reveal(items_ok);
            if v.counterparty_node_id.len() == 0 {
                assert(v.counterparty_node_id =~= Seq::<char>::empty());
                lemma_absorbed_none::<Self>(s1);
            } else {
                lemma_text_round_trip(2, v.counterparty_node_id);
                lemma_absorbed_one::<Self>(s1, bytes_item(2, encode_utf8(v.counterparty_node_id)));
            }
        }
        lemma_absorbed_concat::<Self>(s0, r1, i2);
        lemma_items_ok_concat(r1, i2);
        let r2 = r1 + i2;
        let i3 = uint64_items(3, v.amount_satoshis);
        let s3 = ClaimableAwaitingConfirmationsView { amount_satoshis: v.amount_satoshis, ..s2 };
        assert(items_ok(i3) && absorbed::<Self>(s2, i3) == Some(s3)) by {
            reveal(items_ok);
            if v.amount_satoshis == 0 {
                lemma_absorbed_none::<Self>(s2);
            } else {
                lemma_absorbed_one::<Self>(s2, scalar_item(3, v.amount_satoshis as u64));
            }
        }
        lemma_absorbed_concat::<Self>(s0, r2, i3);
        lemma_items_ok_concat(r2, i3);
        let r3 = r2 + i3;
        let i4 = uint32_items(4, v.confirmation_height);
        let s4 = ClaimableAwaitingConfirmationsView { confirmation_height: v.confirmation_height, ..s3 };
        assert(items_ok(i4) && absorbed::<Self>(s3, i4) == Some(s4)) by {
            reveal(items_ok);
            if v.confirmation_height == 0 {
                lemma_absorbed_none::<Self>(s3);
            } else {
                lemma_absorbed_one::<Self>(s3, scalar_item(4, v.confirmation_height as u64));
            }
        }
        lemma_absorbed_concat::<Self>(s0, r3, i4);
        lemma_items_ok_concat(r3, i4);
        let r4 = r3 + i4;
        assert(s4 == v);
    }
}

/// A balance the node can claim, but which the other party takes after a
/// timeout.
#[derive(Clone, Debug, PartialEq, Eq)]
pub struct ContentiousClaimable {
    /// The channel, in hexadecimal.
    pub channel_id: String,
    /// The channel's other party, in hexadecimal.
    pub counterparty_node_id: String,
    pub amount_satoshis: u64,
    /// The height at which the other party may take it.
    pub timeout_height: u32,
    /// The payment's hash, in hexadecimal.
    pub payment_hash: String,
    /// The payment's preimage, in hexadecimal.
    pub payment_preimage: String,
}

/// What a `ContentiousClaimable` holds, as specifications see it.
pub struct ContentiousClaimableView {
    pub channel_id: Seq<char>,
    pub counterparty_node_id: Seq<char>,
    pub amount_satoshis: u64,
    pub timeout_height: u32,
    pub payment_hash: Seq<char>,
    pub payment_preimage: Seq<char>,
}

impl DeepView for ContentiousClaimable {
    type V = ContentiousClaimableView;

    open spec fn deep_view(&self) -> ContentiousClaimableView {
        ContentiousClaimableView {
            channel_id: self.channel_id.deep_view(),
            counterparty_node_id: self.counterparty_node_id.deep_view(),
            amount_satoshis: self.amount_satoshis.deep_view(),
            timeout_height: self.timeout_height.deep_view(),
            payment_hash: self.payment_hash.deep_view(),
            payment_preimage: self.payment_preimage.deep_view(),
        }
    }
}

impl View for ContentiousClaimable {
    type V = ContentiousClaimableView;

    open spec fn view(&self) -> ContentiousClaimableView {
        self.deep_view()
    }
}

impl Message for ContentiousClaimable {
    open spec fn blank() -> ContentiousClaimableView {
        ContentiousClaimableView {
            channel_id: Seq::empty(),
            counterparty_node_id: Seq::empty(),
            amount_satoshis: 0,
            timeout_height: 0,
            payment_hash: Seq::empty(),
            payment_preimage: Seq::empty(),
        }
    }

    open spec fn absorb(acc: ContentiousClaimableView, item: Item) -> Option<
        ContentiousClaimableView,
    > {
        if item.number == 1 {
            match item_text(item) {
                Some(x) => Some(ContentiousClaimableView { channel_id: x, ..acc }),
                None => None,
            }
        } else if item.number == 2 {
            match item_text(item) {
                Some(x) => Some(ContentiousClaimableView { counterparty_node_id: x, ..acc }),
                None => None,
            }
        } else if item.number == 3 {
            match item_uint64(item) {
                Some(x) => Some(ContentiousClaimableView { amount_satoshis: x, ..acc }),
                None => None,
            }
        } else if item.number == 4 {
            match item_uint32(item) {
                Some(x) => Some(ContentiousClaimableView { timeout_height: x, ..acc }),
                None => None,
            }
        } else if item.number == 5 {
            match item_text(item) {
                Some(x) => Some(ContentiousClaimableView { payment_hash: x, ..acc }),
                None => None,
            }
        } else if item.number == 6 {
            match item_text(item) {
                Some(x) => Some(ContentiousClaimableView { payment_preimage: x, ..acc }),
                None => None,
            }
        } else {
            Some(acc)
        }
    }

    open spec fn items(v: ContentiousClaimableView) -> Seq<Item> {
        text_items(1, v.channel_id)
            + text_items(2, v.counterparty_node_id)
            + uint64_items(3, v.amount_satoshis)
            + uint32_items(4, v.timeout_height)
            + text_items(5, v.payment_hash)
            + text_items(6, v.payment_preimage)
    }

    open spec fn fits(v: ContentiousClaimableView) -> bool {
        &&& text_fits(v.channel_id)
        &&& text_fits(v.counterparty_node_id)
        &&& text_fits(v.payment_hash)
        &&& text_fits(v.payment_preimage)
    }

    fn fresh() -> (m: Self) {
        let m = ContentiousClaimable {
            channel_id: String::new(),
            counterparty_node_id: String::new(),
            amount_satoshis: 0,
            timeout_height: 0,
            payment_hash: String::new(),
            payment_preimage: String::new(),
        };
        m
    }

    fn take(&mut self, field: &Field<'_>) -> (ok: bool) {
        if field.number == 1 {
            match field_text(field) {
                Some(x) => {
                    self.channel_id = x;
                    true
                },
                None => false,
            }
        } else if field.number == 2 {
            match field_text(field) {
                Some(x) => {
                    self.counterparty_node_id = x;
                    true
                },
                None => false,
            }
        } else if field.number == 3 {
            match field_uint64(field) {
                Some(x) => {
                    self.amount_satoshis = x;
                    true
                },
                None => false,
            }
        } else if field.number == 4 {
            match field_uint32(field) {
                Some(x) => {
                    self.timeout_height = x;
                    true
                },
                None => false,
            }
        } else if field.number == 5 {
            match field_text(field) {
                Some(x) => {
                    self.payment_hash = x;
                    true
                },
                None => false,
            }
        } else if field.number == 6 {
            match field_text(field) {
                Some(x) => {
                    self.payment_preimage = x;
                    true
                },
                None => false,
            }
        } else {
            true
        }
    }

    fn emit(&self, out: &mut Vec<u8>) {
        let ghost v = self.deep_view();
        put_text(1, &self.channel_id, out);
        let ghost run = text_items(1, v.channel_id);
        let ghost mid = out@;
        put_text(2, &self.counterparty_node_id, out);
        proof {
            lemma_items_bytes_extend(
                old(out)@,
                mid,
                out@,
                run,
                text_items(2, v.counterparty_node_id),
            );
        }
        let ghost run = run + text_items(2, v.counterparty_node_id);
        let ghost mid = out@;
        put_uint64(3, self.amount_satoshis, out);
        proof {
            lemma_items_bytes_extend(old(out)@, mid, out@, run, uint64_items(3, v.amount_satoshis));
        }
        let ghost run = run + uint64_items(3, v.amount_satoshis);
        let ghost mid = out@;
        put_uint32(4, self.timeout_height, out);
        proof {
            lemma_items_bytes_extend(old(out)@, mid, out@, run, uint32_items(4, v.timeout_height));
        }
        let ghost run = run + uint32_items(4, v.timeout_height);
        let ghost mid = out@;
        put_text(5, &self.payment_hash, out);
        proof {
            lemma_items_bytes_extend(old(out)@, mid, out@, run, text_items(5, v.payment_hash));
        }
        let ghost run = run + text_items(5, v.payment_hash);
        let ghost mid = out@;
        put_text(6, &self.payment_preimage, out);
        proof {
            lemma_items_bytes_extend(old(out)@, mid, out@, run, text_items(6, v.payment_preimage));
        }
        let ghost run = run + text_items(6, v.payment_preimage);
    }
}

/// The bytes of a `ContentiousClaimable` are no more than its texts, bytes and nested
/// messages together, and twenty bytes for each field.
pub proof fn lemma_contentious_claimable_size(v: ContentiousClaimableView)
    ensures
        encoded::<ContentiousClaimable>(v).len() <= 120
            + encode_utf8(v.channel_id).len()
            + encode_utf8(v.counterparty_node_id).len()
            + encode_utf8(v.payment_hash).len()
            + encode_utf8(v.payment_preimage).len(),
{
    let i1 = text_items(1, v.channel_id);
    let n1: nat = encode_utf8(v.channel_id).len();
    lemma_short_run_size(i1, n1);
    let r1 = i1;
    let b1: nat = 20 + n1;
    let i2 = text_items(2, v.counterparty_node_id);
    let n2: nat = encode_utf8(v.counterparty_node_id).len();
    lemma_short_run_size(i2, n2);
    lemma_joined_size(r1, i2, b1, 20 + n2);
    let r2 = r1 + i2;
    let b2: nat = b1 + 20 + n2;
    let i3 = uint64_items(3, v.amount_satoshis);
    let n3: nat = 0;
    lemma_short_run_size(i3, n3);
    lemma_joined_size(r2, i3, b2, 20 + n3);
    let r3 = r2 + i3;
    let b3: nat = b2 + 20 + n3;
    let i4 = uint32_items(4, v.timeout_height);
    let n4: nat = 0;
    lemma_short_run_size(i4, n4);
    lemma_joined_size(r3, i4, b3, 20 + n4);
    let r4 = r3 + i4;
    let b4: nat = b3 + 20 + n4;
    let i5 = text_items(5, v.payment_hash);
    let n5: nat = encode_utf8(v.payment_hash).len();
    lemma_short_run_size(i5, n5);
    lemma_joined_size(r4, i5, b4, 20 + n5);
    let r5 = r4 + i5;
    let b5: nat = b4 + 20 + n5;
    let i6 = text_items(6, v.payment_preimage);
    let n6: nat = encode_utf8(v.payment_preimage).len();
    lemma_short_run_size(i6, n6);
    lemma_joined_size(r5, i6, b5, 20 + n6);
    let r6 = r5 + i6;
    let b6: nat = b5 + 20 + n6;
}

impl Lossless for ContentiousClaimable {
    proof fn lemma_round_trip(v: ContentiousClaimableView) {
        let s0 = Self::blank();
        let i1 = text_items(1, v.channel_id);
        let s1 = ContentiousClaimableView { channel_id: v.channel_id, ..s0 };
        assert(items_ok(i1) && absorbed::<Self>(s0, i1) == Some(s1)) by {
            reveal(items_ok);
            if v.channel_id.len() == 0 {
                assert(v.channel_id =~= Seq::<char>::empty());
                lemma_absorbed_none::<Self>(s0);
            } else {
                lemma_text_round_trip(1, v.channel_id);
                lemma_absorbed_one::<Self>(s0, bytes_item(1, encode_utf8(v.channel_id)));
            }
        }
        let r1 = i1;
        let i2 = text_items(2, v.counterparty_node_id);
        let s2 = ContentiousClaimableView { counterparty_node_id: v.counterparty_node_id, ..s1 };
        assert(items_ok(i2) && absorbed::<Self>(s1, i2) == Some(s2)) by {
            reveal(items_ok);
            if v.counterparty_node_id.len() == 0 {
                assert(v.counterparty_node_id =~= Seq::<char>::empty());
                lemma_absorbed_none::<Self>(s1);
            } else {
                lemma_text_round_trip(2, v.counterparty_node_id);
                lemma_absorbed_one::<Self>(s1, bytes_item(2, encode_utf8(v.counterparty_node_id)));
            }
        }
        lemma_absorbed_concat::<Self>(s0, r1, i2);
        lemma_items_ok_concat(r1, i2);
        let r2 = r1 + i2;
        let i3 = uint64_items(3, v.amount_satoshis);
        let s3 = ContentiousClaimableView { amount_satoshis: v.amount_satoshis, ..s2 };
        assert(items_ok(i3) && absorbed::<Self>(s2, i3) == Some(s3)) by {
            reveal(items_ok);
            if v.amount_satoshis == 0 {
                lemma_absorbed_none::<Self>(s2);
            } else {
                lemma_absorbed_one::<Self>(s2, scalar_item(3, v.amount_satoshis as u64));
            }
        }
        lemma_absorbed_concat::<Self>(s0, r2, i3);
        lemma_items_ok_concat(r2, i3);
        let r3 = r2 + i3;
        let i4 = uint32_items(4, v.timeout_height);
        let s4 = ContentiousClaimableView { timeout_height: v.timeout_height, ..s3 };
        assert(items_ok(i4) && absorbed::<Self>(s3, i4) == Some(s4)) by {
            reveal(items_ok);
            if v.timeout_height == 0 {
                lemma_absorbed_none::<Self>(s3);
            } else {
                lemma_absorbed_one::<Self>(s3, scalar_item(4, v.timeout_height as u64));
            }
        }
        lemma_absorbed_concat::<Self>(s0, r3, i4);
        lemma_items_ok_concat(r3, i4);
        let r4 = r3 + i4;
        let i5 = text_items(5, v.payment_hash);
        let s5 = ContentiousClaimableView { payment_hash: v.payment_hash, ..s4 };
        assert(items_ok(i5) && absorbed::<Self>(s4, i5) == Some(s5)) by {
            reveal(items_ok);
            if v.payment_hash.len() == 0 {
                assert(v.payment_hash =~= Seq::<char>::empty());
                lemma_absorbed_none::<Self>(s4);
            } else {
                lemma_text_round_trip(5, v.payment_hash);
                lemma_absorbed_one::<Self>(s4, bytes_item(5, encode_utf8(v.payment_hash)));
            }
        }
        lemma_absorbed_concat::<Self>(s0, r4, i5);
        lemma_items_ok_concat(r4, i5);
        let r5 = r4 + i5;
        let i6 = text_items(6, v.payment_preimage);
        let s6 = ContentiousClaimableView { payment_preimage: v.payment_preimage, ..s5 };
        assert(items_ok(i6) && absorbed::<Self>(s5, i6) == Some(s6)) by {
            reveal(items_ok);
            if v.payment_preimage.len() == 0 {
                assert(v.payment_preimage =~= Seq::<char>::empty());
                lemma_absorbed_none::<Self>(s5);
            } else {
                lemma_text_round_trip(6, v.payment_preimage);
                lemma_absorbed_one::<Self>(s5, bytes_item(6, encode_utf8(v.payment_preimage)));
            }
        }
        lemma_absorbed_concat::<Self>(s0, r5, i6);
        lemma_items_ok_concat(r5, i6);
        let r6 = r5 + i6;
        assert(s6 == v);
    }
}

/// An outbound payment in flight that the node gets back if it times out.
#[derive(Clone, Debug, PartialEq, Eq)]
pub struct MaybeTimeoutClaimableHtlc {
    /// The channel, in hexadecimal.
    pub channel_id: String,
    /// The channel's other party, in hexadecimal.
    pub counterparty_node_id: String,
    pub amount_satoshis: u64,
    /// The height at which the node can claim it.
    pub claimable_height: u32,
    /// The payment's hash, in hexadecimal.
    pub payment_hash: String,
}

/// What a `MaybeTimeoutClaimableHtlc` holds, as specifications see it.
pub struct MaybeTimeoutClaimableHtlcView {
    pub channel_id: Seq<char>,
    pub counterparty_node_id: Seq<char>,
    pub amount_satoshis: u64,
    pub claimable_height: u32,
    pub payment_hash: Seq<char>,
}

impl DeepView for MaybeTimeoutClaimableHtlc {
    type V = MaybeTimeoutClaimableHtlcView;

    open spec fn deep_view(&self) -> MaybeTimeoutClaimableHtlcView {
        MaybeTimeoutClaimableHtlcView {
            channel_id: self.channel_id.deep_view(),
            counterparty_node_id: self.counterparty_node_id.deep_view(),
            amount_satoshis: self.amount_satoshis.deep_view(),
            claimable_height: self.claimable_height.deep_view(),
            payment_hash: self.payment_hash.deep_view(),
        }
    }
}

impl View for MaybeTimeoutClaimableHtlc {
    type V = MaybeTimeoutClaimableHtlcView;

    open spec fn view(&self) -> MaybeTimeoutClaimableHtlcView {
        self.deep_view()
    }
}

impl Message for MaybeTimeoutClaimableHtlc {
    open spec fn blank() -> MaybeTimeoutClaimableHtlcView {
        MaybeTimeoutClaimableHtlcView {
            channel_id: Seq::empty(),
            counterparty_node_id: Seq::empty(),
            amount_satoshis: 0,
            claimable_height: 0,
            payment_hash: Seq::empty(),
        }
    }

    open spec fn absorb(acc: MaybeTimeoutClaimableHtlcView, item: Item) -> Option<
        MaybeTimeoutClaimableHtlcView,
    > {
        if item.number == 1 {
            match item_text(item) {
                Some(x) => Some(MaybeTimeoutClaimableHtlcView { channel_id: x, ..acc }),
                None => None,
            }
        } else if item.number == 2 {
            match item_text(item) {
                Some(x) => Some(MaybeTimeoutClaimableHtlcView { counterparty_node_id: x, ..acc }),
                None => None,
            }
        } else if item.number == 3 {
            match item_uint64(item) {
                Some(x) => Some(MaybeTimeoutClaimableHtlcView { amount_satoshis: x, ..acc }),
                None => None,
            }
        } else if item.number == 4 {
            match item_uint32(item) {
                Some(x) => Some(MaybeTimeoutClaimableHtlcView { claimable_height: x, ..acc }),
                None => None,
            }
        } else if item.number == 5 {
            match item_text(item) {
                Some(x) => Some(MaybeTimeoutClaimableHtlcView { payment_hash: x, ..acc }),
                None => None,
            }
        } else {
            Some(acc)
        }
    }

    open spec fn items(v: MaybeTimeoutClaimableHtlcView) -> Seq<Item> {
        text_items(1, v.channel_id)
            + text_items(2, v.counterparty_node_id)
            + uint64_items(3, v.amount_satoshis)
            + uint32_items(4, v.claimable_height)
            + text_items(5, v.payment_hash)
    }

    open spec fn fits(v: MaybeTimeoutClaimableHtlcView) -> bool {
        &&& text_fits(v.channel_id)
        &&& text_fits(v.counterparty_node_id)
        &&& text_fits(v.payment_hash)
    }

    fn fresh() -> (m: Self) {
        let m = MaybeTimeoutClaimableHtlc {
            channel_id: String::new(),
            counterparty_node_id: String::new(),
            amount_satoshis: 0,
            claimable_height: 0,
            payment_hash: String::new(),
        };
        m
    }

    fn take(&mut self, field: &Field<'_>) -> (ok: bool) {
        if field.number == 1 {
            match field_text(field) {
                Some(x) => {
                    self.channel_id = x;
                    true
                },
                None => false,
            }
        } else if field.number == 2 {
            match field_text(field) {
                Some(x) => {
                    self.counterparty_node_id = x;
                    true
                },
                None => false,
            }
        } else if field.number == 3 {
            match field_uint64(field) {
                Some(x) => {
                    self.amount_satoshis = x;
                    true
                },
                None => false,
            }
        } else if field.number == 4 {
            match field_uint32(field) {
                Some(x) => {
                    self.claimable_height = x;
                    true
                },
                None => false,
            }
        } else if field.number == 5 {
            match field_text(field) {
                Some(x) => {
                    self.payment_hash = x;
                    true
                },
                None => false,
            }
        } else {
            true
        }
    }

    fn emit(&self, out: &mut Vec<u8>) {
        let ghost v = self.deep_view();
        put_text(1, &self.channel_id, out);
        let ghost run = text_items(1, v.channel_id);
        let ghost mid = out@;
        put_text(2, &self.counterparty_node_id, out);
        proof {
            lemma_items_bytes_extend(
                old(out)@,
                mid,
                out@,
                run,
                text_items(2, v.counterparty_node_id),
            );
        }
        let ghost run = run + text_items(2, v.counterparty_node_id);
        let ghost mid = out@;
        put_uint64(3, self.amount_satoshis, out);
        proof {
            lemma_items_bytes_extend(old(out)@, mid, out@, run, uint64_items(3, v.amount_satoshis));
        }
        let ghost run = run + uint64_items(3, v.amount_satoshis);
        let ghost mid = out@;
        put_uint32(4, self.claimable_height, out);
        proof {
            lemma_items_bytes_extend(
                old(out)@,
                mid,
                out@,
                run,
                uint32_items(4, v.claimable_height),
            );
        }
        let ghost run = run + uint32_items(4, v.claimable_height);
        let ghost mid = out@;
        put_text(5, &self.payment_hash, out);
        proof {
            lemma_items_bytes_extend(old(out)@, mid, out@, run, text_items(5, v.payment_hash));
        }
        let ghost run = run + text_items(5, v.payment_hash);
    }
}

/// The bytes of a `MaybeTimeoutClaimableHtlc` are no more than its texts, bytes and nested
/// messages together, and twenty bytes for each field.
pub proof fn lemma_maybe_timeout_claimable_htlc_size(v: MaybeTimeoutClaimableHtlcView)
    ensures
        encoded::<MaybeTimeoutClaimableHtlc>(v).len() <= 100
            + encode_utf8(v.channel_id).len()
            + encode_utf8(v.counterparty_node_id).len()
            + encode_utf8(v.payment_hash).len(),
{
    let i1 = text_items(1, v.channel_id);
    let n1: nat = encode_utf8(v.channel_id).len();
    lemma_short_run_size(i1, n1);
    let r1 = i1;
    let b1: nat = 20 + n1;
    let i2 = text_items(2, v.counterparty_node_id);
    let n2: nat = encode_utf8(v.counterparty_node_id).len();
    lemma_short_run_size(i2, n2);
    lemma_joined_size(r1, i2, b1, 20 + n2);
    let r2 = r1 + i2;
    let b2: nat = b1 + 20 + n2;
    let i3 = uint64_items(3, v.amount_satoshis);
    let n3: nat = 0;
    lemma_short_run_size(i3, n3);
    lemma_joined_size(r2, i3, b2, 20 + n3);
    let r3 = r2 + i3;
    let b3: nat = b2 + 20 + n3;
    let i4 = uint32_items(4, v.claimable_height);
    let n4: nat = 0;
    lemma_short_run_size(i4, n4);
    lemma_joined_size(r3, i4, b3, 20 + n4);
    let r4 = r3 + i4;
    let b4: nat = b3 + 20 + n4;
    let i5 = text_items(5, v.payment_hash);
    let n5: nat = encode_utf8(v.payment_hash).len();
    lemma_short_run_size(i5, n5);
    lemma_joined_size(r4, i5, b4, 20 + n5);
    let r5 = r4 + i5;
    let b5: nat = b4 + 20 + n5;
}

impl Lossless for MaybeTimeoutClaimableHtlc {
    proof fn lemma_round_trip(v: MaybeTimeoutClaimableHtlcView) {
        let s0 = Self::blank();
        let i1 = text_items(1, v.channel_id);
        let s1 = MaybeTimeoutClaimableHtlcView { channel_id: v.channel_id, ..s0 };
        assert(items_ok(i1) && absorbed::<Self>(s0, i1) == Some(s1)) by {
            reveal(items_ok);
            if v.channel_id.len() == 0 {
                assert(v.channel_id =~= Seq::<char>::empty());
                lemma_absorbed_none::<Self>(s0);
            } else {
                lemma_text_round_trip(1, v.channel_id);
                lemma_absorbed_one::<Self>(s0, bytes_item(1, encode_utf8(v.channel_id)));
            }
        }
        let r1 = i1;
        let i2 = text_items(2, v.counterparty_node_id);
        let s2 = MaybeTimeoutClaimableHtlcView { counterparty_node_id: v.counterparty_node_id, ..s1 };
        assert(items_ok(i2) && absorbed::<Self>(s1, i2) == Some(s2)) by {
            reveal(items_ok);
            if v.counterparty_node_id.len() == 0 {
                assert(v.counterparty_node_id =~= Seq::<char>::empty());
                lemma_absorbed_none::<Self>(s1);
            } else {
                lemma_text_round_trip(2, v.counterparty_node_id);
                lemma_absorbed_one::<Self>(s1, bytes_item(2, encode_utf8(v.counterparty_node_id)));
            }
        }
        lemma_absorbed_concat::<Self>(s0, r1, i2);
        lemma_items_ok_concat(r1, i2);
        let r2 = r1 + i2;
        let i3 = uint64_items(3, v.amount_satoshis);
        let s3 = MaybeTimeoutClaimableHtlcView { amount_satoshis: v.amount_satoshis, ..s2 };
        assert(items_ok(i3) && absorbed::<Self>(s2, i3) == Some(s3)) by {
            reveal(items_ok);
            if v.amount_satoshis == 0 {
                lemma_absorbed_none::<Self>(s2);
            } else {
                lemma_absorbed_one::<Self>(s2, scalar_item(3, v.amount_satoshis as u64));
            }
        }
        lemma_absorbed_concat::<Self>(s0, r2, i3);
        lemma_items_ok_concat(r2, i3);
        let r3 = r2 + i3;
        let i4 = uint32_items(4, v.claimable_height);
        let s4 = MaybeTimeoutClaimableHtlcView { claimable_height: v.claimable_height, ..s3 };
        assert(items_ok(i4) && absorbed::<Self>(s3, i4) == Some(s4)) by {
            reveal(items_ok);
            if v.claimable_height == 0 {
                lemma_absorbed_none::<Self>(s3);
            } else {
                lemma_absorbed_one::<Self>(s3, scalar_item(4, v.claimable_height as u64));
            }
        }
        lemma_absorbed_concat::<Self>(s0, r3, i4);
        lemma_items_ok_concat(r3, i4);
        let r4 = r3 + i4;
        let i5 = text_items(5, v.payment_hash);
        let s5 = MaybeTimeoutClaimableHtlcView { payment_hash: v.payment_hash, ..s4 };
        assert(items_ok(i5) && absorbed::<Self>(s4, i5) == Some(s5)) by {
            reveal(items_ok);
            if v.payment_hash.len() == 0 {
                assert(v.payment_hash =~= Seq::<char>::empty());
                lemma_absorbed_none::<Self>(s4);
            } else {
                lemma_text_round_trip(5, v.payment_hash);
                lemma_absorbed_one::<Self>(s4, bytes_item(5, encode_utf8(v.payment_hash)));
            }
        }
        lemma_absorbed_concat::<Self>(s0, r4, i5);
        lemma_items_ok_concat(r4, i5);
        let r5 = r4 + i5;
        assert(s5 == v);
    }
}

/// An inbound payment in flight that the node gets if it learns the preimage.
#[derive(Clone, Debug, PartialEq, Eq)]
pub struct MaybePreimageClaimableHtlc {
    /// The channel, in hexadecimal.
    pub channel_id: String,
    /// The channel's other party, in hexadecimal.
    pub counterparty_node_id: String,
    pub amount_satoshis: u64,
    /// The height at which the chance ends.
    pub expiry_height: u32,
    /// The payment's hash, in hexadecimal.
    pub payment_hash: String,
}

/// What a `MaybePreimageClaimableHtlc` holds, as specifications see it.
pub struct MaybePreimageClaimableHtlcView {
    pub channel_id: Seq<char>,
    pub counterparty_node_id: Seq<char>,
    pub amount_satoshis: u64,
    pub expiry_height: u32,
    pub payment_hash: Seq<char>,
}

impl DeepView for MaybePreimageClaimableHtlc {
    type V = MaybePreimageClaimableHtlcView;

    open spec fn deep_view(&self) -> MaybePreimageClaimableHtlcView {
        MaybePreimageClaimableHtlcView {
            channel_id: self.channel_id.deep_view(),
            counterparty_node_id: self.counterparty_node_id.deep_view(),
            amount_satoshis: self.amount_satoshis.deep_view(),
            expiry_height: self.expiry_height.deep_view(),
            payment_hash: self.payment_hash.deep_view(),
        }
    }
}

impl View for MaybePreimageClaimableHtlc {
    type V = MaybePreimageClaimableHtlcView;

    open spec fn view(&self) -> MaybePreimageClaimableHtlcView {
        self.deep_view()
    }
}

impl Message for MaybePreimageClaimableHtlc {
    open spec fn blank() -> MaybePreimageClaimableHtlcView {
        MaybePreimageClaimableHtlcView {
            channel_id: Seq::empty(),
            counterparty_node_id: Seq::empty(),
            amount_satoshis: 0,
            expiry_height: 0,
            payment_hash: Seq::empty(),
        }
    }

    open spec fn absorb(acc: MaybePreimageClaimableHtlcView, item: Item) -> Option<
        MaybePreimageClaimableHtlcView,
    > {
        if item.number == 1 {
            match item_text(item) {
                Some(x) => Some(MaybePreimageClaimableHtlcView { channel_id: x, ..acc }),
                None => None,
            }
        } else if item.number == 2 {
            match item_text(item) {
                Some(x) => Some(MaybePreimageClaimableHtlcView { counterparty_node_id: x, ..acc }),
                None => None,
            }
        } else if item.number == 3 {
            match item_uint64(item) {
                Some(x) => Some(MaybePreimageClaimableHtlcView { amount_satoshis: x, ..acc }),
                None => None,
            }
        } else if item.number == 4 {
            match item_uint32(item) {
                Some(x) => Some(MaybePreimageClaimableHtlcView { expiry_height: x, ..acc }),
                None => None,
            }
        } else if item.number == 5 {
            match item_text(item) {
                Some(x) => Some(MaybePreimageClaimableHtlcView { payment_hash: x, ..acc }),
                None => None,
            }
        } else {
            Some(acc)
        }
    }

    open spec fn items(v: MaybePreimageClaimableHtlcView) -> Seq<Item> {
        text_items(1, v.channel_id)
            + text_items(2, v.counterparty_node_id)
            + uint64_items(3, v.amount_satoshis)
            + uint32_items(4, v.expiry_height)
            + text_items(5, v.payment_hash)
    }

    open spec fn fits(v: MaybePreimageClaimableHtlcView) -> bool {
        &&& text_fits(v.channel_id)
        &&& text_fits(v.counterparty_node_id)
        &&& text_fits(v.payment_hash)
    }

    fn fresh() -> (m: Self) {
        let m = MaybePreimageClaimableHtlc {
            channel_id: String::new(),
            counterparty_node_id: String::new(),
            amount_satoshis: 0,
            expiry_height: 0,
            payment_hash: String::new(),
        };
        m
    }

    fn take(&mut self, field: &Field<'_>) -> (ok: bool) {
        if field.number == 1 {
            match field_text(field) {
                Some(x) => {
                    self.channel_id = x;
                    true
                },
                None => false,
            }
        } else if field.number == 2 {
            match field_text(field) {
                Some(x) => {
                    self.counterparty_node_id = x;
                    true
                },
                None => false,
            }
        } else if field.number == 3 {
            match field_uint64(field) {
                Some(x) => {
                    self.amount_satoshis = x;
                    true
                },
                None => false,
            }
        } else if field.number == 4 {
            match field_uint32(field) {
                Some(x) => {
                    self.expiry_height = x;
                    true
                },
                None => false,
            }
        } else if field.number == 5 {
            match field_text(field) {
                Some(x) => {
                    self.payment_hash = x;
                    true
                },
                None => false,
            }
        } else {
            true
        }
    }

    fn emit(&self, out: &mut Vec<u8>) {
        let ghost v = self.deep_view();
        put_text(1, &self.channel_id, out);
        let ghost run = text_items(1, v.channel_id);
        let ghost mid = out@;
        put_text(2, &self.counterparty_node_id, out);
        proof {
            lemma_items_bytes_extend(
                old(out)@,
                mid,
                out@,
                run,
                text_items(2, v.counterparty_node_id),
            );
        }
        let ghost run = run + text_items(2, v.counterparty_node_id);
        let ghost mid = out@;
        put_uint64(3, self.amount_satoshis, out);
        proof {
            lemma_items_bytes_extend(old(out)@, mid, out@, run, uint64_items(3, v.amount_satoshis));
        }
        let ghost run = run + uint64_items(3, v.amount_satoshis);
        let ghost mid = out@;
        put_uint32(4, self.expiry_height, out);
        proof {
            lemma_items_bytes_extend(old(out)@, mid, out@, run, uint32_items(4, v.expiry_height));
        }
        let ghost run = run + uint32_items(4, v.expiry_height);
        let ghost mid = out@;
        put_text(5, &self.payment_hash, out);
        proof {
            lemma_items_bytes_extend(old(out)@, mid, out@, run, text_items(5, v.payment_hash));
        }
        let ghost run = run + text_items(5, v.payment_hash);
    }
}

/// The bytes of a `MaybePreimageClaimableHtlc` are no more than its texts, bytes and nested
/// messages together, and twenty bytes for each field.
pub proof fn lemma_maybe_preimage_claimable_htlc_size(v: MaybePreimageClaimableHtlcView)
    ensures
        encoded::<MaybePreimageClaimableHtlc>(v).len() <= 100
            + encode_utf8(v.channel_id).len()
            + encode_utf8(v.counterparty_node_id).len()
            + encode_utf8(v.payment_hash).len(),
{
    let i1 = text_items(1, v.channel_id);
    let n1: nat = encode_utf8(v.channel_id).len();
    lemma_short_run_size(i1, n1);
    let r1 = i1;
    let b1: nat = 20 + n1;
    let i2 = text_items(2, v.counterparty_node_id);
    let n2: nat = encode_utf8(v.counterparty_node_id).len();
    lemma_short_run_size(i2, n2);
    lemma_joined_size(r1, i2, b1, 20 + n2);
    let r2 = r1 + i2;
    let b2: nat = b1 + 20 + n2;
    let i3 = uint64_items(3, v.amount_satoshis);
    let n3: nat = 0;
    lemma_short_run_size(i3, n3);
    lemma_joined_size(r2, i3, b2, 20 + n3);
    let r3 = r2 + i3;
    let b3: nat = b2 + 20 + n3;
    let i4 = uint32_items(4, v.expiry_height);
    let n4: nat = 0;
    lemma_short_run_size(i4, n4);
    lemma_joined_size(r3, i4, b3, 20 + n4);
    let r4 = r3 + i4;
    let b4: nat = b3 + 20 + n4;
    let i5 = text_items(5, v.payment_hash);
    let n5: nat = encode_utf8(v.payment_hash).len();
    lemma_short_run_size(i5, n5);
    lemma_joined_size(r4, i5, b4, 20 + n5);
    let r5 = r4 + i5;
    let b5: nat = b4 + 20 + n5;
}

impl Lossless for MaybePreimageClaimableHtlc {
    proof fn lemma_round_trip(v: MaybePreimageClaimableHtlcView) {
        let s0 = Self::blank();
        let i1 = text_items(1, v.channel_id);
        let s1 = MaybePreimageClaimableHtlcView { channel_id: v.channel_id, ..s0 };
        assert(items_ok(i1) && absorbed::<Self>(s0, i1) == Some(s1)) by {
            reveal(items_ok);
            if v.channel_id.len() == 0 {
                assert(v.channel_id =~= Seq::<char>::empty());
                lemma_absorbed_none::<Self>(s0);
            } else {
                lemma_text_round_trip(1, v.channel_id);
                lemma_absorbed_one::<Self>(s0, bytes_item(1, encode_utf8(v.channel_id)));
            }
        }
        let r1 = i1;
        let i2 = text_items(2, v.counterparty_node_id);
        let s2 = MaybePreimageClaimableHtlcView { counterparty_node_id: v.counterparty_node_id, ..s1 };
        assert(items_ok(i2) && absorbed::<Self>(s1, i2) == Some(s2)) by {
            reveal(items_ok);
            if v.counterparty_node_id.len() == 0 {
                assert(v.counterparty_node_id =~= Seq::<char>::empty());
                lemma_absorbed_none::<Self>(s1);
            } else {
                lemma_text_round_trip(2, v.counterparty_node_id);
                lemma_absorbed_one::<Self>(s1, bytes_item(2, encode_utf8(v.counterparty_node_id)));
            }
        }
        lemma_absorbed_concat::<Self>(s0, r1, i2);
        lemma_items_ok_concat(r1, i2);
        let r2 = r1 + i2;
        let i3 = uint64_items(3, v.amount_satoshis);
        let s3 = MaybePreimageClaimableHtlcView { amount_satoshis: v.amount_satoshis, ..s2 };
        assert(items_ok(i3) && absorbed::<Self>(s2, i3) == Some(s3)) by {
            reveal(items_ok);
            if v.amount_satoshis == 0 {
                lemma_absorbed_none::<Self>(s2);
            } else {
                lemma_absorbed_one::<Self>(s2, scalar_item(3, v.amount_satoshis as u64));
            }
        }
        lemma_absorbed_concat::<Self>(s0, r2, i3);
        lemma_items_ok_concat(r2, i3);
        let r3 = r2 + i3;
        let i4 = uint32_items(4, v.expiry_height);
        let s4 = MaybePreimageClaimableHtlcView { expiry_height: v.expiry_height, ..s3 };
        assert(items_ok(i4) && absorbed::<Self>(s3, i4) == Some(s4)) by {
            reveal(items_ok);
            if v.expiry_height == 0 {
                lemma_absorbed_none::<Self>(s3);
            } else {
                lemma_absorbed_one::<Self>(s3, scalar_item(4, v.expiry_height as u64));
            }
        }
        lemma_absorbed_concat::<Self>(s0, r3, i4);
        lemma_items_ok_concat(r3, i4);
        let r4 = r3 + i4;
        let i5 = text_items(5, v.payment_hash);
        let s5 = MaybePreimageClaimableHtlcView { payment_hash: v.payment_hash, ..s4 };
        assert(items_ok(i5) && absorbed::<Self>(s4, i5) == Some(s5)) by {
            reveal(items_ok);
            if v.payment_hash.len() == 0 {
                assert(v.payment_hash =~= Seq::<char>::empty());
                lemma_absorbed_none::<Self>(s4);
            } else {
                lemma_text_round_trip(5, v.payment_hash);
                lemma_absorbed_one::<Self>(s4, bytes_item(5, encode_utf8(v.payment_hash)));
            }
        }
        lemma_absorbed_concat::<Self>(s0, r4, i5);
        lemma_items_ok_concat(r4, i5);
        let r5 = r4 + i5;
        assert(s5 == v);
    }
}

/// A balance the node can claim because the other party broadcast a revoked
/// state.
#[derive(Clone, Debug, PartialEq, Eq)]
pub struct CounterpartyRevokedOutputClaimable {
    /// The channel, in hexadecimal.
    pub channel_id: String,
    /// The channel's other party, in hexadecimal.
    pub counterparty_node_id: String,
    pub amount_satoshis: u64,
}

/// What a `CounterpartyRevokedOutputClaimable` holds, as specifications see it.
pub struct CounterpartyRevokedOutputClaimableView {
    pub channel_id: Seq<char>,
    pub counterparty_node_id: Seq<char>,
    pub amount_satoshis: u64,
}

impl DeepView for CounterpartyRevokedOutputClaimable {
    type V = CounterpartyRevokedOutputClaimableView;

    open spec fn deep_view(&self) -> CounterpartyRevokedOutputClaimableView {
        CounterpartyRevokedOutputClaimableView {
            channel_id: self.channel_id.deep_view(),
            counterparty_node_id: self.counterparty_node_id.deep_view(),
            amount_satoshis: self.amount_satoshis.deep_view(),
        }
    }
}

impl View for CounterpartyRevokedOutputClaimable {
    type V = CounterpartyRevokedOutputClaimableView;

    open spec fn view(&self) -> CounterpartyRevokedOutputClaimableView {
        self.deep_view()
    }
}

impl Message for CounterpartyRevokedOutputClaimable {
    open spec fn blank() -> CounterpartyRevokedOutputClaimableView {
        CounterpartyRevokedOutputClaimableView {
            channel_id: Seq::empty(),
            counterparty_node_id: Seq::empty(),
            amount_satoshis: 0,
        }
    }

    open spec fn absorb(acc: CounterpartyRevokedOutputClaimableView, item: Item) -> Option<
        CounterpartyRevokedOutputClaimableView,
    > {
        if item.number == 1 {
            match item_text(item) {
                Some(x) => Some(CounterpartyRevokedOutputClaimableView { channel_id: x, ..acc }),
                None => None,
            }
        } else if item.number == 2 {
            match item_text(item) {
                Some(x) => Some(CounterpartyRevokedOutputClaimableView { counterparty_node_id: x, ..acc }),
                None => None,
            }
        } else if item.number == 3 {
            match item_uint64(item) {
                Some(x) => Some(CounterpartyRevokedOutputClaimableView { amount_satoshis: x, ..acc }),
                None => None,
            }
        } else {
            Some(acc)
        }
    }

    open spec fn items(v: CounterpartyRevokedOutputClaimableView) -> Seq<Item> {
        text_items(1, v.channel_id)
            + text_items(2, v.counterparty_node_id)
            + uint64_items(3, v.amount_satoshis)
    }

    open spec fn fits(v: CounterpartyRevokedOutputClaimableView) -> bool {
        &&& text_fits(v.channel_id)
        &&& text_fits(v.counterparty_node_id)
    }

    fn fresh() -> (m: Self) {
        let m = CounterpartyRevokedOutputClaimable {
            channel_id: String::new(),
            counterparty_node_id: String::new(),
            amount_satoshis: 0,
        };
        m
    }

    fn take(&mut self, field: &Field<'_>) -> (ok: bool) {
        if field.number == 1 {
            match field_text(field) {
                Some(x) => {
                    self.channel_id = x;
                    true
                },
                None => false,
            }
        } else if field.number == 2 {
            match field_text(field) {
                Some(x) => {
                    self.counterparty_node_id = x;
                    true
                },
                None => false,
            }
        } else if field.number == 3 {
            match field_uint64(field) {
                Some(x) => {
                    self.amount_satoshis = x;
                    true
                },
                None => false,
            }
        } else {
            true
        }
    }

    fn emit(&self, out: &mut Vec<u8>) {
        let ghost v = self.deep_view();
        put_text(1, &self.channel_id, out);
        let ghost run = text_items(1, v.channel_id);
        let ghost mid = out@;
        put_text(2, &self.counterparty_node_id, out);
        proof {
            lemma_items_bytes_extend(
                old(out)@,
                mid,
                out@,
                run,
                text_items(2, v.counterparty_node_id),
            );
        }
        let ghost run = run + text_items(2, v.counterparty_node_id);
        let ghost mid = out@;
        put_uint64(3, self.amount_satoshis, out);
        proof {
            lemma_items_bytes_extend(old(out)@, mid, out@, run, uint64_items(3, v.amount_satoshis));
        }
        let ghost run = run + uint64_items(3, v.amount_satoshis);
    }
}

/// The bytes of a `CounterpartyRevokedOutputClaimable` are no more than its texts, bytes and nested
/// messages together, and twenty bytes for each field.
pub proof fn lemma_counterparty_revoked_output_claimable_size(
    v: CounterpartyRevokedOutputClaimableView,
)
    ensures
        encoded::<CounterpartyRevokedOutputClaimable>(v).len() <= 60
            + encode_utf8(v.channel_id).len()
            + encode_utf8(v.counterparty_node_id).len(),
{
    let i1 = text_items(1, v.channel_id);
    let n1: nat = encode_utf8(v.channel_id).len();
    lemma_short_run_size(i1, n1);
    let r1 = i1;
    let b1: nat = 20 + n1;
    let i2 = text_items(2, v.counterparty_node_id);
    let n2: nat = encode_utf8(v.counterparty_node_id).len();
    lemma_short_run_size(i2, n2);
    lemma_joined_size(r1, i2, b1, 20 + n2);
    let r2 = r1 + i2;
    let b2: nat = b1 + 20 + n2;
    let i3 = uint64_items(3, v.amount_satoshis);
    let n3: nat = 0;
    lemma_short_run_size(i3, n3);
    lemma_joined_size(r2, i3, b2, 20 + n3);
    let r3 = r2 + i3;
    let b3: nat = b2 + 20 + n3;
}

impl Lossless for CounterpartyRevokedOutputClaimable {
    proof fn lemma_round_trip(v: CounterpartyRevokedOutputClaimableView) {
        let s0 = Self::blank();
        let i1 = text_items(1, v.channel_id);
        let s1 = CounterpartyRevokedOutputClaimableView { channel_id: v.channel_id, ..s0 };
        assert(items_ok(i1) && absorbed::<Self>(s0, i1) == Some(s1)) by {
            reveal(items_ok);
            if v.channel_id.len() == 0 {
                assert(v.channel_id =~= Seq::<char>::empty());
                lemma_absorbed_none::<Self>(s0);
            } else {
                lemma_text_round_trip(1, v.channel_id);
                lemma_absorbed_one::<Self>(s0, bytes_item(1, encode_utf8(v.channel_id)));
            }
        }
        let r1 = i1;
        let i2 = text_items(2, v.counterparty_node_id);
        let s2 = CounterpartyRevokedOutputClaimableView { counterparty_node_id: v.counterparty_node_id, ..s1 };
        assert(items_ok(i2) && absorbed::<Self>(s1, i2) == Some(s2)) by {
            reveal(items_ok);
            if v.counterparty_node_id.len() == 0 {
                assert(v.counterparty_node_id =~= Seq::<char>::empty());
                lemma_absorbed_none::<Self>(s1);
            } else {
                lemma_text_round_trip(2, v.counterparty_node_id);
                lemma_absorbed_one::<Self>(s1, bytes_item(2, encode_utf8(v.counterparty_node_id)));
            }
        }
        lemma_absorbed_concat::<Self>(s0, r1, i2);
        lemma_items_ok_concat(r1, i2);
        let r2 = r1 + i2;
        let i3 = uint64_items(3, v.amount_satoshis);
        let s3 = CounterpartyRevokedOutputClaimableView { amount_satoshis: v.amount_satoshis, ..s2 };
        assert(items_ok(i3) && absorbed::<Self>(s2, i3) == Some(s3)) by {
            reveal(items_ok);
            if v.amount_satoshis == 0 {
                lemma_absorbed_none::<Self>(s2);
            } else {
                lemma_absorbed_one::<Self>(s2, scalar_item(3, v.amount_satoshis as u64));
            }
        }
        lemma_absorbed_concat::<Self>(s0, r2, i3);
        lemma_items_ok_concat(r2, i3);
        let r3 = r2 + i3;
        assert(s3 == v);
    }
}

/// An envelope for one channel balance, of whichever kind.
#[derive(Clone, Debug, PartialEq, Eq)]
pub struct LightningBalance {
    pub balance_type: Option<lightning_balance::BalanceType>,
}

/// What a `LightningBalance` holds, as specifications see it.
pub struct LightningBalanceView {
    pub balance_type: Option<lightning_balance::BalanceTypeView>,
}

impl DeepView for LightningBalance {
    type V = LightningBalanceView;

    open spec fn deep_view(&self) -> LightningBalanceView {
        LightningBalanceView {
            balance_type: self.balance_type.deep_view(),
        }
    }
}

impl View for LightningBalance {
    type V = LightningBalanceView;

    open spec fn view(&self) -> LightningBalanceView {
        self.deep_view()
    }
}

/// The one field that stands for the payload that is set, or none.
pub open spec fn lightning_balance_balance_type_items(
    value: Option<lightning_balance::BalanceTypeView>,
) -> Seq<Item> {
    match value {
        Some(lightning_balance::BalanceTypeView::ClaimableOnChannelClose(inner)) => seq![bytes_item(1, encoded::<ClaimableOnChannelClose>(inner))],
        Some(lightning_balance::BalanceTypeView::ClaimableAwaitingConfirmations(inner)) => seq![bytes_item(2, encoded::<ClaimableAwaitingConfirmations>(inner))],
        Some(lightning_balance::BalanceTypeView::ContentiousClaimable(inner)) => seq![bytes_item(3, encoded::<ContentiousClaimable>(inner))],
        Some(lightning_balance::BalanceTypeView::MaybeTimeoutClaimableHtlc(inner)) => seq![bytes_item(4, encoded::<MaybeTimeoutClaimableHtlc>(inner))],
        Some(lightning_balance::BalanceTypeView::MaybePreimageClaimableHtlc(inner)) => seq![bytes_item(5, encoded::<MaybePreimageClaimableHtlc>(inner))],
        Some(lightning_balance::BalanceTypeView::CounterpartyRevokedOutputClaimable(inner)) => seq![bytes_item(6, encoded::<CounterpartyRevokedOutputClaimable>(inner))],
        None => Seq::empty(),
    }
}

/// The payload that is set, if any, has a length that the wire can state.
pub open spec fn lightning_balance_balance_type_fits(
    value: Option<lightning_balance::BalanceTypeView>,
) -> bool {
    match value {
        Some(lightning_balance::BalanceTypeView::ClaimableOnChannelClose(inner)) => message_fits::<ClaimableOnChannelClose>(inner),
        Some(lightning_balance::BalanceTypeView::ClaimableAwaitingConfirmations(inner)) => message_fits::<ClaimableAwaitingConfirmations>(inner),
        Some(lightning_balance::BalanceTypeView::ContentiousClaimable(inner)) => message_fits::<ContentiousClaimable>(inner),
        Some(lightning_balance::BalanceTypeView::MaybeTimeoutClaimableHtlc(inner)) => message_fits::<MaybeTimeoutClaimableHtlc>(inner),
        Some(lightning_balance::BalanceTypeView::MaybePreimageClaimableHtlc(inner)) => message_fits::<MaybePreimageClaimableHtlc>(inner),
        Some(lightning_balance::BalanceTypeView::CounterpartyRevokedOutputClaimable(inner)) => message_fits::<CounterpartyRevokedOutputClaimable>(inner),
        None => true,
    }
}

impl Message for LightningBalance {
    open spec fn blank() -> LightningBalanceView {
        LightningBalanceView {
            balance_type: None,
        }
    }

    open spec fn absorb(acc: LightningBalanceView, item: Item) -> Option<LightningBalanceView> {
        if item.number == 1 {
            match item_nested::<ClaimableOnChannelClose>(
                match acc.balance_type {
                    Some(lightning_balance::BalanceTypeView::ClaimableOnChannelClose(held)) => Some(held),
                    _ => None,
                },
                item,
            ) {
                Some(x) => Some(LightningBalanceView { balance_type: Some(lightning_balance::BalanceTypeView::ClaimableOnChannelClose(x)), ..acc }),
                None => None,
            }
        } else if item.number == 2 {
            match item_nested::<ClaimableAwaitingConfirmations>(
                match acc.balance_type {
                    Some(lightning_balance::BalanceTypeView::ClaimableAwaitingConfirmations(held)) => Some(held),
                    _ => None,
                },
                item,
            ) {
                Some(x) => Some(LightningBalanceView { balance_type: Some(lightning_balance::BalanceTypeView::ClaimableAwaitingConfirmations(x)), ..acc }),
                None => None,
            }
        } else if item.number == 3 {
            match item_nested::<ContentiousClaimable>(
                match acc.balance_type {
                    Some(lightning_balance::BalanceTypeView::ContentiousClaimable(held)) => Some(held),
                    _ => None,
                },
                item,
            ) {
                Some(x) => Some(LightningBalanceView { balance_type: Some(lightning_balance::BalanceTypeView::ContentiousClaimable(x)), ..acc }),
                None => None,
            }
        } else if item.number == 4 {
            match item_nested::<MaybeTimeoutClaimableHtlc>(
                match acc.balance_type {
                    Some(lightning_balance::BalanceTypeView::MaybeTimeoutClaimableHtlc(held)) => Some(held),
                    _ => None,
                },
                item,
            ) {
                Some(x) => Some(LightningBalanceView { balance_type: Some(lightning_balance::BalanceTypeView::MaybeTimeoutClaimableHtlc(x)), ..acc }),
                None => None,
            }
        } else if item.number == 5 {
            match item_nested::<MaybePreimageClaimableHtlc>(
                match acc.balance_type {
                    Some(lightning_balance::BalanceTypeView::MaybePreimageClaimableHtlc(held)) => Some(held),
                    _ => None,
                },
                item,
            ) {
                Some(x) => Some(LightningBalanceView { balance_type: Some(lightning_balance::BalanceTypeView::MaybePreimageClaimableHtlc(x)), ..acc }),
                None => None,
            }
        } else if item.number == 6 {
            match item_nested::<CounterpartyRevokedOutputClaimable>(
                match acc.balance_type {
                    Some(lightning_balance::BalanceTypeView::CounterpartyRevokedOutputClaimable(held)) => Some(held),
                    _ => None,
                },
                item,
            ) {
                Some(x) => Some(LightningBalanceView { balance_type: Some(lightning_balance::BalanceTypeView::CounterpartyRevokedOutputClaimable(x)), ..acc }),
                None => None,
            }
        } else {
            Some(acc)
        }
    }

    open spec fn items(v: LightningBalanceView) -> Seq<Item> {
        lightning_balance_balance_type_items(v.balance_type)
    }

    open spec fn fits(v: LightningBalanceView) -> bool {
        &&& lightning_balance_balance_type_fits(v.balance_type)
    }

    fn fresh() -> (m: Self) {
        let m = LightningBalance {
            balance_type: None,
        };
        m
    }

    fn take(&mut self, field: &Field<'_>) -> (ok: bool) {
        if field.number == 1 {
            let mut slot = match self.balance_type.take() {
                Some(lightning_balance::BalanceType::ClaimableOnChannelClose(held)) => Some(held),
                _ => None,
            };
            if take_nested(&mut slot, field) {
                match slot {
                    Some(x) => {
                        self.balance_type = Some(lightning_balance::BalanceType::ClaimableOnChannelClose(x));
                        true
                    },
                    None => false,
                }
            } else {
                false
            }
        } else if field.number == 2 {
            let mut slot = match self.balance_type.take() {
                Some(lightning_balance::BalanceType::ClaimableAwaitingConfirmations(held)) => Some(held),
                _ => None,
            };
            if take_nested(&mut slot, field) {
                match slot {
                    Some(x) => {
                        self.balance_type = Some(lightning_balance::BalanceType::ClaimableAwaitingConfirmations(x));
                        true
                    },
                    None => false,
                }
            } else {
                false
            }
        } else if field.number == 3 {
            let mut slot = match self.balance_type.take() {
                Some(lightning_balance::BalanceType::ContentiousClaimable(held)) => Some(held),
                _ => None,
            };
            if take_nested(&mut slot, field) {
                match slot {
                    Some(x) => {
                        self.balance_type = Some(lightning_balance::BalanceType::ContentiousClaimable(x));
                        true
                    },
                    None => false,
                }
            } else {
                false
            }
        } else if field.number == 4 {
            let mut slot = match self.balance_type.take() {
                Some(lightning_balance::BalanceType::MaybeTimeoutClaimableHtlc(held)) => Some(held),
                _ => None,
            };
            if take_nested(&mut slot, field) {
                match slot {
                    Some(x) => {
                        self.balance_type = Some(lightning_balance::BalanceType::MaybeTimeoutClaimableHtlc(x));
                        true
                    },
                    None => false,
                }
            } else {
                false
            }
        } else if field.number == 5 {
            let mut slot = match self.balance_type.take() {
                Some(lightning_balance::BalanceType::MaybePreimageClaimableHtlc(held)) => Some(held),
                _ => None,
            };
            if take_nested(&mut slot, field) {
                match slot {
                    Some(x) => {
                        self.balance_type = Some(lightning_balance::BalanceType::MaybePreimageClaimableHtlc(x));
                        true
                    },
                    None => false,
                }
            } else {
                false
            }
        } else if field.number == 6 {
            let mut slot = match self.balance_type.take() {
                Some(lightning_balance::BalanceType::CounterpartyRevokedOutputClaimable(held)) => Some(held),
                _ => None,
            };
            if take_nested(&mut slot, field) {
                match slot {
                    Some(x) => {
                        self.balance_type = Some(lightning_balance::BalanceType::CounterpartyRevokedOutputClaimable(x));
                        true
                    },
                    None => false,
                }
            } else {
                false
            }
        } else {
            true
        }
    }

    fn emit(&self, out: &mut Vec<u8>) {
        let ghost v = self.deep_view();
        match &self.balance_type {
            Some(lightning_balance::BalanceType::ClaimableOnChannelClose(inner)) => {
                put_message(1, inner, out);
                proof {
                    lemma_items_bytes_one(bytes_item(1, encoded::<ClaimableOnChannelClose>(inner.deep_view())));
                }
            },
            Some(lightning_balance::BalanceType::ClaimableAwaitingConfirmations(inner)) => {
                put_message(2, inner, out);
                proof {
                    lemma_items_bytes_one(bytes_item(2, encoded::<ClaimableAwaitingConfirmations>(inner.deep_view())));
                }
            },
            Some(lightning_balance::BalanceType::ContentiousClaimable(inner)) => {
                put_message(3, inner, out);
                proof {
                    lemma_items_bytes_one(bytes_item(3, encoded::<ContentiousClaimable>(inner.deep_view())));
                }
            },
            Some(lightning_balance::BalanceType::MaybeTimeoutClaimableHtlc(inner)) => {
                put_message(4, inner, out);
                proof {
                    lemma_items_bytes_one(bytes_item(4, encoded::<MaybeTimeoutClaimableHtlc>(inner.deep_view())));
                }
            },
            Some(lightning_balance::BalanceType::MaybePreimageClaimableHtlc(inner)) => {
                put_message(5, inner, out);
                proof {
                    lemma_items_bytes_one(bytes_item(5, encoded::<MaybePreimageClaimableHtlc>(inner.deep_view())));
                }
            },
            Some(lightning_balance::BalanceType::CounterpartyRevokedOutputClaimable(inner)) => {
                put_message(6, inner, out);
                proof {
                    lemma_items_bytes_one(bytes_item(6, encoded::<CounterpartyRevokedOutputClaimable>(inner.deep_view())));
                }
            },
            None => {
                assert(out@ =~= old(out)@ + items_bytes(Seq::empty()));
            },
        }
        let ghost run = lightning_balance_balance_type_items(v.balance_type);
    }
}

impl Lossless for LightningBalance {
    proof fn lemma_round_trip(v: LightningBalanceView) {
        let s0 = Self::blank();
        let i1 = lightning_balance_balance_type_items(v.balance_type);
        let s1 = LightningBalanceView { balance_type: v.balance_type, ..s0 };
        assert(items_ok(i1) && absorbed::<Self>(s0, i1) == Some(s1)) by {
            reveal(items_ok);
            match v.balance_type {
                Some(lightning_balance::BalanceTypeView::ClaimableOnChannelClose(x)) => {
                    lemma_nested_round_trip::<ClaimableOnChannelClose>(1, x);
                    lemma_absorbed_one::<Self>(s0, bytes_item(1, encoded::<ClaimableOnChannelClose>(x)));
                },
                Some(lightning_balance::BalanceTypeView::ClaimableAwaitingConfirmations(x)) => {
                    lemma_nested_round_trip::<ClaimableAwaitingConfirmations>(2, x);
                    lemma_absorbed_one::<Self>(s0, bytes_item(2, encoded::<ClaimableAwaitingConfirmations>(x)));
                },
                Some(lightning_balance::BalanceTypeView::ContentiousClaimable(x)) => {
                    lemma_nested_round_trip::<ContentiousClaimable>(3, x);
                    lemma_absorbed_one::<Self>(s0, bytes_item(3, encoded::<ContentiousClaimable>(x)));
                },
                Some(lightning_balance::BalanceTypeView::MaybeTimeoutClaimableHtlc(x)) => {
                    lemma_nested_round_trip::<MaybeTimeoutClaimableHtlc>(4, x);
                    lemma_absorbed_one::<Self>(s0, bytes_item(4, encoded::<MaybeTimeoutClaimableHtlc>(x)));
                },
                Some(lightning_balance::BalanceTypeView::MaybePreimageClaimableHtlc(x)) => {
                    lemma_nested_round_trip::<MaybePreimageClaimableHtlc>(5, x);
                    lemma_absorbed_one::<Self>(s0, bytes_item(5, encoded::<MaybePreimageClaimableHtlc>(x)));
                },
                Some(lightning_balance::BalanceTypeView::CounterpartyRevokedOutputClaimable(x)) => {
                    lemma_nested_round_trip::<CounterpartyRevokedOutputClaimable>(6, x);
                    lemma_absorbed_one::<Self>(s0, bytes_item(6, encoded::<CounterpartyRevokedOutputClaimable>(x)));
                },
                None => {
                    lemma_absorbed_none::<Self>(s0);
                },
            }
        }
        let r1 = i1;
        assert(s1 == v);
    }
}

/// A sweep that is not yet broadcast.
#[derive(Clone, Debug, PartialEq, Eq)]
pub struct PendingBroadcast {
    /// The channel the funds come from, in hexadecimal.
    pub channel_id: String,
    pub amount_satoshis: u64,
}

/// What a `PendingBroadcast` holds, as specifications see it.
pub struct PendingBroadcastView {
    pub channel_id: Seq<char>,
    pub amount_satoshis: u64,
}

impl DeepView for PendingBroadcast {
    type V = PendingBroadcastView;

    open spec fn deep_view(&self) -> PendingBroadcastView {
        PendingBroadcastView {
            channel_id: self.channel_id.deep_view(),
            amount_satoshis: self.amount_satoshis.deep_view(),
        }
    }
}

impl View for PendingBroadcast {
    type V = PendingBroadcastView;

    open spec fn view(&self) -> PendingBroadcastView {
        self.deep_view()
    }
}

impl Message for PendingBroadcast {
    open spec fn blank() -> PendingBroadcastView {
        PendingBroadcastView {
            channel_id: Seq::empty(),
            amount_satoshis: 0,
        }
    }

    open spec fn absorb(acc: PendingBroadcastView, item: Item) -> Option<PendingBroadcastView> {
        if item.number == 1 {
            match item_text(item) {
                Some(x) => Some(PendingBroadcastView { channel_id: x, ..acc }),
                None => None,
            }
        } else if item.number == 2 {
            match item_uint64(item) {
                Some(x) => Some(PendingBroadcastView { amount_satoshis: x, ..acc }),
                None => None,
            }
        } else {
            Some(acc)
        }
    }

    open spec fn items(v: PendingBroadcastView) -> Seq<Item> {
        text_items(1, v.channel_id) + uint64_items(2, v.amount_satoshis)
    }

    open spec fn fits(v: PendingBroadcastView) -> bool {
        &&& text_fits(v.channel_id)
    }

    fn fresh() -> (m: Self) {
        let m = PendingBroadcast {
            channel_id: String::new(),
            amount_satoshis: 0,
        };
        m
    }

    fn take(&mut self, field: &Field<'_>) -> (ok: bool) {
        if field.number == 1 {
            match field_text(field) {
                Some(x) => {
                    self.channel_id = x;
                    true
                },
                None => false,
            }
        } else if field.number == 2 {
            match field_uint64(field) {
                Some(x) => {
                    self.amount_satoshis = x;
                    true
                },
                None => false,
            }
        } else {
            true
        }
    }

    fn emit(&self, out: &mut Vec<u8>) {
        let ghost v = self.deep_view();
        put_text(1, &self.channel_id, out);
        let ghost run = text_items(1, v.channel_id);
        let ghost mid = out@;
        put_uint64(2, self.amount_satoshis, out);
        proof {
            lemma_items_bytes_extend(old(out)@, mid, out@, run, uint64_items(2, v.amount_satoshis));
        }
        let ghost run = run + uint64_items(2, v.amount_satoshis);
    }
}

/// The bytes of a `PendingBroadcast` are no more than its texts, bytes and nested
/// messages together, and twenty bytes for each field.
pub proof fn lemma_pending_broadcast_size(v: PendingBroadcastView)
    ensures
        encoded::<PendingBroadcast>(v).len() <= 40
            + encode_utf8(v.channel_id).len(),
{
    let i1 = text_items(1, v.channel_id);
    let n1: nat = encode_utf8(v.channel_id).len();
    lemma_short_run_size(i1, n1);
    let r1 = i1;
    let b1: nat = 20 + n1;
    let i2 = uint64_items(2, v.amount_satoshis);
    let n2: nat = 0;
    lemma_short_run_size(i2, n2);
    lemma_joined_size(r1, i2, b1, 20 + n2);
    let r2 = r1 + i2;
    let b2: nat = b1 + 20 + n2;
}

impl Lossless for PendingBroadcast {
    proof fn lemma_round_trip(v: PendingBroadcastView) {
        let s0 = Self::blank();
        let i1 = text_items(1, v.channel_id);
        let s1 = PendingBroadcastView { channel_id: v.channel_id, ..s0 };
        assert(items_ok(i1) && absorbed::<Self>(s0, i1) == Some(s1)) by {
            reveal(items_ok);
            if v.channel_id.len() == 0 {
                assert(v.channel_id =~= Seq::<char>::empty());
                lemma_absorbed_none::<Self>(s0);
            } else {
                lemma_text_round_trip(1, v.channel_id);
                lemma_absorbed_one::<Self>(s0, bytes_item(1, encode_utf8(v.channel_id)));
            }
        }
        let r1 = i1;
        let i2 = uint64_items(2, v.amount_satoshis);
        let s2 = PendingBroadcastView { amount_satoshis: v.amount_satoshis, ..s1 };
        assert(items_ok(i2) && absorbed::<Self>(s1, i2) == Some(s2)) by {
            reveal(items_ok);
            if v.amount_satoshis == 0 {
                lemma_absorbed_none::<Self>(s1);
            } else {
                lemma_absorbed_one::<Self>(s1, scalar_item(2, v.amount_satoshis as u64));
            }
        }
        lemma_absorbed_concat::<Self>(s0, r1, i2);
        lemma_items_ok_concat(r1, i2);
        let r2 = r1 + i2;
        assert(s2 == v);
    }
}

/// A sweep that is broadcast and not yet confirmed.
#[derive(Clone, Debug, PartialEq, Eq)]
pub struct BroadcastAwaitingConfirmation {
    /// The channel the funds come from, in hexadecimal, where known.
    pub channel_id: Option<String>,
    pub latest_broadcast_height: u32,
    pub latest_spending_txid: String,
    pub amount_satoshis: u64,
}

/// What a `BroadcastAwaitingConfirmation` holds, as specifications see it.
pub struct BroadcastAwaitingConfirmationView {
    pub channel_id: Option<Seq<char>>,
    pub latest_broadcast_height: u32,
    pub latest_spending_txid: Seq<char>,
    pub amount_satoshis: u64,
}

impl DeepView for BroadcastAwaitingConfirmation {
    type V = BroadcastAwaitingConfirmationView;

    open spec fn deep_view(&self) -> BroadcastAwaitingConfirmationView {
        BroadcastAwaitingConfirmationView {
            channel_id: self.channel_id.deep_view(),
            latest_broadcast_height: self.latest_broadcast_height.deep_view(),
            latest_spending_txid: self.latest_spending_txid.deep_view(),
            amount_satoshis: self.amount_satoshis.deep_view(),
        }
    }
}

impl View for BroadcastAwaitingConfirmation {
    type V = BroadcastAwaitingConfirmationView;

    open spec fn view(&self) -> BroadcastAwaitingConfirmationView {
        self.deep_view()
    }
}

impl Message for BroadcastAwaitingConfirmation {
    open spec fn blank() -> BroadcastAwaitingConfirmationView {
        BroadcastAwaitingConfirmationView {
            channel_id: None,
            latest_broadcast_height: 0,
            latest_spending_txid: Seq::empty(),
            amount_satoshis: 0,
        }
    }

    open spec fn absorb(acc: BroadcastAwaitingConfirmationView, item: Item) -> Option<
        BroadcastAwaitingConfirmationView,
    > {
        if item.number == 1 {
            match item_text(item) {
                Some(x) => Some(BroadcastAwaitingConfirmationView { channel_id: Some(x), ..acc }),
                None => None,
            }
        } else if item.number == 2 {
            match item_uint32(item) {
                Some(x) => Some(BroadcastAwaitingConfirmationView { latest_broadcast_height: x, ..acc }),
                None => None,
            }
        } else if item.number == 3 {
            match item_text(item) {
                Some(x) => Some(BroadcastAwaitingConfirmationView { latest_spending_txid: x, ..acc }),
                None => None,
            }
        } else if item.number == 4 {
            match item_uint64(item) {
                Some(x) => Some(BroadcastAwaitingConfirmationView { amount_satoshis: x, ..acc }),
                None => None,
            }
        } else {
            Some(acc)
        }
    }

    open spec fn items(v: BroadcastAwaitingConfirmationView) -> Seq<Item> {
        some_text_items(1, v.channel_id)
            + uint32_items(2, v.latest_broadcast_height)
            + text_items(3, v.latest_spending_txid)
            + uint64_items(4, v.amount_satoshis)
    }

    open spec fn fits(v: BroadcastAwaitingConfirmationView) -> bool {
        &&& some_text_fits(v.channel_id)
        &&& text_fits(v.latest_spending_txid)
    }

    fn fresh() -> (m: Self) {
        let m = BroadcastAwaitingConfirmation {
            channel_id: None,
            latest_broadcast_height: 0,
            latest_spending_txid: String::new(),
            amount_satoshis: 0,
        };
        m
    }

    fn take(&mut self, field: &Field<'_>) -> (ok: bool) {
        if field.number == 1 {
            match field_text(field) {
                Some(x) => {
                    self.channel_id = Some(x);
                    true
                },
                None => false,
            }
        } else if field.number == 2 {
            match field_uint32(field) {
                Some(x) => {
                    self.latest_broadcast_height = x;
                    true
                },
                None => false,
            }
        } else if field.number == 3 {
            match field_text(field) {
                Some(x) => {
                    self.latest_spending_txid = x;
                    true
                },
                None => false,
            }
        } else if field.number == 4 {
            match field_uint64(field) {
                Some(x) => {
                    self.amount_satoshis = x;
                    true
                },
                None => false,
            }
        } else {
            true
        }
    }

    fn emit(&self, out: &mut Vec<u8>) {
        let ghost v = self.deep_view();
        put_some_text(1, &self.channel_id, out);
        let ghost run = some_text_items(1, v.channel_id);
        let ghost mid = out@;
        put_uint32(2, self.latest_broadcast_height, out);
        proof {
            lemma_items_bytes_extend(
                old(out)@,
                mid,
                out@,
                run,
                uint32_items(2, v.latest_broadcast_height),
            );
        }
        let ghost run = run + uint32_items(2, v.latest_broadcast_height);
        let ghost mid = out@;
        put_text(3, &self.latest_spending_txid, out);
        proof {
            lemma_items_bytes_extend(
                old(out)@,
                mid,
                out@,
                run,
                text_items(3, v.latest_spending_txid),
            );
        }
        let ghost run = run + text_items(3, v.latest_spending_txid);
        let ghost mid = out@;
        put_uint64(4, self.amount_satoshis, out);
        proof {
            lemma_items_bytes_extend(old(out)@, mid, out@, run, uint64_items(4, v.amount_satoshis));
        }
        let ghost run = run + uint64_items(4, v.amount_satoshis);
    }
}

/// The bytes of a `BroadcastAwaitingConfirmation` are no more than its texts, bytes and nested
/// messages together, and twenty bytes for each field.
pub proof fn lemma_broadcast_awaiting_confirmation_size(v: BroadcastAwaitingConfirmationView)
    ensures
        encoded::<BroadcastAwaitingConfirmation>(v).len() <= 80
            + (match v.channel_id {
                Some(x) => encode_utf8(x).len(),
                None => 0,
            })
            + encode_utf8(v.latest_spending_txid).len(),
{
    let i1 = some_text_items(1, v.channel_id);
    let n1: nat = match v.channel_id { Some(x) => encode_utf8(x).len(), None => 0 };
    lemma_short_run_size(i1, n1);
    let r1 = i1;
    let b1: nat = 20 + n1;
    let i2 = uint32_items(2, v.latest_broadcast_height);
    let n2: nat = 0;
    lemma_short_run_size(i2, n2);
    lemma_joined_size(r1, i2, b1, 20 + n2);
    let r2 = r1 + i2;
    let b2: nat = b1 + 20 + n2;
    let i3 = text_items(3, v.latest_spending_txid);
    let n3: nat = encode_utf8(v.latest_spending_txid).len();
    lemma_short_run_size(i3, n3);
    lemma_joined_size(r2, i3, b2, 20 + n3);
    let r3 = r2 + i3;
    let b3: nat = b2 + 20 + n3;
    let i4 = uint64_items(4, v.amount_satoshis);
    let n4: nat = 0;
    lemma_short_run_size(i4, n4);
    lemma_joined_size(r3, i4, b3, 20 + n4);
    let r4 = r3 + i4;
    let b4: nat = b3 + 20 + n4;
}

impl Lossless for BroadcastAwaitingConfirmation {
    proof fn lemma_round_trip(v: BroadcastAwaitingConfirmationView) {
        let s0 = Self::blank();
        let i1 = some_text_items(1, v.channel_id);
        let s1 = BroadcastAwaitingConfirmationView { channel_id: v.channel_id, ..s0 };
        assert(items_ok(i1) && absorbed::<Self>(s0, i1) == Some(s1)) by {
            reveal(items_ok);
            match v.channel_id {
                Some(x) => {
                    lemma_text_round_trip(1, x);
                    lemma_absorbed_one::<Self>(s0, bytes_item(1, encode_utf8(x)));
                },
                None => {
                    lemma_absorbed_none::<Self>(s0);
                },
            }
        }
        let r1 = i1;
        let i2 = uint32_items(2, v.latest_broadcast_height);
        let s2 = BroadcastAwaitingConfirmationView { latest_broadcast_height: v.latest_broadcast_height, ..s1 };
        assert(items_ok(i2) && absorbed::<Self>(s1, i2) == Some(s2)) by {
            reveal(items_ok);
            if v.latest_broadcast_height == 0 {
                lemma_absorbed_none::<Self>(s1);
            } else {
                lemma_absorbed_one::<Self>(s1, scalar_item(2, v.latest_broadcast_height as u64));
            }
        }
        lemma_absorbed_concat::<Self>(s0, r1, i2);
        lemma_items_ok_concat(r1, i2);
        let r2 = r1 + i2;
        let i3 = text_items(3, v.latest_spending_txid);
        let s3 = BroadcastAwaitingConfirmationView { latest_spending_txid: v.latest_spending_txid, ..s2 };
        assert(items_ok(i3) && absorbed::<Self>(s2, i3) == Some(s3)) by {
            reveal(items_ok);
            if v.latest_spending_txid.len() == 0 {
                assert(v.latest_spending_txid =~= Seq::<char>::empty());
                lemma_absorbed_none::<Self>(s2);
            } else {
                lemma_text_round_trip(3, v.latest_spending_txid);
                lemma_absorbed_one::<Self>(s2, bytes_item(3, encode_utf8(v.latest_spending_txid)));
            }
        }
        lemma_absorbed_concat::<Self>(s0, r2, i3);
        lemma_items_ok_concat(r2, i3);
        let r3 = r2 + i3;
        let i4 = uint64_items(4, v.amount_satoshis);
        let s4 = BroadcastAwaitingConfirmationView { amount_satoshis: v.amount_satoshis, ..s3 };
        assert(items_ok(i4) && absorbed::<Self>(s3, i4) == Some(s4)) by {
            reveal(items_ok);
            if v.amount_satoshis == 0 {
                lemma_absorbed_none::<Self>(s3);
            } else {
                lemma_absorbed_one::<Self>(s3, scalar_item(4, v.amount_satoshis as u64));
            }
        }
        lemma_absorbed_concat::<Self>(s0, r3, i4);
        lemma_items_ok_concat(r3, i4);
        let r4 = r3 + i4;
        assert(s4 == v);
    }
}

/// A sweep that is confirmed and waits to be deep enough.
#[derive(Clone, Debug, PartialEq, Eq)]
pub struct AwaitingThresholdConfirmations {
    /// The channel the funds come from, in hexadecimal, where known.
    pub channel_id: Option<String>,
    pub latest_spending_txid: String,
    pub confirmation_hash: String,
    pub confirmation_height: u32,
    pub amount_satoshis: u64,
}

/// What a `AwaitingThresholdConfirmations` holds, as specifications see it.
pub struct AwaitingThresholdConfirmationsView {
    pub channel_id: Option<Seq<char>>,
    pub latest_spending_txid: Seq<char>,
    pub confirmation_hash: Seq<char>,
    pub confirmation_height: u32,
    pub amount_satoshis: u64,
}

impl DeepView for AwaitingThresholdConfirmations {
    type V = AwaitingThresholdConfirmationsView;

    open spec fn deep_view(&self) -> AwaitingThresholdConfirmationsView {
        AwaitingThresholdConfirmationsView {
            channel_id: self.channel_id.deep_view(),
            latest_spending_txid: self.latest_spending_txid.deep_view(),
            confirmation_hash: self.confirmation_hash.deep_view(),
            confirmation_height: self.confirmation_height.deep_view(),
            amount_satoshis: self.amount_satoshis.deep_view(),
        }
    }
}

impl View for AwaitingThresholdConfirmations {
    type V = AwaitingThresholdConfirmationsView;

    open spec fn view(&self) -> AwaitingThresholdConfirmationsView {
        self.deep_view()
    }
}

impl Message for AwaitingThresholdConfirmations {
    open spec fn blank() -> AwaitingThresholdConfirmationsView {
        AwaitingThresholdConfirmationsView {
            channel_id: None,
            latest_spending_txid: Seq::empty(),
            confirmation_hash: Seq::empty(),
            confirmation_height: 0,
            amount_satoshis: 0,
        }
    }

    open spec fn absorb(acc: AwaitingThresholdConfirmationsView, item: Item) -> Option<
        AwaitingThresholdConfirmationsView,
    > {
        if item.number == 1 {
            match item_text(item) {
                Some(x) => Some(AwaitingThresholdConfirmationsView { channel_id: Some(x), ..acc }),
                None => None,
            }
        } else if item.number == 2 {
            match item_text(item) {
                Some(x) => Some(AwaitingThresholdConfirmationsView { latest_spending_txid: x, ..acc }),
                None => None,
            }
        } else if item.number == 3 {
            match item_text(item) {
                Some(x) => Some(AwaitingThresholdConfirmationsView { confirmation_hash: x, ..acc }),
                None => None,
            }
        } else if item.number == 4 {
            match item_uint32(item) {
                Some(x) => Some(AwaitingThresholdConfirmationsView { confirmation_height: x, ..acc }),
                None => None,
            }
        } else if item.number == 5 {
            match item_uint64(item) {
                Some(x) => Some(AwaitingThresholdConfirmationsView { amount_satoshis: x, ..acc }),
                None => None,
            }
        } else {
            Some(acc)
        }
    }

    open spec fn items(v: AwaitingThresholdConfirmationsView) -> Seq<Item> {
        some_text_items(1, v.channel_id)
            + text_items(2, v.latest_spending_txid)
            + text_items(3, v.confirmation_hash)
            + uint32_items(4, v.confirmation_height)
            + uint64_items(5, v.amount_satoshis)
    }

    open spec fn fits(v: AwaitingThresholdConfirmationsView) -> bool {
        &&& some_text_fits(v.channel_id)
        &&& text_fits(v.latest_spending_txid)
        &&& text_fits(v.confirmation_hash)
    }

    fn fresh() -> (m: Self) {
        let m = AwaitingThresholdConfirmations {
            channel_id: None,
            latest_spending_txid: String::new(),
            confirmation_hash: String::new(),
            confirmation_height: 0,
            amount_satoshis: 0,
        };
        m
    }

    fn take(&mut self, field: &Field<'_>) -> (ok: bool) {
        if field.number == 1 {
            match field_text(field) {
                Some(x) => {
                    self.channel_id = Some(x);
                    true
                },
                None => false,
            }
        } else if field.number == 2 {
            match field_text(field) {
                Some(x) => {
                    self.latest_spending_txid = x;
                    true
                },
                None => false,
            }
        } else if field.number == 3 {
            match field_text(field) {
                Some(x) => {
                    self.confirmation_hash = x;
                    true
                },
                None => false,
            }
        } else if field.number == 4 {
            match field_uint32(field) {
                Some(x) => {
                    self.confirmation_height = x;
                    true
                },
                None => false,
            }
        } else if field.number == 5 {
            match field_uint64(field) {
                Some(x) => {
                    self.amount_satoshis = x;
                    true
                },
                None => false,
            }
        } else {
            true
        }
    }

    fn emit(&self, out: &mut Vec<u8>) {
        let ghost v = self.deep_view();
        put_some_text(1, &self.channel_id, out);
        let ghost run = some_text_items(1, v.channel_id);
        let ghost mid = out@;
        put_text(2, &self.latest_spending_txid, out);
        proof {
            lemma_items_bytes_extend(
                old(out)@,
                mid,
                out@,
                run,
                text_items(2, v.latest_spending_txid),
            );
        }
        let ghost run = run + text_items(2, v.latest_spending_txid);
        let ghost mid = out@;
        put_text(3, &self.confirmation_hash, out);
        proof {
            lemma_items_bytes_extend(old(out)@, mid, out@, run, text_items(3, v.confirmation_hash));
        }
        let ghost run = run + text_items(3, v.confirmation_hash);
        let ghost mid = out@;
        put_uint32(4, self.confirmation_height, out);
        proof {
            lemma_items_bytes_extend(
                old(out)@,
                mid,
                out@,
                run,
                uint32_items(4, v.confirmation_height),
            );
        }
        let ghost run = run + uint32_items(4, v.confirmation_height);
        let ghost mid = out@;
        put_uint64(5, self.amount_satoshis, out);
        proof {
            lemma_items_bytes_extend(old(out)@, mid, out@, run, uint64_items(5, v.amount_satoshis));
        }
        let ghost run = run + uint64_items(5, v.amount_satoshis);
    }
}

/// The bytes of a `AwaitingThresholdConfirmations` are no more than its texts, bytes and nested
/// messages together, and twenty bytes for each field.
pub proof fn lemma_awaiting_threshold_confirmations_size(v: AwaitingThresholdConfirmationsView)
    ensures
        encoded::<AwaitingThresholdConfirmations>(v).len() <= 100
            + (match v.channel_id {
                Some(x) => encode_utf8(x).len(),
                None => 0,
            })
            + encode_utf8(v.latest_spending_txid).len()
            + encode_utf8(v.confirmation_hash).len(),
{
    let i1 = some_text_items(1, v.channel_id);
    let n1: nat = match v.channel_id { Some(x) => encode_utf8(x).len(), None => 0 };
    lemma_short_run_size(i1, n1);
    let r1 = i1;
    let b1: nat = 20 + n1;
    let i2 = text_items(2, v.latest_spending_txid);
    let n2: nat = encode_utf8(v.latest_spending_txid).len();
    lemma_short_run_size(i2, n2);
    lemma_joined_size(r1, i2, b1, 20 + n2);
    let r2 = r1 + i2;
    let b2: nat = b1 + 20 + n2;
    let i3 = text_items(3, v.confirmation_hash);
    let n3: nat = encode_utf8(v.confirmation_hash).len();
    lemma_short_run_size(i3, n3);
    lemma_joined_size(r2, i3, b2, 20 + n3);
    let r3 = r2 + i3;
    let b3: nat = b2 + 20 + n3;
    let i4 = uint32_items(4, v.confirmation_height);
    let n4: nat = 0;
    lemma_short_run_size(i4, n4);
    lemma_joined_size(r3, i4, b3, 20 + n4);
    let r4 = r3 + i4;
    let b4: nat = b3 + 20 + n4;
    let i5 = uint64_items(5, v.amount_satoshis);
    let n5: nat = 0;
    lemma_short_run_size(i5, n5);
    lemma_joined_size(r4, i5, b4, 20 + n5);
    let r5 = r4 + i5;
    let b5: nat = b4 + 20 + n5;
}

impl Lossless for AwaitingThresholdConfirmations {
    proof fn lemma_round_trip(v: AwaitingThresholdConfirmationsView) {
        let s0 = Self::blank();
        let i1 = some_text_items(1, v.channel_id);
        let s1 = AwaitingThresholdConfirmationsView { channel_id: v.channel_id, ..s0 };
        assert(items_ok(i1) && absorbed::<Self>(s0, i1) == Some(s1)) by {
            reveal(items_ok);
            match v.channel_id {
                Some(x) => {
                    lemma_text_round_trip(1, x);
                    lemma_absorbed_one::<Self>(s0, bytes_item(1, encode_utf8(x)));
                },
                None => {
                    lemma_absorbed_none::<Self>(s0);
                },
            }
        }
        let r1 = i1;
        let i2 = text_items(2, v.latest_spending_txid);
        let s2 = AwaitingThresholdConfirmationsView { latest_spending_txid: v.latest_spending_txid, ..s1 };
        assert(items_ok(i2) && absorbed::<Self>(s1, i2) == Some(s2)) by {
            reveal(items_ok);
            if v.latest_spending_txid.len() == 0 {
                assert(v.latest_spending_txid =~= Seq::<char>::empty());
                lemma_absorbed_none::<Self>(s1);
            } else {
                lemma_text_round_trip(2, v.latest_spending_txid);
                lemma_absorbed_one::<Self>(s1, bytes_item(2, encode_utf8(v.latest_spending_txid)));
            }
        }
        lemma_absorbed_concat::<Self>(s0, r1, i2);
        lemma_items_ok_concat(r1, i2);
        let r2 = r1 + i2;
        let i3 = text_items(3, v.confirmation_hash);
        let s3 = AwaitingThresholdConfirmationsView { confirmation_hash: v.confirmation_hash, ..s2 };
        assert(items_ok(i3) && absorbed::<Self>(s2, i3) == Some(s3)) by {
            reveal(items_ok);
            if v.confirmation_hash.len() == 0 {
                assert(v.confirmation_hash =~= Seq::<char>::empty());
                lemma_absorbed_none::<Self>(s2);
            } else {
                lemma_text_round_trip(3, v.confirmation_hash);
                lemma_absorbed_one::<Self>(s2, bytes_item(3, encode_utf8(v.confirmation_hash)));
            }
        }
        lemma_absorbed_concat::<Self>(s0, r2, i3);
        lemma_items_ok_concat(r2, i3);
        let r3 = r2 + i3;
        let i4 = uint32_items(4, v.confirmation_height);
        let s4 = AwaitingThresholdConfirmationsView { confirmation_height: v.confirmation_height, ..s3 };
        assert(items_ok(i4) && absorbed::<Self>(s3, i4) == Some(s4)) by {
            reveal(items_ok);
            if v.confirmation_height == 0 {
                lemma_absorbed_none::<Self>(s3);
            } else {
                lemma_absorbed_one::<Self>(s3, scalar_item(4, v.confirmation_height as u64));
            }
        }
        lemma_absorbed_concat::<Self>(s0, r3, i4);
        lemma_items_ok_concat(r3, i4);
        let r4 = r3 + i4;
        let i5 = uint64_items(5, v.amount_satoshis);
        let s5 = AwaitingThresholdConfirmationsView { amount_satoshis: v.amount_satoshis, ..s4 };
        assert(items_ok(i5) && absorbed::<Self>(s4, i5) == Some(s5)) by {
            reveal(items_ok);
            if v.amount_satoshis == 0 {
                lemma_absorbed_none::<Self>(s4);
            } else {
                lemma_absorbed_one::<Self>(s4, scalar_item(5, v.amount_satoshis as u64));
            }
        }
        lemma_absorbed_concat::<Self>(s0, r4, i5);
        lemma_items_ok_concat(r4, i5);
        let r5 = r4 + i5;
        assert(s5 == v);
    }
}

/// An envelope for one pending sweep, of whichever kind.
#[derive(Clone, Debug, PartialEq, Eq)]
pub struct PendingSweepBalance {
    pub balance_type: Option<pending_sweep_balance::BalanceType>,
}

/// What a `PendingSweepBalance` holds, as specifications see it.
pub struct PendingSweepBalanceView {
    pub balance_type: Option<pending_sweep_balance::BalanceTypeView>,
}

impl DeepView for PendingSweepBalance {
    type V = PendingSweepBalanceView;

    open spec fn deep_view(&self) -> PendingSweepBalanceView {
        PendingSweepBalanceView {
            balance_type: self.balance_type.deep_view(),
        }
    }
}

impl View for PendingSweepBalance {
    type V = PendingSweepBalanceView;

    open spec fn view(&self) -> PendingSweepBalanceView {
        self.deep_view()
    }
}

/// The one field that stands for the payload that is set, or none.
pub open spec fn pending_sweep_balance_balance_type_items(
    value: Option<pending_sweep_balance::BalanceTypeView>,
) -> Seq<Item> {
    match value {
        Some(pending_sweep_balance::BalanceTypeView::PendingBroadcast(inner)) => seq![bytes_item(1, encoded::<PendingBroadcast>(inner))],
        Some(pending_sweep_balance::BalanceTypeView::BroadcastAwaitingConfirmation(inner)) => seq![bytes_item(2, encoded::<BroadcastAwaitingConfirmation>(inner))],
        Some(pending_sweep_balance::BalanceTypeView::AwaitingThresholdConfirmations(inner)) => seq![bytes_item(3, encoded::<AwaitingThresholdConfirmations>(inner))],
        None => Seq::empty(),
    }
}

/// The payload that is set, if any, has a length that the wire can state.
pub open spec fn pending_sweep_balance_balance_type_fits(
    value: Option<pending_sweep_balance::BalanceTypeView>,
) -> bool {
    match value {
        Some(pending_sweep_balance::BalanceTypeView::PendingBroadcast(inner)) => message_fits::<PendingBroadcast>(inner),
        Some(pending_sweep_balance::BalanceTypeView::BroadcastAwaitingConfirmation(inner)) => message_fits::<BroadcastAwaitingConfirmation>(inner),
        Some(pending_sweep_balance::BalanceTypeView::AwaitingThresholdConfirmations(inner)) => message_fits::<AwaitingThresholdConfirmations>(inner),
        None => true,
    }
}

impl Message for PendingSweepBalance {
    open spec fn blank() -> PendingSweepBalanceView {
        PendingSweepBalanceView {
            balance_type: None,
        }
    }

    open spec fn absorb(acc: PendingSweepBalanceView, item: Item) -> Option<
        PendingSweepBalanceView,
    > {
        if item.number == 1 {
            match item_nested::<PendingBroadcast>(
                match acc.balance_type {
                    Some(pending_sweep_balance::BalanceTypeView::PendingBroadcast(held)) => Some(held),
                    _ => None,
                },
                item,
            ) {
                Some(x) => Some(PendingSweepBalanceView { balance_type: Some(pending_sweep_balance::BalanceTypeView::PendingBroadcast(x)), ..acc }),
                None => None,
            }
        } else if item.number == 2 {
            match item_nested::<BroadcastAwaitingConfirmation>(
                match acc.balance_type {
                    Some(pending_sweep_balance::BalanceTypeView::BroadcastAwaitingConfirmation(held)) => Some(held),
                    _ => None,
                },
                item,
            ) {
                Some(x) => Some(PendingSweepBalanceView { balance_type: Some(pending_sweep_balance::BalanceTypeView::BroadcastAwaitingConfirmation(x)), ..acc }),
                None => None,
            }
        } else if item.number == 3 {
            match item_nested::<AwaitingThresholdConfirmations>(
                match acc.balance_type {
                    Some(pending_sweep_balance::BalanceTypeView::AwaitingThresholdConfirmations(held)) => Some(held),
                    _ => None,
                },
                item,
            ) {
                Some(x) => Some(PendingSweepBalanceView { balance_type: Some(pending_sweep_balance::BalanceTypeView::AwaitingThresholdConfirmations(x)), ..acc }),
                None => None,
            }
        } else {
            Some(acc)
        }
    }

    open spec fn items(v: PendingSweepBalanceView) -> Seq<Item> {
        pending_sweep_balance_balance_type_items(v.balance_type)
    }

    open spec fn fits(v: PendingSweepBalanceView) -> bool {
        &&& pending_sweep_balance_balance_type_fits(v.balance_type)
    }

    fn fresh() -> (m: Self) {
        let m = PendingSweepBalance {
            balance_type: None,
        };
        m
    }

    fn take(&mut self, field: &Field<'_>) -> (ok: bool) {
        if field.number == 1 {
            let mut slot = match self.balance_type.take() {
                Some(pending_sweep_balance::BalanceType::PendingBroadcast(held)) => Some(held),
                _ => None,
            };
            if take_nested(&mut slot, field) {
                match slot {
                    Some(x) => {
                        self.balance_type = Some(pending_sweep_balance::BalanceType::PendingBroadcast(x));
                        true
                    },
                    None => false,
                }
            } else {
                false
            }
        } else if field.number == 2 {
            let mut slot = match self.balance_type.take() {
                Some(pending_sweep_balance::BalanceType::BroadcastAwaitingConfirmation(held)) => Some(held),
                _ => None,
            };
            if take_nested(&mut slot, field) {
                match slot {
                    Some(x) => {
                        self.balance_type = Some(pending_sweep_balance::BalanceType::BroadcastAwaitingConfirmation(x));
                        true
                    },
                    None => false,
                }
            } else {
                false
            }
        } else if field.number == 3 {
            let mut slot = match self.balance_type.take() {
                Some(pending_sweep_balance::BalanceType::AwaitingThresholdConfirmations(held)) => Some(held),
                _ => None,
            };
            if take_nested(&mut slot, field) {
                match slot {
                    Some(x) => {
                        self.balance_type = Some(pending_sweep_balance::BalanceType::AwaitingThresholdConfirmations(x));
                        true
                    },
                    None => false,
                }
            } else {
                false
            }
        } else {
            true
        }
    }

    fn emit(&self, out: &mut Vec<u8>) {
        let ghost v = self.deep_view();
        match &self.balance_type {
            Some(pending_sweep_balance::BalanceType::PendingBroadcast(inner)) => {
                put_message(1, inner, out);
                proof {
                    lemma_items_bytes_one(bytes_item(1, encoded::<PendingBroadcast>(inner.deep_view())));
                }
            },
            Some(pending_sweep_balance::BalanceType::BroadcastAwaitingConfirmation(inner)) => {
                put_message(2, inner, out);
                proof {
                    lemma_items_bytes_one(bytes_item(2, encoded::<BroadcastAwaitingConfirmation>(inner.deep_view())));
                }
            },
            Some(pending_sweep_balance::BalanceType::AwaitingThresholdConfirmations(inner)) => {
                put_message(3, inner, out);
                proof {
                    lemma_items_bytes_one(bytes_item(3, encoded::<AwaitingThresholdConfirmations>(inner.deep_view())));
                }
            },
            None => {
                assert(out@ =~= old(out)@ + items_bytes(Seq::empty()));
            },
        }
        let ghost run = pending_sweep_balance_balance_type_items(v.balance_type);
    }
}

impl Lossless for PendingSweepBalance {
    proof fn lemma_round_trip(v: PendingSweepBalanceView) {
        let s0 = Self::blank();
        let i1 = pending_sweep_balance_balance_type_items(v.balance_type);
        let s1 = PendingSweepBalanceView { balance_type: v.balance_type, ..s0 };
        assert(items_ok(i1) && absorbed::<Self>(s0, i1) == Some(s1)) by {
            reveal(items_ok);
            match v.balance_type {
                Some(pending_sweep_balance::BalanceTypeView::PendingBroadcast(x)) => {
                    lemma_nested_round_trip::<PendingBroadcast>(1, x);
                    lemma_absorbed_one::<Self>(s0, bytes_item(1, encoded::<PendingBroadcast>(x)));
                },
                Some(pending_sweep_balance::BalanceTypeView::BroadcastAwaitingConfirmation(x)) => {
                    lemma_nested_round_trip::<BroadcastAwaitingConfirmation>(2, x);
                    lemma_absorbed_one::<Self>(s0, bytes_item(2, encoded::<BroadcastAwaitingConfirmation>(x)));
                },
                Some(pending_sweep_balance::BalanceTypeView::AwaitingThresholdConfirmations(x)) => {
                    lemma_nested_round_trip::<AwaitingThresholdConfirmations>(3, x);
                    lemma_absorbed_one::<Self>(s0, bytes_item(3, encoded::<AwaitingThresholdConfirmations>(x)));
                },
                None => {
                    lemma_absorbed_none::<Self>(s0);
                },
            }
        }
        let r1 = i1;
        assert(s1 == v);
    }
}

/// The node's balances.
#[derive(Clone, Debug, PartialEq, Eq)]
pub struct GetBalancesResponse {
    pub total_onchain_balance_sats: u64,
    pub spendable_onchain_balance_sats: u64,
    pub total_anchor_channels_reserve_sats: u64,
    pub total_lightning_balance_sats: u64,
    pub lightning_balances: Vec<LightningBalance>,
    pub pending_balances_from_channel_closures: Vec<PendingSweepBalance>,
}

/// What a `GetBalancesResponse` holds, as specifications see it.
pub struct GetBalancesResponseView {
    pub total_onchain_balance_sats: u64,
    pub spendable_onchain_balance_sats: u64,
    pub total_anchor_channels_reserve_sats: u64,
    pub total_lightning_balance_sats: u64,
    pub lightning_balances: Seq<LightningBalanceView>,
    pub pending_balances_from_channel_closures: Seq<PendingSweepBalanceView>,
}

impl DeepView for GetBalancesResponse {
    type V = GetBalancesResponseView;

    open spec fn deep_view(&self) -> GetBalancesResponseView {
        GetBalancesResponseView {
            total_onchain_balance_sats: self.total_onchain_balance_sats.deep_view(),
            spendable_onchain_balance_sats: self.spendable_onchain_balance_sats.deep_view(),
            total_anchor_channels_reserve_sats: self.total_anchor_channels_reserve_sats.deep_view(),
            total_lightning_balance_sats: self.total_lightning_balance_sats.deep_view(),
            lightning_balances: self.lightning_balances.deep_view(),
            pending_balances_from_channel_closures: self.pending_balances_from_channel_closures.deep_view(),
        }
    }
}

impl View for GetBalancesResponse {
    type V = GetBalancesResponseView;

    open spec fn view(&self) -> GetBalancesResponseView {
        self.deep_view()
    }
}

impl Message for GetBalancesResponse {
    open spec fn blank() -> GetBalancesResponseView {
        GetBalancesResponseView {
            total_onchain_balance_sats: 0,
            spendable_onchain_balance_sats: 0,
            total_anchor_channels_reserve_sats: 0,
            total_lightning_balance_sats: 0,
            lightning_balances: Seq::empty(),
            pending_balances_from_channel_closures: Seq::empty(),
        }
    }

    open spec fn absorb(acc: GetBalancesResponseView, item: Item) -> Option<
        GetBalancesResponseView,
    > {
        if item.number == 1 {
            match item_uint64(item) {
                Some(x) => Some(GetBalancesResponseView { total_onchain_balance_sats: x, ..acc }),
                None => None,
            }
        } else if item.number == 2 {
            match item_uint64(item) {
                Some(x) => Some(GetBalancesResponseView { spendable_onchain_balance_sats: x, ..acc }),
                None => None,
            }
        } else if item.number == 3 {
            match item_uint64(item) {
                Some(x) => Some(GetBalancesResponseView { total_anchor_channels_reserve_sats: x, ..acc }),
                None => None,
            }
        } else if item.number == 4 {
            match item_uint64(item) {
                Some(x) => Some(GetBalancesResponseView { total_lightning_balance_sats: x, ..acc }),
                None => None,
            }
        } else if item.number == 5 {
            match item_nested::<LightningBalance>(None, item) {
                Some(x) => Some(GetBalancesResponseView { lightning_balances: acc.lightning_balances.push(x), ..acc }),
                None => None,
            }
        } else if item.number == 6 {
            match item_nested::<PendingSweepBalance>(None, item) {
                Some(x) => Some(GetBalancesResponseView { pending_balances_from_channel_closures: acc.pending_balances_from_channel_closures.push(x), ..acc }),
                None => None,
            }
        } else {
            Some(acc)
        }
    }

    open spec fn items(v: GetBalancesResponseView) -> Seq<Item> {
        uint64_items(1, v.total_onchain_balance_sats)
            + uint64_items(2, v.spendable_onchain_balance_sats)
            + uint64_items(3, v.total_anchor_channels_reserve_sats)
            + uint64_items(4, v.total_lightning_balance_sats)
            + repeated_items::<LightningBalance>(5, v.lightning_balances)
            + repeated_items::<PendingSweepBalance>(6, v.pending_balances_from_channel_closures)
    }

    open spec fn fits(v: GetBalancesResponseView) -> bool {
        &&& repeated_fits::<LightningBalance>(v.lightning_balances)
        &&& repeated_fits::<PendingSweepBalance>(v.pending_balances_from_channel_closures)
    }

    fn fresh() -> (m: Self) {
        let m = GetBalancesResponse {
            total_onchain_balance_sats: 0,
            spendable_onchain_balance_sats: 0,
            total_anchor_channels_reserve_sats: 0,
            total_lightning_balance_sats: 0,
            lightning_balances: Vec::new(),
            pending_balances_from_channel_closures: Vec::new(),
        };
        assert(m.lightning_balances.deep_view() =~= Seq::empty());
        assert(m.pending_balances_from_channel_closures.deep_view() =~= Seq::empty());
        m
    }

    fn take(&mut self, field: &Field<'_>) -> (ok: bool) {
        if field.number == 1 {
            match field_uint64(field) {
                Some(x) => {
                    self.total_onchain_balance_sats = x;
                    true
                },
                None => false,
            }
        } else if field.number == 2 {
            match field_uint64(field) {
                Some(x) => {
                    self.spendable_onchain_balance_sats = x;
                    true
                },
                None => false,
            }
        } else if field.number == 3 {
            match field_uint64(field) {
                Some(x) => {
                    self.total_anchor_channels_reserve_sats = x;
                    true
                },
                None => false,
            }
        } else if field.number == 4 {
            match field_uint64(field) {
                Some(x) => {
                    self.total_lightning_balance_sats = x;
                    true
                },
                None => false,
            }
        } else if field.number == 5 {
            take_repeated(&mut self.lightning_balances, field)
        } else if field.number == 6 {
            take_repeated(&mut self.pending_balances_from_channel_closures, field)
        } else {
            true
        }
    }

    fn emit(&self, out: &mut Vec<u8>) {
        let ghost v = self.deep_view();
        put_uint64(1, self.total_onchain_balance_sats, out);
        let ghost run = uint64_items(1, v.total_onchain_balance_sats);
        let ghost mid = out@;
        put_uint64(2, self.spendable_onchain_balance_sats, out);
        proof {
            lemma_items_bytes_extend(
                old(out)@,
                mid,
                out@,
                run,
                uint64_items(2, v.spendable_onchain_balance_sats),
            );
        }
        let ghost run = run + uint64_items(2, v.spendable_onchain_balance_sats);
        let ghost mid = out@;
        put_uint64(3, self.total_anchor_channels_reserve_sats, out);
        proof {
            lemma_items_bytes_extend(
                old(out)@,
                mid,
                out@,
                run,
                uint64_items(3, v.total_anchor_channels_reserve_sats),
            );
        }
        let ghost run = run + uint64_items(3, v.total_anchor_channels_reserve_sats);
        let ghost mid = out@;
        put_uint64(4, self.total_lightning_balance_sats, out);
        proof {
            lemma_items_bytes_extend(
                old(out)@,
                mid,
                out@,
                run,
                uint64_items(4, v.total_lightning_balance_sats),
            );
        }
        let ghost run = run + uint64_items(4, v.total_lightning_balance_sats);
        let ghost mid = out@;
        put_repeated(5, &self.lightning_balances, out);
        proof {
            lemma_items_bytes_extend(
                old(out)@,
                mid,
                out@,
                run,
                repeated_items::<LightningBalance>(5, v.lightning_balances),
            );
        }
        let ghost run = run + repeated_items::<LightningBalance>(5, v.lightning_balances);
        let ghost mid = out@;
        put_repeated(6, &self.pending_balances_from_channel_closures, out);
        proof {
            lemma_items_bytes_extend(
                old(out)@,
                mid,
                out@,
                run,
                repeated_items::<PendingSweepBalance>(6, v.pending_balances_from_channel_closures),
            );
        }
        let ghost run = run + repeated_items::<PendingSweepBalance>(6, v.pending_balances_from_channel_closures);
    }
}

/// Taking in the fields of a list adds its messages, in order, to what was held.
proof fn lemma_get_balances_response_lightning_balances(
    acc: GetBalancesResponseView,
    values: Seq<LightningBalanceView>,
)
    requires
        repeated_fits::<LightningBalance>(values),
    ensures
        items_ok(repeated_items::<LightningBalance>(5, values)),
        absorbed::<GetBalancesResponse>(acc, repeated_items::<LightningBalance>(5, values)) == Some(
            GetBalancesResponseView { lightning_balances: acc.lightning_balances + values, ..acc },
        ),
    decreases values.len(),
{
    if values.len() == 0 {
        reveal(items_ok);
        lemma_absorbed_none::<GetBalancesResponse>(acc);
        assert(acc.lightning_balances + values =~= acc.lightning_balances);
    } else {
        let front = values.drop_last();
        let last = values.last();
        let item = bytes_item(5, encoded::<LightningBalance>(last));
        let mid = GetBalancesResponseView { lightning_balances: acc.lightning_balances + front, ..acc };
        assert(repeated_fits::<LightningBalance>(front));
        lemma_get_balances_response_lightning_balances(acc, front);
        lemma_nested_round_trip::<LightningBalance>(5, last);
        lemma_absorbed_one::<GetBalancesResponse>(mid, item);
        let run = repeated_items::<LightningBalance>(5, front);
        assert(repeated_items::<LightningBalance>(5, values) =~= run + seq![item]);
        lemma_absorbed_concat::<GetBalancesResponse>(acc, run, seq![item]);
        assert(item_ok(item));
        lemma_items_ok_push(run, item);
        assert((acc.lightning_balances + front).push(last) =~= acc.lightning_balances + values);
    }
}

/// Taking in the fields of a list adds its messages, in order, to what was held.
proof fn lemma_get_balances_response_pending_balances_from_channel_closures(
    acc: GetBalancesResponseView,
    values: Seq<PendingSweepBalanceView>,
)
    requires
        repeated_fits::<PendingSweepBalance>(values),
    ensures
        items_ok(repeated_items::<PendingSweepBalance>(6, values)),
        absorbed::<GetBalancesResponse>(acc, repeated_items::<PendingSweepBalance>(6, values)) == Some(
            GetBalancesResponseView { pending_balances_from_channel_closures: acc.pending_balances_from_channel_closures + values, ..acc },
        ),
    decreases values.len(),
{
    if values.len() == 0 {
        reveal(items_ok);
        lemma_absorbed_none::<GetBalancesResponse>(acc);
        assert(acc.pending_balances_from_channel_closures + values =~= acc.pending_balances_from_channel_closures);
    } else {
        let front = values.drop_last();
        let last = values.last();
        let item = bytes_item(6, encoded::<PendingSweepBalance>(last));
        let mid = GetBalancesResponseView { pending_balances_from_channel_closures: acc.pending_balances_from_channel_closures + front, ..acc };
        assert(repeated_fits::<PendingSweepBalance>(front));
        lemma_get_balances_response_pending_balances_from_channel_closures(acc, front);
        lemma_nested_round_trip::<PendingSweepBalance>(6, last);
        lemma_absorbed_one::<GetBalancesResponse>(mid, item);
        let run = repeated_items::<PendingSweepBalance>(6, front);
        assert(repeated_items::<PendingSweepBalance>(6, values) =~= run + seq![item]);
        lemma_absorbed_concat::<GetBalancesResponse>(acc, run, seq![item]);
        assert(item_ok(item));
        lemma_items_ok_push(run, item);
        assert((acc.pending_balances_from_channel_closures + front).push(last) =~= acc.pending_balances_from_channel_closures + values);
    }
}

impl Lossless for GetBalancesResponse {
    proof fn lemma_round_trip(v: GetBalancesResponseView) {
        let s0 = Self::blank();
        let i1 = uint64_items(1, v.total_onchain_balance_sats);
        let s1 = GetBalancesResponseView { total_onchain_balance_sats: v.total_onchain_balance_sats, ..s0 };
        assert(items_ok(i1) && absorbed::<Self>(s0, i1) == Some(s1)) by {
            reveal(items_ok);
            if v.total_onchain_balance_sats == 0 {
                lemma_absorbed_none::<Self>(s0);
            } else {
                lemma_absorbed_one::<Self>(s0, scalar_item(1, v.total_onchain_balance_sats as u64));
            }
        }
        let r1 = i1;
        let i2 = uint64_items(2, v.spendable_onchain_balance_sats);
        let s2 = GetBalancesResponseView { spendable_onchain_balance_sats: v.spendable_onchain_balance_sats, ..s1 };
        assert(items_ok(i2) && absorbed::<Self>(s1, i2) == Some(s2)) by {
            reveal(items_ok);
            if v.spendable_onchain_balance_sats == 0 {
                lemma_absorbed_none::<Self>(s1);
            } else {
                lemma_absorbed_one::<Self>(s1, scalar_item(2, v.spendable_onchain_balance_sats as u64));
            }
        }
        lemma_absorbed_concat::<Self>(s0, r1, i2);
        lemma_items_ok_concat(r1, i2);
        let r2 = r1 + i2;
        let i3 = uint64_items(3, v.total_anchor_channels_reserve_sats);
        let s3 = GetBalancesResponseView { total_anchor_channels_reserve_sats: v.total_anchor_channels_reserve_sats, ..s2 };
        assert(items_ok(i3) && absorbed::<Self>(s2, i3) == Some(s3)) by {
            reveal(items_ok);
            if v.total_anchor_channels_reserve_sats == 0 {
                lemma_absorbed_none::<Self>(s2);
            } else {
                lemma_absorbed_one::<Self>(s2, scalar_item(3, v.total_anchor_channels_reserve_sats as u64));
            }
        }
        lemma_absorbed_concat::<Self>(s0, r2, i3);
        lemma_items_ok_concat(r2, i3);
        let r3 = r2 + i3;
        let i4 = uint64_items(4, v.total_lightning_balance_sats);
        let s4 = GetBalancesResponseView { total_lightning_balance_sats: v.total_lightning_balance_sats, ..s3 };
        assert(items_ok(i4) && absorbed::<Self>(s3, i4) == Some(s4)) by {
            reveal(items_ok);
            if v.total_lightning_balance_sats == 0 {
                lemma_absorbed_none::<Self>(s3);
            } else {
                lemma_absorbed_one::<Self>(s3, scalar_item(4, v.total_lightning_balance_sats as u64));
            }
        }
        lemma_absorbed_concat::<Self>(s0, r3, i4);
        lemma_items_ok_concat(r3, i4);
        let r4 = r3 + i4;
        let i5 = repeated_items::<LightningBalance>(5, v.lightning_balances);
        let s5 = GetBalancesResponseView { lightning_balances: v.lightning_balances, ..s4 };
        assert(items_ok(i5) && absorbed::<Self>(s4, i5) == Some(s5)) by {
            lemma_get_balances_response_lightning_balances(s4, v.lightning_balances);
            assert(s4.lightning_balances + v.lightning_balances =~= v.lightning_balances);
        }
        lemma_absorbed_concat::<Self>(s0, r4, i5);
        lemma_items_ok_concat(r4, i5);
        let r5 = r4 + i5;
        let i6 = repeated_items::<PendingSweepBalance>(6, v.pending_balances_from_channel_closures);
        let s6 = GetBalancesResponseView { pending_balances_from_channel_closures: v.pending_balances_from_channel_closures, ..s5 };
        assert(items_ok(i6) && absorbed::<Self>(s5, i6) == Some(s6)) by {
            lemma_get_balances_response_pending_balances_from_channel_closures(s5, v.pending_balances_from_channel_closures);
            assert(s5.pending_balances_from_channel_closures + v.pending_balances_from_channel_closures =~= v.pending_balances_from_channel_closures);
        }
        lemma_absorbed_concat::<Self>(s0, r5, i6);
        lemma_items_ok_concat(r5, i6);
        let r6 = r5 + i6;
        assert(s6 == v);
    }
}

} // verus!
