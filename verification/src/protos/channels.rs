//! Channels: the list of them, and opening and closing one.

use crate::codec::field::{
    Field, Item, item_ok, items_bytes, items_ok, lemma_items_ok_concat, lemma_items_ok_push,
};
use crate::codec::message::{
    absorbed, encoded, lemma_absorbed_concat, lemma_absorbed_none, lemma_absorbed_one,
    lemma_items_bytes_extend, Lossless, Message,
};
use crate::codec::value::{
    blob_fits, blob_items, bool_items, bytes_item, field_blob, field_bool, field_text,
    field_uint32, field_uint64, item_blob, item_bool, item_nested, item_text, item_uint32,
    item_uint64, lemma_nested_round_trip, lemma_text_round_trip, nested_fits, nested_items,
    put_blob, put_bool, put_nested, put_repeated, put_some_uint32, put_some_uint64, put_text,
    put_uint32, put_uint64, repeated_fits, repeated_items, scalar_item, some_uint32_items,
    some_uint64_items, take_nested, take_repeated, text_fits, text_items, uint32_items,
    uint64_items,
};
use vstd::prelude::*;
use vstd::utf8::encode_utf8;

verus! {

/// Asks for the node's channels.
#[derive(Clone, Debug, PartialEq, Eq)]
pub struct ListChannelsRequest {}

/// What a `ListChannelsRequest` holds, as specifications see it.
pub struct ListChannelsRequestView {}

impl DeepView for ListChannelsRequest {
    type V = ListChannelsRequestView;

    open spec fn deep_view(&self) -> ListChannelsRequestView {
        ListChannelsRequestView {  }
    }
}

impl View for ListChannelsRequest {
    type V = ListChannelsRequestView;

    open spec fn view(&self) -> ListChannelsRequestView {
        self.deep_view()
    }
}

impl Message for ListChannelsRequest {
    open spec fn blank() -> ListChannelsRequestView {
        ListChannelsRequestView {  }
    }

    open spec fn absorb(acc: ListChannelsRequestView, item: Item) -> Option<
        ListChannelsRequestView,
    > {
        Some(acc)
    }

    open spec fn items(v: ListChannelsRequestView) -> Seq<Item> {
        Seq::empty()
    }

    open spec fn fits(v: ListChannelsRequestView) -> bool {
        true
    }

    fn fresh() -> (m: Self) {
        ListChannelsRequest {  }
    }

    fn take(&mut self, field: &Field<'_>) -> (ok: bool) {
        true
    }

    fn emit(&self, out: &mut Vec<u8>) {
        assert(out@ =~= old(out)@ + items_bytes(Seq::empty()));
    }
}

impl Lossless for ListChannelsRequest {
    proof fn lemma_round_trip(v: ListChannelsRequestView) {
        reveal(items_ok);
        lemma_absorbed_none::<Self>(v);
    }
}

/// An output of a transaction.
#[derive(Clone, Debug, PartialEq, Eq)]
pub struct Outpoint {
    /// The transaction's identifier, in the textual form of transaction ids.
    pub txid: String,
    /// The output's index.
    pub vout: u32,
}

/// What a `Outpoint` holds, as specifications see it.
pub struct OutpointView {
    pub txid: Seq<char>,
    pub vout: u32,
}

impl DeepView for Outpoint {
    type V = OutpointView;

    open spec fn deep_view(&self) -> OutpointView {
        OutpointView {
            txid: self.txid.deep_view(),
            vout: self.vout.deep_view(),
        }
    }
}

impl View for Outpoint {
    type V = OutpointView;

    open spec fn view(&self) -> OutpointView {
        self.deep_view()
    }
}

impl Message for Outpoint {
    open spec fn blank() -> OutpointView {
        OutpointView {
            txid: Seq::empty(),
            vout: 0,
        }
    }

    open spec fn absorb(acc: OutpointView, item: Item) -> Option<OutpointView> {
        if item.number == 1 {
            match item_text(item) {
                Some(x) => Some(OutpointView { txid: x, ..acc }),
                None => None,
            }
        } else if item.number == 2 {
            match item_uint32(item) {
                Some(x) => Some(OutpointView { vout: x, ..acc }),
                None => None,
            }
        } else {
            Some(acc)
        }
    }

    open spec fn items(v: OutpointView) -> Seq<Item> {
        text_items(1, v.txid) + uint32_items(2, v.vout)
    }

    open spec fn fits(v: OutpointView) -> bool {
        &&& text_fits(v.txid)
    }

    fn fresh() -> (m: Self) {
        let m = Outpoint {
            txid: String::new(),
            vout: 0,
        };
        m
    }

    fn take(&mut self, field: &Field<'_>) -> (ok: bool) {
        if field.number == 1 {
            match field_text(field) {
                Some(x) => {
                    self.txid = x;
                    true
                },
                None => false,
            }
        } else if field.number == 2 {
            match field_uint32(field) {
                Some(x) => {
                    self.vout = x;
                    true
                },
                None => false,
            }
        } else {
            true
        }
    }

    fn emit(&self, out: &mut Vec<u8>) {
        let ghost v = self.deep_view();
        put_text(1, &self.txid, out);
        let ghost run = text_items(1, v.txid);
        let ghost mid = out@;
        put_uint32(2, self.vout, out);
        proof {
            lemma_items_bytes_extend(old(out)@, mid, out@, run, uint32_items(2, v.vout));
        }
        let ghost run = run + uint32_items(2, v.vout);
    }
}

impl Lossless for Outpoint {
    proof fn lemma_round_trip(v: OutpointView) {
        let s0 = Self::blank();
        let i1 = text_items(1, v.txid);
        let s1 = OutpointView { txid: v.txid, ..s0 };
        assert(items_ok(i1) && absorbed::<Self>(s0, i1) == Some(s1)) by {
            reveal(items_ok);
            if v.txid.len() == 0 {
                assert(v.txid =~= Seq::<char>::empty());
                lemma_absorbed_none::<Self>(s0);
            } else {
                lemma_text_round_trip(1, v.txid);
                lemma_absorbed_one::<Self>(s0, bytes_item(1, encode_utf8(v.txid)));
            }
        }
        let r1 = i1;
        let i2 = uint32_items(2, v.vout);
        let s2 = OutpointView { vout: v.vout, ..s1 };
        assert(items_ok(i2) && absorbed::<Self>(s1, i2) == Some(s2)) by {
            reveal(items_ok);
            if v.vout == 0 {
                lemma_absorbed_none::<Self>(s1);
            } else {
                lemma_absorbed_one::<Self>(s1, scalar_item(2, v.vout as u64));
            }
        }
        lemma_absorbed_concat::<Self>(s0, r1, i2);
        lemma_items_ok_concat(r1, i2);
        let r2 = r1 + i2;
        assert(s2 == v);
    }
}

/// One channel.
#[derive(Clone, Debug, PartialEq, Eq)]
pub struct Channel {
    /// The channel, in hexadecimal.
    pub channel_id: String,
    /// The channel's other party, in hexadecimal.
    pub counterparty_node_id: String,
    /// The output that funds the channel, once known.
    pub funding_txo: Option<Outpoint>,
    pub channel_value_sats: u64,
    pub feerate_sat_per_1000_weight: u32,
    pub outbound_capacity_msat: u64,
    pub inbound_capacity_msat: u64,
    pub confirmations_required: Option<u32>,
    pub confirmations: Option<u32>,
    pub is_outbound: bool,
    pub is_channel_ready: bool,
    pub is_usable: bool,
    pub is_public: bool,
    /// A 16-bit delta, widened.
    pub cltv_expiry_delta: Option<u32>,
    pub counterparty_outbound_htlc_minimum_msat: Option<u64>,
    pub counterparty_outbound_htlc_maximum_msat: Option<u64>,
    pub next_outbound_htlc_limit_msat: u64,
    pub next_outbound_htlc_minimum_msat: u64,
    /// A 16-bit delay, widened.
    pub force_close_spend_delay: Option<u32>,
    pub forwarding_fee_proportional_millionths: u32,
    pub forwarding_fee_base_msat: u32,
}

/// What a `Channel` holds, as specifications see it.
pub struct ChannelView {
    pub channel_id: Seq<char>,
    pub counterparty_node_id: Seq<char>,
    pub funding_txo: Option<OutpointView>,
    pub channel_value_sats: u64,
    pub feerate_sat_per_1000_weight: u32,
    pub outbound_capacity_msat: u64,
    pub inbound_capacity_msat: u64,
    pub confirmations_required: Option<u32>,
    pub confirmations: Option<u32>,
    pub is_outbound: bool,
    pub is_channel_ready: bool,
    pub is_usable: bool,
    pub is_public: bool,
    pub cltv_expiry_delta: Option<u32>,
    pub counterparty_outbound_htlc_minimum_msat: Option<u64>,
    pub counterparty_outbound_htlc_maximum_msat: Option<u64>,
    pub next_outbound_htlc_limit_msat: u64,
    pub next_outbound_htlc_minimum_msat: u64,
    pub force_close_spend_delay: Option<u32>,
    pub forwarding_fee_proportional_millionths: u32,
    pub forwarding_fee_base_msat: u32,
}

impl DeepView for Channel {
    type V = ChannelView;

    open spec fn deep_view(&self) -> ChannelView {
        ChannelView {
            channel_id: self.channel_id.deep_view(),
            counterparty_node_id: self.counterparty_node_id.deep_view(),
            funding_txo: self.funding_txo.deep_view(),
            channel_value_sats: self.channel_value_sats.deep_view(),
            feerate_sat_per_1000_weight: self.feerate_sat_per_1000_weight.deep_view(),
            outbound_capacity_msat: self.outbound_capacity_msat.deep_view(),
            inbound_capacity_msat: self.inbound_capacity_msat.deep_view(),
            confirmations_required: self.confirmations_required.deep_view(),
            confirmations: self.confirmations.deep_view(),
            is_outbound: self.is_outbound.deep_view(),
            is_channel_ready: self.is_channel_ready.deep_view(),
            is_usable: self.is_usable.deep_view(),
            is_public: self.is_public.deep_view(),
            cltv_expiry_delta: self.cltv_expiry_delta.deep_view(),
            counterparty_outbound_htlc_minimum_msat: self.counterparty_outbound_htlc_minimum_msat.deep_view(),
            counterparty_outbound_htlc_maximum_msat: self.counterparty_outbound_htlc_maximum_msat.deep_view(),
            next_outbound_htlc_limit_msat: self.next_outbound_htlc_limit_msat.deep_view(),
            next_outbound_htlc_minimum_msat: self.next_outbound_htlc_minimum_msat.deep_view(),
            force_close_spend_delay: self.force_close_spend_delay.deep_view(),
            forwarding_fee_proportional_millionths: self.forwarding_fee_proportional_millionths.deep_view(),
            forwarding_fee_base_msat: self.forwarding_fee_base_msat.deep_view(),
        }
    }
}

impl View for Channel {
    type V = ChannelView;

    open spec fn view(&self) -> ChannelView {
        self.deep_view()
    }
}

impl Message for Channel {
    open spec fn blank() -> ChannelView {
        ChannelView {
            channel_id: Seq::empty(),
            counterparty_node_id: Seq::empty(),
            funding_txo: None,
            channel_value_sats: 0,
            feerate_sat_per_1000_weight: 0,
            outbound_capacity_msat: 0,
            inbound_capacity_msat: 0,
            confirmations_required: None,
            confirmations: None,
            is_outbound: false,
            is_channel_ready: false,
            is_usable: false,
            is_public: false,
            cltv_expiry_delta: None,
            counterparty_outbound_htlc_minimum_msat: None,
            counterparty_outbound_htlc_maximum_msat: None,
            next_outbound_htlc_limit_msat: 0,
            next_outbound_htlc_minimum_msat: 0,
            force_close_spend_delay: None,
            forwarding_fee_proportional_millionths: 0,
            forwarding_fee_base_msat: 0,
        }
    }

    open spec fn absorb(acc: ChannelView, item: Item) -> Option<ChannelView> {
        if item.number == 1 {
            match item_text(item) {
                Some(x) => Some(ChannelView { channel_id: x, ..acc }),
                None => None,
            }
        } else if item.number == 2 {
            match item_text(item) {
                Some(x) => Some(ChannelView { counterparty_node_id: x, ..acc }),
                None => None,
            }
        } else if item.number == 3 {
            match item_nested::<Outpoint>(acc.funding_txo, item) {
                Some(x) => Some(ChannelView { funding_txo: Some(x), ..acc }),
                None => None,
            }
        } else if item.number == 4 {
            match item_uint64(item) {
                Some(x) => Some(ChannelView { channel_value_sats: x, ..acc }),
                None => None,
            }
        } else if item.number == 5 {
            match item_uint32(item) {
                Some(x) => Some(ChannelView { feerate_sat_per_1000_weight: x, ..acc }),
                None => None,
            }
        } else if item.number == 6 {
            match item_uint64(item) {
                Some(x) => Some(ChannelView { outbound_capacity_msat: x, ..acc }),
                None => None,
            }
        } else if item.number == 7 {
            match item_uint64(item) {
                Some(x) => Some(ChannelView { inbound_capacity_msat: x, ..acc }),
                None => None,
            }
        } else if item.number == 8 {
            match item_uint32(item) {
                Some(x) => Some(ChannelView { confirmations_required: Some(x), ..acc }),
                None => None,
            }
        } else if item.number == 9 {
            match item_uint32(item) {
                Some(x) => Some(ChannelView { confirmations: Some(x), ..acc }),
                None => None,
            }
        } else if item.number == 10 {
            match item_bool(item) {
                Some(x) => Some(ChannelView { is_outbound: x, ..acc }),
                None => None,
            }
        } else if item.number == 11 {
            match item_bool(item) {
                Some(x) => Some(ChannelView { is_channel_ready: x, ..acc }),
                None => None,
            }
        } else if item.number == 12 {
            match item_bool(item) {
                Some(x) => Some(ChannelView { is_usable: x, ..acc }),
                None => None,
            }
        } else if item.number == 13 {
            match item_bool(item) {
                Some(x) => Some(ChannelView { is_public: x, ..acc }),
                None => None,
            }
        } else if item.number == 14 {
            match item_uint32(item) {
                Some(x) => Some(ChannelView { cltv_expiry_delta: Some(x), ..acc }),
                None => None,
            }
        } else if item.number == 15 {
            match item_uint64(item) {
                Some(x) => Some(ChannelView { counterparty_outbound_htlc_minimum_msat: Some(x), ..acc }),
                None => None,
            }
        } else if item.number == 16 {
            match item_uint64(item) {
                Some(x) => Some(ChannelView { counterparty_outbound_htlc_maximum_msat: Some(x), ..acc }),
                None => None,
            }
        } else if item.number == 17 {
            match item_uint64(item) {
                Some(x) => Some(ChannelView { next_outbound_htlc_limit_msat: x, ..acc }),
                None => None,
            }
        } else if item.number == 18 {
            match item_uint64(item) {
                Some(x) => Some(ChannelView { next_outbound_htlc_minimum_msat: x, ..acc }),
                None => None,
            }
        } else if item.number == 19 {
            match item_uint32(item) {
                Some(x) => Some(ChannelView { force_close_spend_delay: Some(x), ..acc }),
                None => None,
            }
        } else if item.number == 20 {
            match item_uint32(item) {
                Some(x) => Some(ChannelView { forwarding_fee_proportional_millionths: x, ..acc }),
                None => None,
            }
        } else if item.number == 21 {
            match item_uint32(item) {
                Some(x) => Some(ChannelView { forwarding_fee_base_msat: x, ..acc }),
                None => None,
            }
        } else {
            Some(acc)
        }
    }

    open spec fn items(v: ChannelView) -> Seq<Item> {
        text_items(1, v.channel_id)
            + text_items(2, v.counterparty_node_id)
            + nested_items::<Outpoint>(3, v.funding_txo)
            + uint64_items(4, v.channel_value_sats)
            + uint32_items(5, v.feerate_sat_per_1000_weight)
            + uint64_items(6, v.outbound_capacity_msat)
            + uint64_items(7, v.inbound_capacity_msat)
            + some_uint32_items(8, v.confirmations_required)
            + some_uint32_items(9, v.confirmations)
            + bool_items(10, v.is_outbound)
            + bool_items(11, v.is_channel_ready)
            + bool_items(12, v.is_usable)
            + bool_items(13, v.is_public)
            + some_uint32_items(14, v.cltv_expiry_delta)
            + some_uint64_items(15, v.counterparty_outbound_htlc_minimum_msat)
            + some_uint64_items(16, v.counterparty_outbound_htlc_maximum_msat)
            + uint64_items(17, v.next_outbound_htlc_limit_msat)
            + uint64_items(18, v.next_outbound_htlc_minimum_msat)
            + some_uint32_items(19, v.force_close_spend_delay)
            + uint32_items(20, v.forwarding_fee_proportional_millionths)
            + uint32_items(21, v.forwarding_fee_base_msat)
    }

    open spec fn fits(v: ChannelView) -> bool {
        &&& text_fits(v.channel_id)
        &&& text_fits(v.counterparty_node_id)
        &&& nested_fits::<Outpoint>(v.funding_txo)
    }

    fn fresh() -> (m: Self) {
        let m = Channel {
            channel_id: String::new(),
            counterparty_node_id: String::new(),
            funding_txo: None,
            channel_value_sats: 0,
            feerate_sat_per_1000_weight: 0,
            outbound_capacity_msat: 0,
            inbound_capacity_msat: 0,
            confirmations_required: None,
            confirmations: None,
            is_outbound: false,
            is_channel_ready: false,
            is_usable: false,
            is_public: false,
            cltv_expiry_delta: None,
            counterparty_outbound_htlc_minimum_msat: None,
            counterparty_outbound_htlc_maximum_msat: None,
            next_outbound_htlc_limit_msat: 0,
            next_outbound_htlc_minimum_msat: 0,
            force_close_spend_delay: None,
            forwarding_fee_proportional_millionths: 0,
            forwarding_fee_base_msat: 0,
        };
        m
    }

    fn take(&mut self, field: &Field<'_>) -> (ok: bool) {
        if field.number == 1 {
            match field_text(field) {
                Some(x) => {
                    self.channel_id = x;
                    true
                },
                None => false,
            }
        } else if field.number == 2 {
            match field_text(field) {
                Some(x) => {
                    self.counterparty_node_id = x;
                    true
                },
                None => false,
            }
        } else if field.number == 3 {
            take_nested(&mut self.funding_txo, field)
        } else if field.number == 4 {
            match field_uint64(field) {
                Some(x) => {
                    self.channel_value_sats = x;
                    true
                },
                None => false,
            }
        } else if field.number == 5 {
            match field_uint32(field) {
                Some(x) => {
                    self.feerate_sat_per_1000_weight = x;
                    true
                },
                None => false,
            }
        } else if field.number == 6 {
            match field_uint64(field) {
                Some(x) => {
                    self.outbound_capacity_msat = x;
                    true
                },
                None => false,
            }
        } else if field.number == 7 {
            match field_uint64(field) {
                Some(x) => {
                    self.inbound_capacity_msat = x;
                    true
                },
                None => false,
            }
        } else if field.number == 8 {
            match field_uint32(field) {
                Some(x) => {
                    self.confirmations_required = Some(x);
                    true
                },
                None => false,
            }
        } else if field.number == 9 {
            match field_uint32(field) {
                Some(x) => {
                    self.confirmations = Some(x);
                    true
                },
                None => false,
            }
        } else if field.number == 10 {
            match field_bool(field) {
                Some(x) => {
                    self.is_outbound = x;
                    true
                },
                None => false,
            }
        } else if field.number == 11 {
            match field_bool(field) {
                Some(x) => {
                    self.is_channel_ready = x;
                    true
                },
                None => false,
            }
        } else if field.number == 12 {
            match field_bool(field) {
                Some(x) => {
                    self.is_usable = x;
                    true
                },
                None => false,
            }
        } else if field.number == 13 {
            match field_bool(field) {
                Some(x) => {
                    self.is_public = x;
                    true
                },
                None => false,
            }
        } else if field.number == 14 {
            match field_uint32(field) {
                Some(x) => {
                    self.cltv_expiry_delta = Some(x);
                    true
                },
                None => false,
            }
        } else if field.number == 15 {
            match field_uint64(field) {
                Some(x) => {
                    self.counterparty_outbound_htlc_minimum_msat = Some(x);
                    true
                },
                None => false,
            }
        } else if field.number == 16 {
            match field_uint64(field) {
                Some(x) => {
                    self.counterparty_outbound_htlc_maximum_msat = Some(x);
                    true
                },
                None => false,
            }
        } else if field.number == 17 {
            match field_uint64(field) {
                Some(x) => {
                    self.next_outbound_htlc_limit_msat = x;
                    true
                },
                None => false,
            }
        } else if field.number == 18 {
            match field_uint64(field) {
                Some(x) => {
                    self.next_outbound_htlc_minimum_msat = x;
                    true
                },
                None => false,
            }
        } else if field.number == 19 {
            match field_uint32(field) {
                Some(x) => {
                    self.force_close_spend_delay = Some(x);
                    true
                },
                None => false,
            }
        } else if field.number == 20 {
            match field_uint32(field) {
                Some(x) => {
                    self.forwarding_fee_proportional_millionths = x;
                    true
                },
                None => false,
            }
        } else if field.number == 21 {
            match field_uint32(field) {
                Some(x) => {
                    self.forwarding_fee_base_msat = x;
                    true
                },
                None => false,
            }
        } else {
            true
        }
    }

    fn emit(&self, out: &mut Vec<u8>) {
        let ghost v = self.deep_view();
        put_text(1, &self.channel_id, out);
        let ghost run = text_items(1, v.channel_id);
        let ghost mid = out@;
        put_text(2, &self.counterparty_node_id, out);
        proof {
            lemma_items_bytes_extend(
                old(out)@,
                mid,
                out@,
                run,
                text_items(2, v.counterparty_node_id),
            );
        }
        let ghost run = run + text_items(2, v.counterparty_node_id);
        let ghost mid = out@;
        put_nested(3, &self.funding_txo, out);
        proof {
            lemma_items_bytes_extend(
                old(out)@,
                mid,
                out@,
                run,
                nested_items::<Outpoint>(3, v.funding_txo),
            );
        }
        let ghost run = run + nested_items::<Outpoint>(3, v.funding_txo);
        let ghost mid = out@;
        put_uint64(4, self.channel_value_sats, out);
        proof {
            lemma_items_bytes_extend(
                old(out)@,
                mid,
                out@,
                run,
                uint64_items(4, v.channel_value_sats),
            );
        }
        let ghost run = run + uint64_items(4, v.channel_value_sats);
        let ghost mid = out@;
        put_uint32(5, self.feerate_sat_per_1000_weight, out);
        proof {
            lemma_items_bytes_extend(
                old(out)@,
                mid,
                out@,
                run,
                uint32_items(5, v.feerate_sat_per_1000_weight),
            );
        }
        let ghost run = run + uint32_items(5, v.feerate_sat_per_1000_weight);
        let ghost mid = out@;
        put_uint64(6, self.outbound_capacity_msat, out);
        proof {
            lemma_items_bytes_extend(
                old(out)@,
                mid,
                out@,
                run,
                uint64_items(6, v.outbound_capacity_msat),
            );
        }
        let ghost run = run + uint64_items(6, v.outbound_capacity_msat);
        let ghost mid = out@;
        put_uint64(7, self.inbound_capacity_msat, out);
        proof {
            lemma_items_bytes_extend(
                old(out)@,
                mid,
                out@,
                run,
                uint64_items(7, v.inbound_capacity_msat),
            );
        }
        let ghost run = run + uint64_items(7, v.inbound_capacity_msat);
        let ghost mid = out@;
        put_some_uint32(8, self.confirmations_required, out);
        proof {
            lemma_items_bytes_extend(
                old(out)@,
                mid,
                out@,
                run,
                some_uint32_items(8, v.confirmations_required),
            );
        }
        let ghost run = run + some_uint32_items(8, v.confirmations_required);
        let ghost mid = out@;
        put_some_uint32(9, self.confirmations, out);
        proof {
            lemma_items_bytes_extend(
                old(out)@,
                mid,
                out@,
                run,
                some_uint32_items(9, v.confirmations),
            );
        }
        let ghost run = run + some_uint32_items(9, v.confirmations);
        let ghost mid = out@;
        put_bool(10, self.is_outbound, out);
        proof {
            lemma_items_bytes_extend(old(out)@, mid, out@, run, bool_items(10, v.is_outbound));
        }
        let ghost run = run + bool_items(10, v.is_outbound);
        let ghost mid = out@;
        put_bool(11, self.is_channel_ready, out);
        proof {
            lemma_items_bytes_extend(old(out)@, mid, out@, run, bool_items(11, v.is_channel_ready));
        }
        let ghost run = run + bool_items(11, v.is_channel_ready);
        let ghost mid = out@;
        put_bool(12, self.is_usable, out);
        proof {
            lemma_items_bytes_extend(old(out)@, mid, out@, run, bool_items(12, v.is_usable));
        }
        let ghost run = run + bool_items(12, v.is_usable);
        let ghost mid = out@;
        put_bool(13, self.is_public, out);
        proof {
            lemma_items_bytes_extend(old(out)@, mid, out@, run, bool_items(13, v.is_public));
        }
        let ghost run = run + bool_items(13, v.is_public);
        let ghost mid = out@;
        put_some_uint32(14, self.cltv_expiry_delta, out);
        proof {
            lemma_items_bytes_extend(
                old(out)@,
                mid,
                out@,
                run,
                some_uint32_items(14, v.cltv_expiry_delta),
            );
        }
        let ghost run = run + some_uint32_items(14, v.cltv_expiry_delta);
        let ghost mid = out@;
        put_some_uint64(15, self.counterparty_outbound_htlc_minimum_msat, out);
        proof {
            lemma_items_bytes_extend(
                old(out)@,
                mid,
                out@,
                run,
                some_uint64_items(15, v.counterparty_outbound_htlc_minimum_msat),
            );
        }
        let ghost run = run + some_uint64_items(15, v.counterparty_outbound_htlc_minimum_msat);
        let ghost mid = out@;
        put_some_uint64(16, self.counterparty_outbound_htlc_maximum_msat, out);
        proof {
            lemma_items_bytes_extend(
                old(out)@,
                mid,
                out@,
                run,
                some_uint64_items(16, v.counterparty_outbound_htlc_maximum_msat),
            );
        }
        let ghost run = run + some_uint64_items(16, v.counterparty_outbound_htlc_maximum_msat);
        let ghost mid = out@;
        put_uint64(17, self.next_outbound_htlc_limit_msat, out);
        proof {
            lemma_items_bytes_extend(
                old(out)@,
                mid,
                out@,
                run,
                uint64_items(17, v.next_outbound_htlc_limit_msat),
            );
        }
        let ghost run = run + uint64_items(17, v.next_outbound_htlc_limit_msat);
        let ghost mid = out@;
        put_uint64(18, self.next_outbound_htlc_minimum_msat, out);
        proof {
            lemma_items_bytes_extend(
                old(out)@,
                mid,
                out@,
                run,
                uint64_items(18, v.next_outbound_htlc_minimum_msat),
            );
        }
        let ghost run = run + uint64_items(18, v.next_outbound_htlc_minimum_msat);
        let ghost mid = out@;
        put_some_uint32(19, self.force_close_spend_delay, out);
        proof {
            lemma_items_bytes_extend(
                old(out)@,
                mid,
                out@,
                run,
                some_uint32_items(19, v.force_close_spend_delay),
            );
        }
        let ghost run = run + some_uint32_items(19, v.force_close_spend_delay);
        let ghost mid = out@;
        put_uint32(20, self.forwarding_fee_proportional_millionths, out);
        proof {
            lemma_items_bytes_extend(
                old(out)@,
                mid,
                out@,
                run,
                uint32_items(20, v.forwarding_fee_proportional_millionths),
            );
        }
        let ghost run = run + uint32_items(20, v.forwarding_fee_proportional_millionths);
        let ghost mid = out@;
        put_uint32(21, self.forwarding_fee_base_msat, out);
        proof {
            lemma_items_bytes_extend(
                old(out)@,
                mid,
                out@,
                run,
                uint32_items(21, v.forwarding_fee_base_msat),
            );
        }
        let ghost run = run + uint32_items(21, v.forwarding_fee_base_msat);
    }
}

/// Taking in what the field `channel_id` writes sets that field and
/// nothing else.
proof fn lemma_channel_channel_id(acc: ChannelView, v: ChannelView)
    requires
        Channel::fits(v),
        acc.channel_id == Channel::blank().channel_id,
    ensures
        items_ok(text_items(1, v.channel_id)),
        absorbed::<Channel>(acc, text_items(1, v.channel_id)) == Some(
            ChannelView { channel_id: v.channel_id, ..acc },
        ),
{
    reveal(items_ok);
    if v.channel_id.len() == 0 {
        assert(v.channel_id =~= Seq::<char>::empty());
        lemma_absorbed_none::<Channel>(acc);
    } else {
        lemma_text_round_trip(1, v.channel_id);
        lemma_absorbed_one::<Channel>(acc, bytes_item(1, encode_utf8(v.channel_id)));
    }
}

/// Taking in what the field `counterparty_node_id` writes sets that field and
/// nothing else.
proof fn lemma_channel_counterparty_node_id(acc: ChannelView, v: ChannelView)
    requires
        Channel::fits(v),
        acc.counterparty_node_id == Channel::blank().counterparty_node_id,
    ensures
        items_ok(text_items(2, v.counterparty_node_id)),
        absorbed::<Channel>(acc, text_items(2, v.counterparty_node_id)) == Some(
            ChannelView { counterparty_node_id: v.counterparty_node_id, ..acc },
        ),
{
    reveal(items_ok);
    if v.counterparty_node_id.len() == 0 {
        assert(v.counterparty_node_id =~= Seq::<char>::empty());
        lemma_absorbed_none::<Channel>(acc);
    } else {
        lemma_text_round_trip(2, v.counterparty_node_id);
        lemma_absorbed_one::<Channel>(acc, bytes_item(2, encode_utf8(v.counterparty_node_id)));
    }
}

/// Taking in what the field `funding_txo` writes sets that field and
/// nothing else.
proof fn lemma_channel_funding_txo(acc: ChannelView, v: ChannelView)
    requires
        Channel::fits(v),
        acc.funding_txo == Channel::blank().funding_txo,
    ensures
        items_ok(nested_items::<Outpoint>(3, v.funding_txo)),
        absorbed::<Channel>(acc, nested_items::<Outpoint>(3, v.funding_txo)) == Some(
            ChannelView { funding_txo: v.funding_txo, ..acc },
        ),
{
    reveal(items_ok);
    match v.funding_txo {
        Some(x) => {
            lemma_nested_round_trip::<Outpoint>(3, x);
            lemma_absorbed_one::<Channel>(acc, bytes_item(3, encoded::<Outpoint>(x)));
        },
        None => {
            lemma_absorbed_none::<Channel>(acc);
        },
    }
}

/// Taking in what the field `channel_value_sats` writes sets that field and
/// nothing else.
proof fn lemma_channel_channel_value_sats(acc: ChannelView, v: ChannelView)
    requires
        Channel::fits(v),
        acc.channel_value_sats == Channel::blank().channel_value_sats,
    ensures
        items_ok(uint64_items(4, v.channel_value_sats)),
        absorbed::<Channel>(acc, uint64_items(4, v.channel_value_sats)) == Some(
            ChannelView { channel_value_sats: v.channel_value_sats, ..acc },
        ),
{
    reveal(items_ok);
    if v.channel_value_sats == 0 {
        lemma_absorbed_none::<Channel>(acc);
    } else {
        lemma_absorbed_one::<Channel>(acc, scalar_item(4, v.channel_value_sats as u64));
    }
}

/// Taking in what the field `feerate_sat_per_1000_weight` writes sets that field and
/// nothing else.
proof fn lemma_channel_feerate_sat_per_1000_weight(acc: ChannelView, v: ChannelView)
    requires
        Channel::fits(v),
        acc.feerate_sat_per_1000_weight == Channel::blank().feerate_sat_per_1000_weight,
    ensures
        items_ok(uint32_items(5, v.feerate_sat_per_1000_weight)),
        absorbed::<Channel>(acc, uint32_items(5, v.feerate_sat_per_1000_weight)) == Some(
            ChannelView { feerate_sat_per_1000_weight: v.feerate_sat_per_1000_weight, ..acc },
        ),
{
    reveal(items_ok);
    if v.feerate_sat_per_1000_weight == 0 {
        lemma_absorbed_none::<Channel>(acc);
    } else {
        lemma_absorbed_one::<Channel>(acc, scalar_item(5, v.feerate_sat_per_1000_weight as u64));
    }
}

/// Taking in what the field `outbound_capacity_msat` writes sets that field and
/// nothing else.
proof fn lemma_channel_outbound_capacity_msat(acc: ChannelView, v: ChannelView)
    requires
        Channel::fits(v),
        acc.outbound_capacity_msat == Channel::blank().outbound_capacity_msat,
    ensures
        items_ok(uint64_items(6, v.outbound_capacity_msat)),
        absorbed::<Channel>(acc, uint64_items(6, v.outbound_capacity_msat)) == Some(
            ChannelView { outbound_capacity_msat: v.outbound_capacity_msat, ..acc },
        ),
{
    reveal(items_ok);
    if v.outbound_capacity_msat == 0 {
        lemma_absorbed_none::<Channel>(acc);
    } else {
        lemma_absorbed_one::<Channel>(acc, scalar_item(6, v.outbound_capacity_msat as u64));
    }
}

/// Taking in what the field `inbound_capacity_msat` writes sets that field and
/// nothing else.
proof fn lemma_channel_inbound_capacity_msat(acc: ChannelView, v: ChannelView)
    requires
        Channel::fits(v),
        acc.inbound_capacity_msat == Channel::blank().inbound_capacity_msat,
    ensures
        items_ok(uint64_items(7, v.inbound_capacity_msat)),
        absorbed::<Channel>(acc, uint64_items(7, v.inbound_capacity_msat)) == Some(
            ChannelView { inbound_capacity_msat: v.inbound_capacity_msat, ..acc },
        ),
{
    reveal(items_ok);
    if v.inbound_capacity_msat == 0 {
        lemma_absorbed_none::<Channel>(acc);
    } else {
        lemma_absorbed_one::<Channel>(acc, scalar_item(7, v.inbound_capacity_msat as u64));
    }
}

/// Taking in what the field `confirmations_required` writes sets that field and
/// nothing else.
proof fn lemma_channel_confirmations_required(acc: ChannelView, v: ChannelView)
    requires
        Channel::fits(v),
        acc.confirmations_required == Channel::blank().confirmations_required,
    ensures
        items_ok(some_uint32_items(8, v.confirmations_required)),
        absorbed::<Channel>(acc, some_uint32_items(8, v.confirmations_required)) == Some(
            ChannelView { confirmations_required: v.confirmations_required, ..acc },
        ),
{
    reveal(items_ok);
    match v.confirmations_required {
        Some(x) => {
            lemma_absorbed_one::<Channel>(acc, scalar_item(8, x as u64));
        },
        None => {
            lemma_absorbed_none::<Channel>(acc);
        },
    }
}

/// Taking in what the field `confirmations` writes sets that field and
/// nothing else.
proof fn lemma_channel_confirmations(acc: ChannelView, v: ChannelView)
    requires
        Channel::fits(v),
        acc.confirmations == Channel::blank().confirmations,
    ensures
        items_ok(some_uint32_items(9, v.confirmations)),
        absorbed::<Channel>(acc, some_uint32_items(9, v.confirmations)) == Some(
            ChannelView { confirmations: v.confirmations, ..acc },
        ),
{
    reveal(items_ok);
    match v.confirmations {
        Some(x) => {
            lemma_absorbed_one::<Channel>(acc, scalar_item(9, x as u64));
        },
        None => {
            lemma_absorbed_none::<Channel>(acc);
        },
    }
}

/// Taking in what the field `is_outbound` writes sets that field and
/// nothing else.
proof fn lemma_channel_is_outbound(acc: ChannelView, v: ChannelView)
    requires
        Channel::fits(v),
        acc.is_outbound == Channel::blank().is_outbound,
    ensures
        items_ok(bool_items(10, v.is_outbound)),
        absorbed::<Channel>(acc, bool_items(10, v.is_outbound)) == Some(
            ChannelView { is_outbound: v.is_outbound, ..acc },
        ),
{
    reveal(items_ok);
    if v.is_outbound {
        lemma_absorbed_one::<Channel>(acc, scalar_item(10, 1));
    } else {
        lemma_absorbed_none::<Channel>(acc);
    }
}

/// Taking in what the field `is_channel_ready` writes sets that field and
/// nothing else.
proof fn lemma_channel_is_channel_ready(acc: ChannelView, v: ChannelView)
    requires
        Channel::fits(v),
        acc.is_channel_ready == Channel::blank().is_channel_ready,
    ensures
        items_ok(bool_items(11, v.is_channel_ready)),
        absorbed::<Channel>(acc, bool_items(11, v.is_channel_ready)) == Some(
            ChannelView { is_channel_ready: v.is_channel_ready, ..acc },
        ),
{
    reveal(items_ok);
    if v.is_channel_ready {
        lemma_absorbed_one::<Channel>(acc, scalar_item(11, 1));
    } else {
        lemma_absorbed_none::<Channel>(acc);
    }
}

/// Taking in what the field `is_usable` writes sets that field and
/// nothing else.
proof fn lemma_channel_is_usable(acc: ChannelView, v: ChannelView)
    requires
        Channel::fits(v),
        acc.is_usable == Channel::blank().is_usable,
    ensures
        items_ok(bool_items(12, v.is_usable)),
        absorbed::<Channel>(acc, bool_items(12, v.is_usable)) == Some(
            ChannelView { is_usable: v.is_usable, ..acc },
        ),
{
    reveal(items_ok);
    if v.is_usable {
        lemma_absorbed_one::<Channel>(acc, scalar_item(12, 1));
    } else {
        lemma_absorbed_none::<Channel>(acc);
    }
}

/// Taking in what the field `is_public` writes sets that field and
/// nothing else.
proof fn lemma_channel_is_public(acc: ChannelView, v: ChannelView)
    requires
        Channel::fits(v),
        acc.is_public == Channel::blank().is_public,
    ensures
        items_ok(bool_items(13, v.is_public)),
        absorbed::<Channel>(acc, bool_items(13, v.is_public)) == Some(
            ChannelView { is_public: v.is_public, ..acc },
        ),
{
    reveal(items_ok);
    if v.is_public {
        lemma_absorbed_one::<Channel>(acc, scalar_item(13, 1));
    } else {
        lemma_absorbed_none::<Channel>(acc);
    }
}

/// Taking in what the field `cltv_expiry_delta` writes sets that field and
/// nothing else.
proof fn lemma_channel_cltv_expiry_delta(acc: ChannelView, v: ChannelView)
    requires
        Channel::fits(v),
        acc.cltv_expiry_delta == Channel::blank().cltv_expiry_delta,
    ensures
        items_ok(some_uint32_items(14, v.cltv_expiry_delta)),
        absorbed::<Channel>(acc, some_uint32_items(14, v.cltv_expiry_delta)) == Some(
            ChannelView { cltv_expiry_delta: v.cltv_expiry_delta, ..acc },
        ),
{
    reveal(items_ok);
    match v.cltv_expiry_delta {
        Some(x) => {
            lemma_absorbed_one::<Channel>(acc, scalar_item(14, x as u64));
        },
        None => {
            lemma_absorbed_none::<Channel>(acc);
        },
    }
}

/// Taking in what the field `counterparty_outbound_htlc_minimum_msat` writes sets that field and
/// nothing else.
proof fn lemma_channel_counterparty_outbound_htlc_minimum_msat(acc: ChannelView, v: ChannelView)
    requires
        Channel::fits(v),
        acc.counterparty_outbound_htlc_minimum_msat == Channel::blank().counterparty_outbound_htlc_minimum_msat,
    ensures
        items_ok(some_uint64_items(15, v.counterparty_outbound_htlc_minimum_msat)),
        absorbed::<Channel>(acc, some_uint64_items(15, v.counterparty_outbound_htlc_minimum_msat)) == Some(
            ChannelView { counterparty_outbound_htlc_minimum_msat: v.counterparty_outbound_htlc_minimum_msat, ..acc },
        ),
{
    reveal(items_ok);
    match v.counterparty_outbound_htlc_minimum_msat {
        Some(x) => {
            lemma_absorbed_one::<Channel>(acc, scalar_item(15, x as u64));
        },
        None => {
            lemma_absorbed_none::<Channel>(acc);
        },
    }
}

/// Taking in what the field `counterparty_outbound_htlc_maximum_msat` writes sets that field and
/// nothing else.
proof fn lemma_channel_counterparty_outbound_htlc_maximum_msat(acc: ChannelView, v: ChannelView)
    requires
        Channel::fits(v),
        acc.counterparty_outbound_htlc_maximum_msat == Channel::blank().counterparty_outbound_htlc_maximum_msat,
    ensures
        items_ok(some_uint64_items(16, v.counterparty_outbound_htlc_maximum_msat)),
        absorbed::<Channel>(acc, some_uint64_items(16, v.counterparty_outbound_htlc_maximum_msat)) == Some(
            ChannelView { counterparty_outbound_htlc_maximum_msat: v.counterparty_outbound_htlc_maximum_msat, ..acc },
        ),
{
    reveal(items_ok);
    match v.counterparty_outbound_htlc_maximum_msat {
        Some(x) => {
            lemma_absorbed_one::<Channel>(acc, scalar_item(16, x as u64));
        },
        None => {
            lemma_absorbed_none::<Channel>(acc);
        },
    }
}

/// Taking in what the field `next_outbound_htlc_limit_msat` writes sets that field and
/// nothing else.
proof fn lemma_channel_next_outbound_htlc_limit_msat(acc: ChannelView, v: ChannelView)
    requires
        Channel::fits(v),
        acc.next_outbound_htlc_limit_msat == Channel::blank().next_outbound_htlc_limit_msat,
    ensures
        items_ok(uint64_items(17, v.next_outbound_htlc_limit_msat)),
        absorbed::<Channel>(acc, uint64_items(17, v.next_outbound_htlc_limit_msat)) == Some(
            ChannelView { next_outbound_htlc_limit_msat: v.next_outbound_htlc_limit_msat, ..acc },
        ),
{
    reveal(items_ok);
    if v.next_outbound_htlc_limit_msat == 0 {
        lemma_absorbed_none::<Channel>(acc);
    } else {
        lemma_absorbed_one::<Channel>(acc, scalar_item(17, v.next_outbound_htlc_limit_msat as u64));
    }
}

/// Taking in what the field `next_outbound_htlc_minimum_msat` writes sets that field and
/// nothing else.
proof fn lemma_channel_next_outbound_htlc_minimum_msat(acc: ChannelView, v: ChannelView)
    requires
        Channel::fits(v),
        acc.next_outbound_htlc_minimum_msat == Channel::blank().next_outbound_htlc_minimum_msat,
    ensures
        items_ok(uint64_items(18, v.next_outbound_htlc_minimum_msat)),
        absorbed::<Channel>(acc, uint64_items(18, v.next_outbound_htlc_minimum_msat)) == Some(
            ChannelView { next_outbound_htlc_minimum_msat: v.next_outbound_htlc_minimum_msat, ..acc },
        ),
{
    reveal(items_ok);
    if v.next_outbound_htlc_minimum_msat == 0 {
        lemma_absorbed_none::<Channel>(acc);
    } else {
        lemma_absorbed_one::<Channel>(acc, scalar_item(18, v.next_outbound_htlc_minimum_msat as u64));
    }
}

/// Taking in what the field `force_close_spend_delay` writes sets that field and
/// nothing else.
proof fn lemma_channel_force_close_spend_delay(acc: ChannelView, v: ChannelView)
    requires
        Channel::fits(v),
        acc.force_close_spend_delay == Channel::blank().force_close_spend_delay,
    ensures
        items_ok(some_uint32_items(19, v.force_close_spend_delay)),
        absorbed::<Channel>(acc, some_uint32_items(19, v.force_close_spend_delay)) == Some(
            ChannelView { force_close_spend_delay: v.force_close_spend_delay, ..acc },
        ),
{
    reveal(items_ok);
    match v.force_close_spend_delay {
        Some(x) => {
            lemma_absorbed_one::<Channel>(acc, scalar_item(19, x as u64));
        },
        None => {
            lemma_absorbed_none::<Channel>(acc);
        },
    }
}

/// Taking in what the field `forwarding_fee_proportional_millionths` writes sets that field and
/// nothing else.
proof fn lemma_channel_forwarding_fee_proportional_millionths(acc: ChannelView, v: ChannelView)
    requires
        Channel::fits(v),
        acc.forwarding_fee_proportional_millionths == Channel::blank().forwarding_fee_proportional_millionths,
    ensures
        items_ok(uint32_items(20, v.forwarding_fee_proportional_millionths)),
        absorbed::<Channel>(acc, uint32_items(20, v.forwarding_fee_proportional_millionths)) == Some(
            ChannelView { forwarding_fee_proportional_millionths: v.forwarding_fee_proportional_millionths, ..acc },
        ),
{
    reveal(items_ok);
    if v.forwarding_fee_proportional_millionths == 0 {
        lemma_absorbed_none::<Channel>(acc);
    } else {
        lemma_absorbed_one::<Channel>(acc, scalar_item(20, v.forwarding_fee_proportional_millionths as u64));
    }
}

/// Taking in what the field `forwarding_fee_base_msat` writes sets that field and
/// nothing else.
proof fn lemma_channel_forwarding_fee_base_msat(acc: ChannelView, v: ChannelView)
    requires
        Channel::fits(v),
        acc.forwarding_fee_base_msat == Channel::blank().forwarding_fee_base_msat,
    ensures
        items_ok(uint32_items(21, v.forwarding_fee_base_msat)),
        absorbed::<Channel>(acc, uint32_items(21, v.forwarding_fee_base_msat)) == Some(
            ChannelView { forwarding_fee_base_msat: v.forwarding_fee_base_msat, ..acc },
        ),
{
    reveal(items_ok);
    if v.forwarding_fee_base_msat == 0 {
        lemma_absorbed_none::<Channel>(acc);
    } else {
        lemma_absorbed_one::<Channel>(acc, scalar_item(21, v.forwarding_fee_base_msat as u64));
    }
}

impl Lossless for Channel {
    proof fn lemma_round_trip(v: ChannelView) {
        let s0 = Self::blank();
        let i1 = text_items(1, v.channel_id);
        let s1 = ChannelView { channel_id: v.channel_id, ..s0 };
        lemma_channel_channel_id(s0, v);
        let r1 = i1;
        let i2 = text_items(2, v.counterparty_node_id);
        let s2 = ChannelView { counterparty_node_id: v.counterparty_node_id, ..s1 };
        lemma_channel_counterparty_node_id(s1, v);
        lemma_absorbed_concat::<Self>(s0, r1, i2);
        lemma_items_ok_concat(r1, i2);
        let r2 = r1 + i2;
        let i3 = nested_items::<Outpoint>(3, v.funding_txo);
        let s3 = ChannelView { funding_txo: v.funding_txo, ..s2 };
        lemma_channel_funding_txo(s2, v);
        lemma_absorbed_concat::<Self>(s0, r2, i3);
        lemma_items_ok_concat(r2, i3);
        let r3 = r2 + i3;
        let i4 = uint64_items(4, v.channel_value_sats);
        let s4 = ChannelView { channel_value_sats: v.channel_value_sats, ..s3 };
        lemma_channel_channel_value_sats(s3, v);
        lemma_absorbed_concat::<Self>(s0, r3, i4);
        lemma_items_ok_concat(r3, i4);
        let r4 = r3 + i4;
        let i5 = uint32_items(5, v.feerate_sat_per_1000_weight);
        let s5 = ChannelView { feerate_sat_per_1000_weight: v.feerate_sat_per_1000_weight, ..s4 };
        lemma_channel_feerate_sat_per_1000_weight(s4, v);
        lemma_absorbed_concat::<Self>(s0, r4, i5);
        lemma_items_ok_concat(r4, i5);
        let r5 = r4 + i5;
        let i6 = uint64_items(6, v.outbound_capacity_msat);
        let s6 = ChannelView { outbound_capacity_msat: v.outbound_capacity_msat, ..s5 };
        lemma_channel_outbound_capacity_msat(s5, v);
        lemma_absorbed_concat::<Self>(s0, r5, i6);
        lemma_items_ok_concat(r5, i6);
        let r6 = r5 + i6;
        let i7 = uint64_items(7, v.inbound_capacity_msat);
        let s7 = ChannelView { inbound_capacity_msat: v.inbound_capacity_msat, ..s6 };
        lemma_channel_inbound_capacity_msat(s6, v);
        lemma_absorbed_concat::<Self>(s0, r6, i7);
        lemma_items_ok_concat(r6, i7);
        let r7 = r6 + i7;
        let i8 = some_uint32_items(8, v.confirmations_required);
        let s8 = ChannelView { confirmations_required: v.confirmations_required, ..s7 };
        lemma_channel_confirmations_required(s7, v);
        lemma_absorbed_concat::<Self>(s0, r7, i8);
        lemma_items_ok_concat(r7, i8);
        let r8 = r7 + i8;
        let i9 = some_uint32_items(9, v.confirmations);
        let s9 = ChannelView { confirmations: v.confirmations, ..s8 };
        lemma_channel_confirmations(s8, v);
        lemma_absorbed_concat::<Self>(s0, r8, i9);
        lemma_items_ok_concat(r8, i9);
        let r9 = r8 + i9;
        let i10 = bool_items(10, v.is_outbound);
        let s10 = ChannelView { is_outbound: v.is_outbound, ..s9 };
        lemma_channel_is_outbound(s9, v);
        lemma_absorbed_concat::<Self>(s0, r9, i10);
        lemma_items_ok_concat(r9, i10);
        let r10 = r9 + i10;
        let i11 = bool_items(11, v.is_channel_ready);
        let s11 = ChannelView { is_channel_ready: v.is_channel_ready, ..s10 };
        lemma_channel_is_channel_ready(s10, v);
        lemma_absorbed_concat::<Self>(s0, r10, i11);
        lemma_items_ok_concat(r10, i11);
        let r11 = r10 + i11;
        let i12 = bool_items(12, v.is_usable);
        let s12 = ChannelView { is_usable: v.is_usable, ..s11 };
        lemma_channel_is_usable(s11, v);
        lemma_absorbed_concat::<Self>(s0, r11, i12);
        lemma_items_ok_concat(r11, i12);
        let r12 = r11 + i12;
        let i13 = bool_items(13, v.is_public);
        let s13 = ChannelView { is_public: v.is_public, ..s12 };
        lemma_channel_is_public(s12, v);
        lemma_absorbed_concat::<Self>(s0, r12, i13);
        lemma_items_ok_concat(r12, i13);
        let r13 = r12 + i13;
        let i14 = some_uint32_items(14, v.cltv_expiry_delta);
        let s14 = ChannelView { cltv_expiry_delta: v.cltv_expiry_delta, ..s13 };
        lemma_channel_cltv_expiry_delta(s13, v);
        lemma_absorbed_concat::<Self>(s0, r13, i14);
        lemma_items_ok_concat(r13, i14);
        let r14 = r13 + i14;
        let i15 = some_uint64_items(15, v.counterparty_outbound_htlc_minimum_msat);
        let s15 = ChannelView { counterparty_outbound_htlc_minimum_msat: v.counterparty_outbound_htlc_minimum_msat, ..s14 };
        lemma_channel_counterparty_outbound_htlc_minimum_msat(s14, v);
        lemma_absorbed_concat::<Self>(s0, r14, i15);
        lemma_items_ok_concat(r14, i15);
        let r15 = r14 + i15;
        let i16 = some_uint64_items(16, v.counterparty_outbound_htlc_maximum_msat);
        let s16 = ChannelView { counterparty_outbound_htlc_maximum_msat: v.counterparty_outbound_htlc_maximum_msat, ..s15 };
        lemma_channel_counterparty_outbound_htlc_maximum_msat(s15, v);
        lemma_absorbed_concat::<Self>(s0, r15, i16);
        lemma_items_ok_concat(r15, i16);
        let r16 = r15 + i16;
        let i17 = uint64_items(17, v.next_outbound_htlc_limit_msat);
        let s17 = ChannelView { next_outbound_htlc_limit_msat: v.next_outbound_htlc_limit_msat, ..s16 };
        lemma_channel_next_outbound_htlc_limit_msat(s16, v);
        lemma_absorbed_concat::<Self>(s0, r16, i17);
        lemma_items_ok_concat(r16, i17);
        let r17 = r16 + i17;
        let i18 = uint64_items(18, v.next_outbound_htlc_minimum_msat);
        let s18 = ChannelView { next_outbound_htlc_minimum_msat: v.next_outbound_htlc_minimum_msat, ..s17 };
        lemma_channel_next_outbound_htlc_minimum_msat(s17, v);
        lemma_absorbed_concat::<Self>(s0, r17, i18);
        lemma_items_ok_concat(r17, i18);
        let r18 = r17 + i18;
        let i19 = some_uint32_items(19, v.force_close_spend_delay);
        let s19 = ChannelView { force_close_spend_delay: v.force_close_spend_delay, ..s18 };
        lemma_channel_force_close_spend_delay(s18, v);
        lemma_absorbed_concat::<Self>(s0, r18, i19);
        lemma_items_ok_concat(r18, i19);
        let r19 = r18 + i19;
        let i20 = uint32_items(20, v.forwarding_fee_proportional_millionths);
        let s20 = ChannelView { forwarding_fee_proportional_millionths: v.forwarding_fee_proportional_millionths, ..s19 };
        lemma_channel_forwarding_fee_proportional_millionths(s19, v);
        lemma_absorbed_concat::<Self>(s0, r19, i20);
        lemma_items_ok_concat(r19, i20);
        let r20 = r19 + i20;
        let i21 = uint32_items(21, v.forwarding_fee_base_msat);
        let s21 = ChannelView { forwarding_fee_base_msat: v.forwarding_fee_base_msat, ..s20 };
        lemma_channel_forwarding_fee_base_msat(s20, v);
        lemma_absorbed_concat::<Self>(s0, r20, i21);
        lemma_items_ok_concat(r20, i21);
        let r21 = r20 + i21;
        assert(s21 == v);
    }
}

/// The node's channels.
#[derive(Clone, Debug, PartialEq, Eq)]
pub struct ListChannelsResponse {
    pub channels: Vec<Channel>,
}

/// What a `ListChannelsResponse` holds, as specifications see it.
pub struct ListChannelsResponseView {
    pub channels: Seq<ChannelView>,
}

impl DeepView for ListChannelsResponse {
    type V = ListChannelsResponseView;

    open spec fn deep_view(&self) -> ListChannelsResponseView {
        ListChannelsResponseView {
            channels: self.channels.deep_view(),
        }
    }
}

impl View for ListChannelsResponse {
    type V = ListChannelsResponseView;

    open spec fn view(&self) -> ListChannelsResponseView {
        self.deep_view()
    }
}

impl Message for ListChannelsResponse {
    open spec fn blank() -> ListChannelsResponseView {
        ListChannelsResponseView {
            channels: Seq::empty(),
        }
    }

    open spec fn absorb(acc: ListChannelsResponseView, item: Item) -> Option<
        ListChannelsResponseView,
    > {
        if item.number == 1 {
            match item_nested::<Channel>(None, item) {
                Some(x) => Some(ListChannelsResponseView { channels: acc.channels.push(x), ..acc }),
                None => None,
            }
        } else {
            Some(acc)
        }
    }

    open spec fn items(v: ListChannelsResponseView) -> Seq<Item> {
        repeated_items::<Channel>(1, v.channels)
    }

    open spec fn fits(v: ListChannelsResponseView) -> bool {
        &&& repeated_fits::<Channel>(v.channels)
    }

    fn fresh() -> (m: Self) {
        let m = ListChannelsResponse {
            channels: Vec::new(),
        };
        assert(m.channels.deep_view() =~= Seq::empty());
        m
    }

    fn take(&mut self, field: &Field<'_>) -> (ok: bool) {
        if field.number == 1 {
            take_repeated(&mut self.channels, field)
        } else {
            true
        }
    }

    fn emit(&self, out: &mut Vec<u8>) {
        let ghost v = self.deep_view();
        put_repeated(1, &self.channels, out);
        let ghost run = repeated_items::<Channel>(1, v.channels);
    }
}

/// Taking in the fields of a list adds its messages, in order, to what was held.
proof fn lemma_list_channels_response_channels(
    acc: ListChannelsResponseView,
    values: Seq<ChannelView>,
)
    requires
        repeated_fits::<Channel>(values),
    ensures
        items_ok(repeated_items::<Channel>(1, values)),
        absorbed::<ListChannelsResponse>(acc, repeated_items::<Channel>(1, values)) == Some(
            ListChannelsResponseView { channels: acc.channels + values, ..acc },
        ),
    decreases values.len(),
{
    if values.len() == 0 {
        reveal(items_ok);
        lemma_absorbed_none::<ListChannelsResponse>(acc);
        assert(acc.channels + values =~= acc.channels);
    } else {
        let front = values.drop_last();
        let last = values.last();
        let item = bytes_item(1, encoded::<Channel>(last));
        let mid = ListChannelsResponseView { channels: acc.channels + front, ..acc };
        assert(repeated_fits::<Channel>(front));
        lemma_list_channels_response_channels(acc, front);
        lemma_nested_round_trip::<Channel>(1, last);
        lemma_absorbed_one::<ListChannelsResponse>(mid, item);
        let run = repeated_items::<Channel>(1, front);
        assert(repeated_items::<Channel>(1, values) =~= run + seq![item]);
        lemma_absorbed_concat::<ListChannelsResponse>(acc, run, seq![item]);
        assert(item_ok(item));
        lemma_items_ok_push(run, item);
        assert((acc.channels + front).push(last) =~= acc.channels + values);
    }
}

impl Lossless for ListChannelsResponse {
    proof fn lemma_round_trip(v: ListChannelsResponseView) {
        let s0 = Self::blank();
        let i1 = repeated_items::<Channel>(1, v.channels);
        let s1 = ListChannelsResponseView { channels: v.channels, ..s0 };
        assert(items_ok(i1) && absorbed::<Self>(s0, i1) == Some(s1)) by {
            lemma_list_channels_response_channels(s0, v.channels);
            assert(s0.channels + v.channels =~= v.channels);
        }
        let r1 = i1;
        assert(s1 == v);
    }
}

/// Asks to open a channel to a peer.
#[derive(Clone, Debug, PartialEq, Eq)]
pub struct OpenChannelRequest {
    /// The peer's public key, in hexadecimal.
    pub node_id: String,
    /// The peer's network address.
    pub address: String,
    pub channel_amount_sats: u64,
    pub push_to_counterparty_msat: Option<u64>,
    pub announce_channel: bool,
}

/// What a `OpenChannelRequest` holds, as specifications see it.
pub struct OpenChannelRequestView {
    pub node_id: Seq<char>,
    pub address: Seq<char>,
    pub channel_amount_sats: u64,
    pub push_to_counterparty_msat: Option<u64>,
    pub announce_channel: bool,
}

impl DeepView for OpenChannelRequest {
    type V = OpenChannelRequestView;

    open spec fn deep_view(&self) -> OpenChannelRequestView {
        OpenChannelRequestView {
            node_id: self.node_id.deep_view(),
            address: self.address.deep_view(),
            channel_amount_sats: self.channel_amount_sats.deep_view(),
            push_to_counterparty_msat: self.push_to_counterparty_msat.deep_view(),
            announce_channel: self.announce_channel.deep_view(),
        }
    }
}

impl View for OpenChannelRequest {
    type V = OpenChannelRequestView;

    open spec fn view(&self) -> OpenChannelRequestView {
        self.deep_view()
    }
}

impl Message for OpenChannelRequest {
    open spec fn blank() -> OpenChannelRequestView {
        OpenChannelRequestView {
            node_id: Seq::empty(),
            address: Seq::empty(),
            channel_amount_sats: 0,
            push_to_counterparty_msat: None,
            announce_channel: false,
        }
    }

    open spec fn absorb(acc: OpenChannelRequestView, item: Item) -> Option<OpenChannelRequestView> {
        if item.number == 1 {
            match item_text(item) {
                Some(x) => Some(OpenChannelRequestView { node_id: x, ..acc }),
                None => None,
            }
        } else if item.number == 2 {
            match item_text(item) {
                Some(x) => Some(OpenChannelRequestView { address: x, ..acc }),
                None => None,
            }
        } else if item.number == 3 {
            match item_uint64(item) {
                Some(x) => Some(OpenChannelRequestView { channel_amount_sats: x, ..acc }),
                None => None,
            }
        } else if item.number == 4 {
            match item_uint64(item) {
                Some(x) => Some(OpenChannelRequestView { push_to_counterparty_msat: Some(x), ..acc }),
                None => None,
            }
        } else if item.number == 5 {
            match item_bool(item) {
                Some(x) => Some(OpenChannelRequestView { announce_channel: x, ..acc }),
                None => None,
            }
        } else {
            Some(acc)
        }
    }

    open spec fn items(v: OpenChannelRequestView) -> Seq<Item> {
        text_items(1, v.node_id)
            + text_items(2, v.address)
            + uint64_items(3, v.channel_amount_sats)
            + some_uint64_items(4, v.push_to_counterparty_msat)
            + bool_items(5, v.announce_channel)
    }

    open spec fn fits(v: OpenChannelRequestView) -> bool {
        &&& text_fits(v.node_id)
        &&& text_fits(v.address)
    }

    fn fresh() -> (m: Self) {
        let m = OpenChannelRequest {
            node_id: String::new(),
            address: String::new(),
            channel_amount_sats: 0,
            push_to_counterparty_msat: None,
            announce_channel: false,
        };
        m
    }

    fn take(&mut self, field: &Field<'_>) -> (ok: bool) {
        if field.number == 1 {
            match field_text(field) {
                Some(x) => {
                    self.node_id = x;
                    true
                },
                None => false,
            }
        } else if field.number == 2 {
            match field_text(field) {
                Some(x) => {
                    self.address = x;
                    true
                },
                None => false,
            }
        } else if field.number == 3 {
            match field_uint64(field) {
                Some(x) => {
                    self.channel_amount_sats = x;
                    true
                },
                None => false,
            }
        } else if field.number == 4 {
            match field_uint64(field) {
                Some(x) => {
                    self.push_to_counterparty_msat = Some(x);
                    true
                },
                None => false,
            }
        } else if field.number == 5 {
            match field_bool(field) {
                Some(x) => {
                    self.announce_channel = x;
                    true
                },
                None => false,
            }
        } else {
            true
        }
    }

    fn emit(&self, out: &mut Vec<u8>) {
        let ghost v = self.deep_view();
        put_text(1, &self.node_id, out);
        let ghost run = text_items(1, v.node_id);
        let ghost mid = out@;
        put_text(2, &self.address, out);
        proof {
            lemma_items_bytes_extend(old(out)@, mid, out@, run, text_items(2, v.address));
        }
        let ghost run = run + text_items(2, v.address);
        let ghost mid = out@;
        put_uint64(3, self.channel_amount_sats, out);
        proof {
            lemma_items_bytes_extend(
                old(out)@,
                mid,
                out@,
                run,
                uint64_items(3, v.channel_amount_sats),
            );
        }
        let ghost run = run + uint64_items(3, v.channel_amount_sats);
        let ghost mid = out@;
        put_some_uint64(4, self.push_to_counterparty_msat, out);
        proof {
            lemma_items_bytes_extend(
                old(out)@,
                mid,
                out@,
                run,
                some_uint64_items(4, v.push_to_counterparty_msat),
            );
        }
        let ghost run = run + some_uint64_items(4, v.push_to_counterparty_msat);
        let ghost mid = out@;
        put_bool(5, self.announce_channel, out);
        proof {
            lemma_items_bytes_extend(old(out)@, mid, out@, run, bool_items(5, v.announce_channel));
        }
        let ghost run = run + bool_items(5, v.announce_channel);
    }
}

impl Lossless for OpenChannelRequest {
    proof fn lemma_round_trip(v: OpenChannelRequestView) {
        let s0 = Self::blank();
        let i1 = text_items(1, v.node_id);
        let s1 = OpenChannelRequestView { node_id: v.node_id, ..s0 };
        assert(items_ok(i1) && absorbed::<Self>(s0, i1) == Some(s1)) by {
            reveal(items_ok);
            if v.node_id.len() == 0 {
                assert(v.node_id =~= Seq::<char>::empty());
                lemma_absorbed_none::<Self>(s0);
            } else {
                lemma_text_round_trip(1, v.node_id);
                lemma_absorbed_one::<Self>(s0, bytes_item(1, encode_utf8(v.node_id)));
            }
        }
        let r1 = i1;
        let i2 = text_items(2, v.address);
        let s2 = OpenChannelRequestView { address: v.address, ..s1 };
        assert(items_ok(i2) && absorbed::<Self>(s1, i2) == Some(s2)) by {
            reveal(items_ok);
            if v.address.len() == 0 {
                assert(v.address =~= Seq::<char>::empty());
                lemma_absorbed_none::<Self>(s1);
            } else {
                lemma_text_round_trip(2, v.address);
                lemma_absorbed_one::<Self>(s1, bytes_item(2, encode_utf8(v.address)));
            }
        }
        lemma_absorbed_concat::<Self>(s0, r1, i2);
        lemma_items_ok_concat(r1, i2);
        let r2 = r1 + i2;
        let i3 = uint64_items(3, v.channel_amount_sats);
        let s3 = OpenChannelRequestView { channel_amount_sats: v.channel_amount_sats, ..s2 };
        assert(items_ok(i3) && absorbed::<Self>(s2, i3) == Some(s3)) by {
            reveal(items_ok);
            if v.channel_amount_sats == 0 {
                lemma_absorbed_none::<Self>(s2);
            } else {
                lemma_absorbed_one::<Self>(s2, scalar_item(3, v.channel_amount_sats as u64));
            }
        }
        lemma_absorbed_concat::<Self>(s0, r2, i3);
        lemma_items_ok_concat(r2, i3);
        let r3 = r2 + i3;
        let i4 = some_uint64_items(4, v.push_to_counterparty_msat);
        let s4 = OpenChannelRequestView { push_to_counterparty_msat: v.push_to_counterparty_msat, ..s3 };
        assert(items_ok(i4) && absorbed::<Self>(s3, i4) == Some(s4)) by {
            reveal(items_ok);
            match v.push_to_counterparty_msat {
                Some(x) => {
                    lemma_absorbed_one::<Self>(s3, scalar_item(4, x as u64));
                },
                None => {
                    lemma_absorbed_none::<Self>(s3);
                },
            }
        }
        lemma_absorbed_concat::<Self>(s0, r3, i4);
        lemma_items_ok_concat(r3, i4);
        let r4 = r3 + i4;
        let i5 = bool_items(5, v.announce_channel);
        let s5 = OpenChannelRequestView { announce_channel: v.announce_channel, ..s4 };
        assert(items_ok(i5) && absorbed::<Self>(s4, i5) == Some(s5)) by {
            reveal(items_ok);
            if v.announce_channel {
                lemma_absorbed_one::<Self>(s4, scalar_item(5, 1));
            } else {
                lemma_absorbed_none::<Self>(s4);
            }
        }
        lemma_absorbed_concat::<Self>(s0, r4, i5);
        lemma_items_ok_concat(r4, i5);
        let r5 = r4 + i5;
        assert(s5 == v);
    }
}

/// The channel that was opened.
#[derive(Clone, Debug, PartialEq, Eq)]
pub struct OpenChannelResponse {
    /// The channel's local identifier: 16 bytes, most significant first.
    pub user_channel_id: Vec<u8>,
}

/// What a `OpenChannelResponse` holds, as specifications see it.
pub struct OpenChannelResponseView {
    pub user_channel_id: Seq<u8>,
}

impl DeepView for OpenChannelResponse {
    type V = OpenChannelResponseView;

    open spec fn deep_view(&self) -> OpenChannelResponseView {
        OpenChannelResponseView {
            user_channel_id: self.user_channel_id.deep_view(),
        }
    }
}

impl View for OpenChannelResponse {
    type V = OpenChannelResponseView;

    open spec fn view(&self) -> OpenChannelResponseView {
        self.deep_view()
    }
}

impl Message for OpenChannelResponse {
    open spec fn blank() -> OpenChannelResponseView {
        OpenChannelResponseView {
            user_channel_id: Seq::empty(),
        }
    }

    open spec fn absorb(acc: OpenChannelResponseView, item: Item) -> Option<
        OpenChannelResponseView,
    > {
        if item.number == 1 {
            match item_blob(item) {
                Some(x) => Some(OpenChannelResponseView { user_channel_id: x, ..acc }),
                None => None,
            }
        } else {
            Some(acc)
        }
    }

    open spec fn items(v: OpenChannelResponseView) -> Seq<Item> {
        blob_items(1, v.user_channel_id)
    }

    open spec fn fits(v: OpenChannelResponseView) -> bool {
        &&& blob_fits(v.user_channel_id)
    }

    fn fresh() -> (m: Self) {
        let m = OpenChannelResponse {
            user_channel_id: Vec::new(),
        };
        assert(m.user_channel_id.deep_view() =~= Seq::empty());
        m
    }

    fn take(&mut self, field: &Field<'_>) -> (ok: bool) {
        if field.number == 1 {
            match field_blob(field) {
                Some(x) => {
                    self.user_channel_id = x;
                    true
                },
                None => false,
            }
        } else {
            true
        }
    }

    fn emit(&self, out: &mut Vec<u8>) {
        let ghost v = self.deep_view();
        put_blob(1, &self.user_channel_id, out);
        let ghost run = blob_items(1, v.user_channel_id);
    }
}

impl Lossless for OpenChannelResponse {
    proof fn lemma_round_trip(v: OpenChannelResponseView) {
        let s0 = Self::blank();
        let i1 = blob_items(1, v.user_channel_id);
        let s1 = OpenChannelResponseView { user_channel_id: v.user_channel_id, ..s0 };
        assert(items_ok(i1) && absorbed::<Self>(s0, i1) == Some(s1)) by {
            reveal(items_ok);
            if v.user_channel_id.len() == 0 {
                assert(v.user_channel_id =~= Seq::<u8>::empty());
                lemma_absorbed_none::<Self>(s0);
            } else {
                lemma_absorbed_one::<Self>(s0, bytes_item(1, v.user_channel_id));
            }
        }
        let r1 = i1;
        assert(s1 == v);
    }
}

/// Asks to close a channel in agreement with the peer.
#[derive(Clone, Debug, PartialEq, Eq)]
pub struct CloseChannelRequest {
    /// The channel's local identifier: 16 bytes, most significant first.
    pub user_channel_id: Vec<u8>,
    /// The peer's public key, in hexadecimal.
    pub counterparty_node_id: String,
}

/// What a `CloseChannelRequest` holds, as specifications see it.
pub struct CloseChannelRequestView {
    pub user_channel_id: Seq<u8>,
    pub counterparty_node_id: Seq<char>,
}

impl DeepView for CloseChannelRequest {
    type V = CloseChannelRequestView;

    open spec fn deep_view(&self) -> CloseChannelRequestView {
        CloseChannelRequestView {
            user_channel_id: self.user_channel_id.deep_view(),
            counterparty_node_id: self.counterparty_node_id.deep_view(),
        }
    }
}

impl View for CloseChannelRequest {
    type V = CloseChannelRequestView;

    open spec fn view(&self) -> CloseChannelRequestView {
        self.deep_view()
    }
}

impl Message for CloseChannelRequest {
    open spec fn blank() -> CloseChannelRequestView {
        CloseChannelRequestView {
            user_channel_id: Seq::empty(),
            counterparty_node_id: Seq::empty(),
        }
    }

    open spec fn absorb(acc: CloseChannelRequestView, item: Item) -> Option<
        CloseChannelRequestView,
    > {
        if item.number == 1 {
            match item_blob(item) {
                Some(x) => Some(CloseChannelRequestView { user_channel_id: x, ..acc }),
                None => None,
            }
        } else if item.number == 2 {
            match item_text(item) {
                Some(x) => Some(CloseChannelRequestView { counterparty_node_id: x, ..acc }),
                None => None,
            }
        } else {
            Some(acc)
        }
    }

    open spec fn items(v: CloseChannelRequestView) -> Seq<Item> {
        blob_items(1, v.user_channel_id) + text_items(2, v.counterparty_node_id)
    }

    open spec fn fits(v: CloseChannelRequestView) -> bool {
        &&& blob_fits(v.user_channel_id)
        &&& text_fits(v.counterparty_node_id)
    }

    fn fresh() -> (m: Self) {
        let m = CloseChannelRequest {
            user_channel_id: Vec::new(),
            counterparty_node_id: String::new(),
        };
        assert(m.user_channel_id.deep_view() =~= Seq::empty());
        m
    }

    fn take(&mut self, field: &Field<'_>) -> (ok: bool) {
        if field.number == 1 {
            match field_blob(field) {
                Some(x) => {
                    self.user_channel_id = x;
                    true
                },
                None => false,
            }
        } else if field.number == 2 {
            match field_text(field) {
                Some(x) => {
                    self.counterparty_node_id = x;
                    true
                },
                None => false,
            }
        } else {
            true
        }
    }

    fn emit(&self, out: &mut Vec<u8>) {
        let ghost v = self.deep_view();
        put_blob(1, &self.user_channel_id, out);
        let ghost run = blob_items(1, v.user_channel_id);
        let ghost mid = out@;
        put_text(2, &self.counterparty_node_id, out);
        proof {
            lemma_items_bytes_extend(
                old(out)@,
                mid,
                out@,
                run,
                text_items(2, v.counterparty_node_id),
            );
        }
        let ghost run = run + text_items(2, v.counterparty_node_id);
    }
}

impl Lossless for CloseChannelRequest {
    proof fn lemma_round_trip(v: CloseChannelRequestView) {
        let s0 = Self::blank();
        let i1 = blob_items(1, v.user_channel_id);
        let s1 = CloseChannelRequestView { user_channel_id: v.user_channel_id, ..s0 };
        assert(items_ok(i1) && absorbed::<Self>(s0, i1) == Some(s1)) by {
            reveal(items_ok);
            if v.user_channel_id.len() == 0 {
                assert(v.user_channel_id =~= Seq::<u8>::empty());
                lemma_absorbed_none::<Self>(s0);
            } else {
                lemma_absorbed_one::<Self>(s0, bytes_item(1, v.user_channel_id));
            }
        }
        let r1 = i1;
        let i2 = text_items(2, v.counterparty_node_id);
        let s2 = CloseChannelRequestView { counterparty_node_id: v.counterparty_node_id, ..s1 };
        assert(items_ok(i2) && absorbed::<Self>(s1, i2) == Some(s2)) by {
            reveal(items_ok);
            if v.counterparty_node_id.len() == 0 {
                assert(v.counterparty_node_id =~= Seq::<char>::empty());
                lemma_absorbed_none::<Self>(s1);
            } else {
                lemma_text_round_trip(2, v.counterparty_node_id);
                lemma_absorbed_one::<Self>(s1, bytes_item(2, encode_utf8(v.counterparty_node_id)));
            }
        }
        lemma_absorbed_concat::<Self>(s0, r1, i2);
        lemma_items_ok_concat(r1, i2);
        let r2 = r1 + i2;
        assert(s2 == v);
    }
}

/// The channel is closing.
#[derive(Clone, Debug, PartialEq, Eq)]
pub struct CloseChannelResponse {}

/// What a `CloseChannelResponse` holds, as specifications see it.
pub struct CloseChannelResponseView {}

impl DeepView for CloseChannelResponse {
    type V = CloseChannelResponseView;

    open spec fn deep_view(&self) -> CloseChannelResponseView {
        CloseChannelResponseView {  }
    }
}

impl View for CloseChannelResponse {
    type V = CloseChannelResponseView;

    open spec fn view(&self) -> CloseChannelResponseView {
        self.deep_view()
    }
}

impl Message for CloseChannelResponse {
    open spec fn blank() -> CloseChannelResponseView {
        CloseChannelResponseView {  }
    }

    open spec fn absorb(acc: CloseChannelResponseView, item: Item) -> Option<
        CloseChannelResponseView,
    > {
        Some(acc)
    }

    open spec fn items(v: CloseChannelResponseView) -> Seq<Item> {
        Seq::empty()
    }

    open spec fn fits(v: CloseChannelResponseView) -> bool {
        true
    }

    fn fresh() -> (m: Self) {
        CloseChannelResponse {  }
    }

    fn take(&mut self, field: &Field<'_>) -> (ok: bool) {
        true
    }

    fn emit(&self, out: &mut Vec<u8>) {
        assert(out@ =~= old(out)@ + items_bytes(Seq::empty()));
    }
}

impl Lossless for CloseChannelResponse {
    proof fn lemma_round_trip(v: CloseChannelResponseView) {
        reveal(items_ok);
        lemma_absorbed_none::<Self>(v);
    }
}

/// Asks to close a channel without the peer.
#[derive(Clone, Debug, PartialEq, Eq)]
pub struct ForceCloseChannelRequest {
    /// The channel's local identifier: 16 bytes, most significant first.
    pub user_channel_id: Vec<u8>,
    /// The peer's public key, in hexadecimal.
    pub counterparty_node_id: String,
}

/// What a `ForceCloseChannelRequest` holds, as specifications see it.
pub struct ForceCloseChannelRequestView {
    pub user_channel_id: Seq<u8>,
    pub counterparty_node_id: Seq<char>,
}

impl DeepView for ForceCloseChannelRequest {
    type V = ForceCloseChannelRequestView;

    open spec fn deep_view(&self) -> ForceCloseChannelRequestView {
        ForceCloseChannelRequestView {
            user_channel_id: self.user_channel_id.deep_view(),
            counterparty_node_id: self.counterparty_node_id.deep_view(),
        }
    }
}

impl View for ForceCloseChannelRequest {
    type V = ForceCloseChannelRequestView;

    open spec fn view(&self) -> ForceCloseChannelRequestView {
        self.deep_view()
    }
}

impl Message for ForceCloseChannelRequest {
    open spec fn blank() -> ForceCloseChannelRequestView {
        ForceCloseChannelRequestView {
            user_channel_id: Seq::empty(),
            counterparty_node_id: Seq::empty(),
        }
    }

    open spec fn absorb(acc: ForceCloseChannelRequestView, item: Item) -> Option<
        ForceCloseChannelRequestView,
    > {
        if item.number == 1 {
            match item_blob(item) {
                Some(x) => Some(ForceCloseChannelRequestView { user_channel_id: x, ..acc }),
                None => None,
            }
        } else if item.number == 2 {
            match item_text(item) {
                Some(x) => Some(ForceCloseChannelRequestView { counterparty_node_id: x, ..acc }),
                None => None,
            }
        } else {
            Some(acc)
        }
    }

    open spec fn items(v: ForceCloseChannelRequestView) -> Seq<Item> {
        blob_items(1, v.user_channel_id) + text_items(2, v.counterparty_node_id)
    }

    open spec fn fits(v: ForceCloseChannelRequestView) -> bool {
        &&& blob_fits(v.user_channel_id)
        &&& text_fits(v.counterparty_node_id)
    }

    fn fresh() -> (m: Self) {
        let m = ForceCloseChannelRequest {
            user_channel_id: Vec::new(),
            counterparty_node_id: String::new(),
        };
        assert(m.user_channel_id.deep_view() =~= Seq::empty());
        m
    }

    fn take(&mut self, field: &Field<'_>) -> (ok: bool) {
        if field.number == 1 {
            match field_blob(field) {
                Some(x) => {
                    self.user_channel_id = x;
                    true
                },
                None => false,
            }
        } else if field.number == 2 {
            match field_text(field) {
                Some(x) => {
                    self.counterparty_node_id = x;
                    true
                },
                None => false,
            }
        } else {
            true
        }
    }

    fn emit(&self, out: &mut Vec<u8>) {
        let ghost v = self.deep_view();
        put_blob(1, &self.user_channel_id, out);
        let ghost run = blob_items(1, v.user_channel_id);
        let ghost mid = out@;
        put_text(2, &self.counterparty_node_id, out);
        proof {
            lemma_items_bytes_extend(
                old(out)@,
                mid,
                out@,
                run,
                text_items(2, v.counterparty_node_id),
            );
        }
        let ghost run = run + text_items(2, v.counterparty_node_id);
    }
}

impl Lossless for ForceCloseChannelRequest {
    proof fn lemma_round_trip(v: ForceCloseChannelRequestView) {
        let s0 = Self::blank();
        let i1 = blob_items(1, v.user_channel_id);
        let s1 = ForceCloseChannelRequestView { user_channel_id: v.user_channel_id, ..s0 };
        assert(items_ok(i1) && absorbed::<Self>(s0, i1) == Some(s1)) by {
            reveal(items_ok);
            if v.user_channel_id.len() == 0 {
                assert(v.user_channel_id =~= Seq::<u8>::empty());
                lemma_absorbed_none::<Self>(s0);
            } else {
                lemma_absorbed_one::<Self>(s0, bytes_item(1, v.user_channel_id));
            }
        }
        let r1 = i1;
        let i2 = text_items(2, v.counterparty_node_id);
        let s2 = ForceCloseChannelRequestView { counterparty_node_id: v.counterparty_node_id, ..s1 };
        assert(items_ok(i2) && absorbed::<Self>(s1, i2) == Some(s2)) by {
            reveal(items_ok);
            if v.counterparty_node_id.len() == 0 {
                assert(v.counterparty_node_id =~= Seq::<char>::empty());
                lemma_absorbed_none::<Self>(s1);
            } else {
                lemma_text_round_trip(2, v.counterparty_node_id);
                lemma_absorbed_one::<Self>(s1, bytes_item(2, encode_utf8(v.counterparty_node_id)));
            }
        }
        lemma_absorbed_concat::<Self>(s0, r1, i2);
        lemma_items_ok_concat(r1, i2);
        let r2 = r1 + i2;
        assert(s2 == v);
    }
}

/// The channel is closing.
#[derive(Clone, Debug, PartialEq, Eq)]
pub struct ForceCloseChannelResponse {}

/// What a `ForceCloseChannelResponse` holds, as specifications see it.
pub struct ForceCloseChannelResponseView {}

impl DeepView for ForceCloseChannelResponse {
    type V = ForceCloseChannelResponseView;

    open spec fn deep_view(&self) -> ForceCloseChannelResponseView {
        ForceCloseChannelResponseView {  }
    }
}

impl View for ForceCloseChannelResponse {
    type V = ForceCloseChannelResponseView;

    open spec fn view(&self) -> ForceCloseChannelResponseView {
        self.deep_view()
    }
}

impl Message for ForceCloseChannelResponse {
    open spec fn blank() -> ForceCloseChannelResponseView {
        ForceCloseChannelResponseView {  }
    }

    open spec fn absorb(acc: ForceCloseChannelResponseView, item: Item) -> Option<
        ForceCloseChannelResponseView,
    > {
        Some(acc)
    }

    open spec fn items(v: ForceCloseChannelResponseView) -> Seq<Item> {
        Seq::empty()
    }

    open spec fn fits(v: ForceCloseChannelResponseView) -> bool {
        true
    }

    fn fresh() -> (m: Self) {
        ForceCloseChannelResponse {  }
    }

    fn take(&mut self, field: &Field<'_>) -> (ok: bool) {
        true
    }

    fn emit(&self, out: &mut Vec<u8>) {
        assert(out@ =~= old(out)@ + items_bytes(Seq::empty()));
    }
}

impl Lossless for ForceCloseChannelResponse {
    proof fn lemma_round_trip(v: ForceCloseChannelResponseView) {
        reveal(items_ok);
        lemma_absorbed_none::<Self>(v);
    }
}

} // verus!
