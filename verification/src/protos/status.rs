//! The node itself: its identifier and its status.

use crate::codec::field::{Field, Item, items_bytes, items_ok, lemma_items_ok_concat};
use crate::codec::message::{
    absorbed, encoded, lemma_absorbed_concat, lemma_absorbed_none, lemma_absorbed_one,
    lemma_items_bytes_extend, Lossless, Message,
};
use crate::codec::value::{
    bytes_item, field_text, field_uint32, field_uint64, item_nested, item_text, item_uint32,
    item_uint64, lemma_nested_round_trip, lemma_text_round_trip, nested_fits, nested_items,
    put_nested, put_some_uint64, put_text, put_uint32, scalar_item, some_uint64_items, take_nested,
    text_fits, text_items, uint32_items,
};
use vstd::prelude::*;
use vstd::utf8::encode_utf8;

verus! {

/// Asks for the node's identifier.
#[derive(Clone, Debug, PartialEq, Eq)]
pub struct GetNodeIdRequest {}

/// What a `GetNodeIdRequest` holds, as specifications see it.
pub struct GetNodeIdRequestView {}

impl DeepView for GetNodeIdRequest {
    type V = GetNodeIdRequestView;

    open spec fn deep_view(&self) -> GetNodeIdRequestView {
        GetNodeIdRequestView {  }
    }
}

impl View for GetNodeIdRequest {
    type V = GetNodeIdRequestView;

    open spec fn view(&self) -> GetNodeIdRequestView {
        self.deep_view()
    }
}

impl Message for GetNodeIdRequest {
    open spec fn blank() -> GetNodeIdRequestView {
        GetNodeIdRequestView {  }
    }

    open spec fn absorb(acc: GetNodeIdRequestView, item: Item) -> Option<GetNodeIdRequestView> {
        Some(acc)
    }

    open spec fn items(v: GetNodeIdRequestView) -> Seq<Item> {
        Seq::empty()
    }

    open spec fn fits(v: GetNodeIdRequestView) -> bool {
        true
    }

    fn fresh() -> (m: Self) {
        GetNodeIdRequest {  }
    }

    fn take(&mut self, field: &Field<'_>) -> (ok: bool) {
        true
    }

    fn emit(&self, out: &mut Vec<u8>) {
        assert(out@ =~= old(out)@ + items_bytes(Seq::empty()));
    }
}

impl Lossless for GetNodeIdRequest {
    proof fn lemma_round_trip(v: GetNodeIdRequestView) {
        reveal(items_ok);
        lemma_absorbed_none::<Self>(v);
    }
}

/// The node's identifier.
#[derive(Clone, Debug, PartialEq, Eq)]
pub struct GetNodeIdResponse {
    /// The node's public key, in hexadecimal.
    pub node_id: String,
}

/// What a `GetNodeIdResponse` holds, as specifications see it.
pub struct GetNodeIdResponseView {
    pub node_id: Seq<char>,
}

impl DeepView for GetNodeIdResponse {
    type V = GetNodeIdResponseView;

    open spec fn deep_view(&self) -> GetNodeIdResponseView {
        GetNodeIdResponseView {
            node_id: self.node_id.deep_view(),
        }
    }
}

impl View for GetNodeIdResponse {
    type V = GetNodeIdResponseView;

    open spec fn view(&self) -> GetNodeIdResponseView {
        self.deep_view()
    }
}

impl Message for GetNodeIdResponse {
    open spec fn blank() -> GetNodeIdResponseView {
        GetNodeIdResponseView {
            node_id: Seq::empty(),
        }
    }

    open spec fn absorb(acc: GetNodeIdResponseView, item: Item) -> Option<GetNodeIdResponseView> {
        if item.number == 1 {
            match item_text(item) {
                Some(x) => Some(GetNodeIdResponseView { node_id: x, ..acc }),
                None => None,
            }
        } else {
            Some(acc)
        }
    }

    open spec fn items(v: GetNodeIdResponseView) -> Seq<Item> {
        text_items(1, v.node_id)
    }

    open spec fn fits(v: GetNodeIdResponseView) -> bool {
        &&& text_fits(v.node_id)
    }

    fn fresh() -> (m: Self) {
        let m = GetNodeIdResponse {
            node_id: String::new(),
        };
        m
    }

    fn take(&mut self, field: &Field<'_>) -> (ok: bool) {
        if field.number == 1 {
            match field_text(field) {
                Some(x) => {
                    self.node_id = x;
                    true
                },
                None => false,
            }
        } else {
            true
        }
    }

    fn emit(&self, out: &mut Vec<u8>) {
        let ghost v = self.deep_view();
        put_text(1, &self.node_id, out);
        let ghost run = text_items(1, v.node_id);
    }
}

impl Lossless for GetNodeIdResponse {
    proof fn lemma_round_trip(v: GetNodeIdResponseView) {
        let s0 = Self::blank();
        let i1 = text_items(1, v.node_id);
        let s1 = GetNodeIdResponseView { node_id: v.node_id, ..s0 };
        assert(items_ok(i1) && absorbed::<Self>(s0, i1) == Some(s1)) by {
            reveal(items_ok);
            if v.node_id.len() == 0 {
                assert(v.node_id =~= Seq::<char>::empty());
                lemma_absorbed_none::<Self>(s0);
            } else {
                lemma_text_round_trip(1, v.node_id);
                lemma_absorbed_one::<Self>(s0, bytes_item(1, encode_utf8(v.node_id)));
            }
        }
        let r1 = i1;
        assert(s1 == v);
    }
}

/// Asks for the node's status.
#[derive(Clone, Debug, PartialEq, Eq)]
pub struct GetNodeStatusRequest {}

/// What a `GetNodeStatusRequest` holds, as specifications see it.
pub struct GetNodeStatusRequestView {}

impl DeepView for GetNodeStatusRequest {
    type V = GetNodeStatusRequestView;

    open spec fn deep_view(&self) -> GetNodeStatusRequestView {
        GetNodeStatusRequestView {  }
    }
}

impl View for GetNodeStatusRequest {
    type V = GetNodeStatusRequestView;

    open spec fn view(&self) -> GetNodeStatusRequestView {
        self.deep_view()
    }
}

impl Message for GetNodeStatusRequest {
    open spec fn blank() -> GetNodeStatusRequestView {
        GetNodeStatusRequestView {  }
    }

    open spec fn absorb(acc: GetNodeStatusRequestView, item: Item) -> Option<
        GetNodeStatusRequestView,
    > {
        Some(acc)
    }

    open spec fn items(v: GetNodeStatusRequestView) -> Seq<Item> {
        Seq::empty()
    }

    open spec fn fits(v: GetNodeStatusRequestView) -> bool {
        true
    }

    fn fresh() -> (m: Self) {
        GetNodeStatusRequest {  }
    }

    fn take(&mut self, field: &Field<'_>) -> (ok: bool) {
        true
    }

    fn emit(&self, out: &mut Vec<u8>) {
        assert(out@ =~= old(out)@ + items_bytes(Seq::empty()));
    }
}

impl Lossless for GetNodeStatusRequest {
    proof fn lemma_round_trip(v: GetNodeStatusRequestView) {
        reveal(items_ok);
        lemma_absorbed_none::<Self>(v);
    }
}

/// The tip of the chain as the node knows it.
#[derive(Clone, Debug, PartialEq, Eq)]
pub struct BestBlock {
    /// The block's hash, in the textual form of block hashes.
    pub block_hash: String,
    /// The block's height.
    pub height: u32,
}

/// What a `BestBlock` holds, as specifications see it.
pub struct BestBlockView {
    pub block_hash: Seq<char>,
    pub height: u32,
}

impl DeepView for BestBlock {
    type V = BestBlockView;

    open spec fn deep_view(&self) -> BestBlockView {
        BestBlockView {
            block_hash: self.block_hash.deep_view(),
            height: self.height.deep_view(),
        }
    }
}

impl View for BestBlock {
    type V = BestBlockView;

    open spec fn view(&self) -> BestBlockView {
        self.deep_view()
    }
}

impl Message for BestBlock {
    open spec fn blank() -> BestBlockView {
        BestBlockView {
            block_hash: Seq::empty(),
            height: 0,
        }
    }

    open spec fn absorb(acc: BestBlockView, item: Item) -> Option<BestBlockView> {
        if item.number == 1 {
            match item_text(item) {
                Some(x) => Some(BestBlockView { block_hash: x, ..acc }),
                None => None,
            }
        } else if item.number == 2 {
            match item_uint32(item) {
                Some(x) => Some(BestBlockView { height: x, ..acc }),
                None => None,
            }
        } else {
            Some(acc)
        }
    }

    open spec fn items(v: BestBlockView) -> Seq<Item> {
        text_items(1, v.block_hash) + uint32_items(2, v.height)
    }

    open spec fn fits(v: BestBlockView) -> bool {
        &&& text_fits(v.block_hash)
    }

    fn fresh() -> (m: Self) {
        let m = BestBlock {
            block_hash: String::new(),
            height: 0,
        };
        m
    }

    fn take(&mut self, field: &Field<'_>) -> (ok: bool) {
        if field.number == 1 {
            match field_text(field) {
                Some(x) => {
                    self.block_hash = x;
                    true
                },
                None => false,
            }
        } else if field.number == 2 {
            match field_uint32(field) {
                Some(x) => {
                    self.height = x;
                    true
                },
                None => false,
            }
        } else {
            true
        }
    }

    fn emit(&self, out: &mut Vec<u8>) {
        let ghost v = self.deep_view();
        put_text(1, &self.block_hash, out);
        let ghost run = text_items(1, v.block_hash);
        let ghost mid = out@;
        put_uint32(2, self.height, out);
        proof {
            lemma_items_bytes_extend(old(out)@, mid, out@, run, uint32_items(2, v.height));
        }
        let ghost run = run + uint32_items(2, v.height);
    }
}

impl Lossless for BestBlock {
    proof fn lemma_round_trip(v: BestBlockView) {
        let s0 = Self::blank();
        let i1 = text_items(1, v.block_hash);
        let s1 = BestBlockView { block_hash: v.block_hash, ..s0 };
        assert(items_ok(i1) && absorbed::<Self>(s0, i1) == Some(s1)) by {
            reveal(items_ok);
            if v.block_hash.len() == 0 {
                assert(v.block_hash =~= Seq::<char>::empty());
                lemma_absorbed_none::<Self>(s0);
            } else {
                lemma_text_round_trip(1, v.block_hash);
                lemma_absorbed_one::<Self>(s0, bytes_item(1, encode_utf8(v.block_hash)));
            }
        }
        let r1 = i1;
        let i2 = uint32_items(2, v.height);
        let s2 = BestBlockView { height: v.height, ..s1 };
        assert(items_ok(i2) && absorbed::<Self>(s1, i2) == Some(s2)) by {
            reveal(items_ok);
            if v.height == 0 {
                lemma_absorbed_none::<Self>(s1);
            } else {
                lemma_absorbed_one::<Self>(s1, scalar_item(2, v.height as u64));
            }
        }
        lemma_absorbed_concat::<Self>(s0, r1, i2);
        lemma_items_ok_concat(r1, i2);
        let r2 = r1 + i2;
        assert(s2 == v);
    }
}

/// The node's status: who it is, where the chain stands, and when it last did
/// each kind of upkeep. A time is absent where the upkeep has not happened yet.
#[derive(Clone, Debug, PartialEq, Eq)]
pub struct GetNodeStatusResponse {
    /// The node's public key, in hexadecimal.
    pub public_key: String,
    /// The best block the node has seen.
    pub current_best_block: Option<BestBlock>,
    pub latest_wallet_sync_timestamp: Option<u64>,
    pub latest_onchain_wallet_sync_timestamp: Option<u64>,
    pub latest_fee_rate_cache_update_timestamp: Option<u64>,
    pub latest_rgs_snapshot_timestamp: Option<u64>,
    pub latest_node_announcement_broadcast_timestamp: Option<u64>,
}

/// What a `GetNodeStatusResponse` holds, as specifications see it.
pub struct GetNodeStatusResponseView {
    pub public_key: Seq<char>,
    pub current_best_block: Option<BestBlockView>,
    pub latest_wallet_sync_timestamp: Option<u64>,
    pub latest_onchain_wallet_sync_timestamp: Option<u64>,
    pub latest_fee_rate_cache_update_timestamp: Option<u64>,
    pub latest_rgs_snapshot_timestamp: Option<u64>,
    pub latest_node_announcement_broadcast_timestamp: Option<u64>,
}

impl DeepView for GetNodeStatusResponse {
    type V = GetNodeStatusResponseView;

    open spec fn deep_view(&self) -> GetNodeStatusResponseView {
        GetNodeStatusResponseView {
            public_key: self.public_key.deep_view(),
            current_best_block: self.current_best_block.deep_view(),
            latest_wallet_sync_timestamp: self.latest_wallet_sync_timestamp.deep_view(),
            latest_onchain_wallet_sync_timestamp: self.latest_onchain_wallet_sync_timestamp.deep_view(),
            latest_fee_rate_cache_update_timestamp: self.latest_fee_rate_cache_update_timestamp.deep_view(),
            latest_rgs_snapshot_timestamp: self.latest_rgs_snapshot_timestamp.deep_view(),
            latest_node_announcement_broadcast_timestamp: self.latest_node_announcement_broadcast_timestamp.deep_view(),
        }
    }
}

impl View for GetNodeStatusResponse {
    type V = GetNodeStatusResponseView;

    open spec fn view(&self) -> GetNodeStatusResponseView {
        self.deep_view()
    }
}

impl Message for GetNodeStatusResponse {
    open spec fn blank() -> GetNodeStatusResponseView {
        GetNodeStatusResponseView {
            public_key: Seq::empty(),
            current_best_block: None,
            latest_wallet_sync_timestamp: None,
            latest_onchain_wallet_sync_timestamp: None,
            latest_fee_rate_cache_update_timestamp: None,
            latest_rgs_snapshot_timestamp: None,
            latest_node_announcement_broadcast_timestamp: None,
        }
    }

    open spec fn absorb(acc: GetNodeStatusResponseView, item: Item) -> Option<
        GetNodeStatusResponseView,
    > {
        if item.number == 1 {
            match item_text(item) {
                Some(x) => Some(GetNodeStatusResponseView { public_key: x, ..acc }),
                None => None,
            }
        } else if item.number == 2 {
            match item_nested::<BestBlock>(acc.current_best_block, item) {
                Some(x) => Some(GetNodeStatusResponseView { current_best_block: Some(x), ..acc }),
                None => None,
            }
        } else if item.number == 3 {
            match item_uint64(item) {
                Some(x) => Some(GetNodeStatusResponseView { latest_wallet_sync_timestamp: Some(x), ..acc }),
                None => None,
            }
        } else if item.number == 4 {
            match item_uint64(item) {
                Some(x) => Some(GetNodeStatusResponseView { latest_onchain_wallet_sync_timestamp: Some(x), ..acc }),
                None => None,
            }
        } else if item.number == 5 {
            match item_uint64(item) {
                Some(x) => Some(GetNodeStatusResponseView { latest_fee_rate_cache_update_timestamp: Some(x), ..acc }),
                None => None,
            }
        } else if item.number == 6 {
            match item_uint64(item) {
                Some(x) => Some(GetNodeStatusResponseView { latest_rgs_snapshot_timestamp: Some(x), ..acc }),
                None => None,
            }
        } else if item.number == 7 {
            match item_uint64(item) {
                Some(x) => Some(GetNodeStatusResponseView { latest_node_announcement_broadcast_timestamp: Some(x), ..acc }),
                None => None,
            }
        } else {
            Some(acc)
        }
    }

    open spec fn items(v: GetNodeStatusResponseView) -> Seq<Item> {
        text_items(1, v.public_key)
            + nested_items::<BestBlock>(2, v.current_best_block)
            + some_uint64_items(3, v.latest_wallet_sync_timestamp)
            + some_uint64_items(4, v.latest_onchain_wallet_sync_timestamp)
            + some_uint64_items(5, v.latest_fee_rate_cache_update_timestamp)
            + some_uint64_items(6, v.latest_rgs_snapshot_timestamp)
            + some_uint64_items(7, v.latest_node_announcement_broadcast_timestamp)
    }

    open spec fn fits(v: GetNodeStatusResponseView) -> bool {
        &&& text_fits(v.public_key)
        &&& nested_fits::<BestBlock>(v.current_best_block)
    }

    fn fresh() -> (m: Self) {
        let m = GetNodeStatusResponse {
            public_key: String::new(),
            current_best_block: None,
            latest_wallet_sync_timestamp: None,
            latest_onchain_wallet_sync_timestamp: None,
            latest_fee_rate_cache_update_timestamp: None,
            latest_rgs_snapshot_timestamp: None,
            latest_node_announcement_broadcast_timestamp: None,
        };
        m
    }

    fn take(&mut self, field: &Field<'_>) -> (ok: bool) {
        if field.number == 1 {
            match field_text(field) {
                Some(x) => {
                    self.public_key = x;
                    true
                },
                None => false,
            }
        } else if field.number == 2 {
            take_nested(&mut self.current_best_block, field)
        } else if field.number == 3 {
            match field_uint64(field) {
                Some(x) => {
                    self.latest_wallet_sync_timestamp = Some(x);
                    true
                },
                None => false,
            }
        } else if field.number == 4 {
            match field_uint64(field) {
                Some(x) => {
                    self.latest_onchain_wallet_sync_timestamp = Some(x);
                    true
                },
                None => false,
            }
        } else if field.number == 5 {
            match field_uint64(field) {
                Some(x) => {
                    self.latest_fee_rate_cache_update_timestamp = Some(x);
                    true
                },
                None => false,
            }
        } else if field.number == 6 {
            match field_uint64(field) {
                Some(x) => {
                    self.latest_rgs_snapshot_timestamp = Some(x);
                    true
                },
                None => false,
            }
        } else if field.number == 7 {
            match field_uint64(field) {
                Some(x) => {
                    self.latest_node_announcement_broadcast_timestamp = Some(x);
                    true
                },
                None => false,
            }
        } else {
            true
        }
    }

    fn emit(&self, out: &mut Vec<u8>) {
        let ghost v = self.deep_view();
        put_text(1, &self.public_key, out);
        let ghost run = text_items(1, v.public_key);
        let ghost mid = out@;
        put_nested(2, &self.current_best_block, out);
        proof {
            lemma_items_bytes_extend(
                old(out)@,
                mid,
                out@,
                run,
                nested_items::<BestBlock>(2, v.current_best_block),
            );
        }
        let ghost run = run + nested_items::<BestBlock>(2, v.current_best_block);
        let ghost mid = out@;
        put_some_uint64(3, self.latest_wallet_sync_timestamp, out);
        proof {
            lemma_items_bytes_extend(
                old(out)@,
                mid,
                out@,
                run,
                some_uint64_items(3, v.latest_wallet_sync_timestamp),
            );
        }
        let ghost run = run + some_uint64_items(3, v.latest_wallet_sync_timestamp);
        let ghost mid = out@;
        put_some_uint64(4, self.latest_onchain_wallet_sync_timestamp, out);
        proof {
            lemma_items_bytes_extend(
                old(out)@,
                mid,
                out@,
                run,
                some_uint64_items(4, v.latest_onchain_wallet_sync_timestamp),
            );
        }
        let ghost run = run + some_uint64_items(4, v.latest_onchain_wallet_sync_timestamp);
        let ghost mid = out@;
        put_some_uint64(5, self.latest_fee_rate_cache_update_timestamp, out);
        proof {
            lemma_items_bytes_extend(
                old(out)@,
                mid,
                out@,
                run,
                some_uint64_items(5, v.latest_fee_rate_cache_update_timestamp),
            );
        }
        let ghost run = run + some_uint64_items(5, v.latest_fee_rate_cache_update_timestamp);
        let ghost mid = out@;
        put_some_uint64(6, self.latest_rgs_snapshot_timestamp, out);
        proof {
            lemma_items_bytes_extend(
                old(out)@,
                mid,
                out@,
                run,
                some_uint64_items(6, v.latest_rgs_snapshot_timestamp),
            );
        }
        let ghost run = run + some_uint64_items(6, v.latest_rgs_snapshot_timestamp);
        let ghost mid = out@;
        put_some_uint64(7, self.latest_node_announcement_broadcast_timestamp, out);
        proof {
            lemma_items_bytes_extend(
                old(out)@,
                mid,
                out@,
                run,
                some_uint64_items(7, v.latest_node_announcement_broadcast_timestamp),
            );
        }
        let ghost run = run + some_uint64_items(7, v.latest_node_announcement_broadcast_timestamp);
    }
}

impl Lossless for GetNodeStatusResponse {
    proof fn lemma_round_trip(v: GetNodeStatusResponseView) {
        let s0 = Self::blank();
        let i1 = text_items(1, v.public_key);
        let s1 = GetNodeStatusResponseView { public_key: v.public_key, ..s0 };
        assert(items_ok(i1) && absorbed::<Self>(s0, i1) == Some(s1)) by {
            reveal(items_ok);
            if v.public_key.len() == 0 {
                assert(v.public_key =~= Seq::<char>::empty());
                lemma_absorbed_none::<Self>(s0);
            } else {
                lemma_text_round_trip(1, v.public_key);
                lemma_absorbed_one::<Self>(s0, bytes_item(1, encode_utf8(v.public_key)));
            }
        }
        let r1 = i1;
        let i2 = nested_items::<BestBlock>(2, v.current_best_block);
        let s2 = GetNodeStatusResponseView { current_best_block: v.current_best_block, ..s1 };
        assert(items_ok(i2) && absorbed::<Self>(s1, i2) == Some(s2)) by {
            reveal(items_ok);
            match v.current_best_block {
                Some(x) => {
                    lemma_nested_round_trip::<BestBlock>(2, x);
                    lemma_absorbed_one::<Self>(s1, bytes_item(2, encoded::<BestBlock>(x)));
                },
                None => {
                    lemma_absorbed_none::<Self>(s1);
                },
            }
        }
        lemma_absorbed_concat::<Self>(s0, r1, i2);
        lemma_items_ok_concat(r1, i2);
        let r2 = r1 + i2;
        let i3 = some_uint64_items(3, v.latest_wallet_sync_timestamp);
        let s3 = GetNodeStatusResponseView { latest_wallet_sync_timestamp: v.latest_wallet_sync_timestamp, ..s2 };
        assert(items_ok(i3) && absorbed::<Self>(s2, i3) == Some(s3)) by {
            reveal(items_ok);
            match v.latest_wallet_sync_timestamp {
                Some(x) => {
                    lemma_absorbed_one::<Self>(s2, scalar_item(3, x as u64));
                },
                None => {
                    lemma_absorbed_none::<Self>(s2);
                },
            }
        }
        lemma_absorbed_concat::<Self>(s0, r2, i3);
        lemma_items_ok_concat(r2, i3);
        let r3 = r2 + i3;
        let i4 = some_uint64_items(4, v.latest_onchain_wallet_sync_timestamp);
        let s4 = GetNodeStatusResponseView { latest_onchain_wallet_sync_timestamp: v.latest_onchain_wallet_sync_timestamp, ..s3 };
        assert(items_ok(i4) && absorbed::<Self>(s3, i4) == Some(s4)) by {
            reveal(items_ok);
            match v.latest_onchain_wallet_sync_timestamp {
                Some(x) => {
                    lemma_absorbed_one::<Self>(s3, scalar_item(4, x as u64));
                },
                None => {
                    lemma_absorbed_none::<Self>(s3);
                },
            }
        }
        lemma_absorbed_concat::<Self>(s0, r3, i4);
        lemma_items_ok_concat(r3, i4);
        let r4 = r3 + i4;
        let i5 = some_uint64_items(5, v.latest_fee_rate_cache_update_timestamp);
        let s5 = GetNodeStatusResponseView { latest_fee_rate_cache_update_timestamp: v.latest_fee_rate_cache_update_timestamp, ..s4 };
        assert(items_ok(i5) && absorbed::<Self>(s4, i5) == Some(s5)) by {
            reveal(items_ok);
            match v.latest_fee_rate_cache_update_timestamp {
                Some(x) => {
                    lemma_absorbed_one::<Self>(s4, scalar_item(5, x as u64));
                },
                None => {
                    lemma_absorbed_none::<Self>(s4);
                },
            }
        }
        lemma_absorbed_concat::<Self>(s0, r4, i5);
        lemma_items_ok_concat(r4, i5);
        let r5 = r4 + i5;
        let i6 = some_uint64_items(6, v.latest_rgs_snapshot_timestamp);
        let s6 = GetNodeStatusResponseView { latest_rgs_snapshot_timestamp: v.latest_rgs_snapshot_timestamp, ..s5 };
        assert(items_ok(i6) && absorbed::<Self>(s5, i6) == Some(s6)) by {
            reveal(items_ok);
            match v.latest_rgs_snapshot_timestamp {
                Some(x) => {
                    lemma_absorbed_one::<Self>(s5, scalar_item(6, x as u64));
                },
                None => {
                    lemma_absorbed_none::<Self>(s5);
                },
            }
        }
        lemma_absorbed_concat::<Self>(s0, r5, i6);
        lemma_items_ok_concat(r5, i6);
        let r6 = r5 + i6;
        let i7 = some_uint64_items(7, v.latest_node_announcement_broadcast_timestamp);
        let s7 = GetNodeStatusResponseView { latest_node_announcement_broadcast_timestamp: v.latest_node_announcement_broadcast_timestamp, ..s6 };
        assert(items_ok(i7) && absorbed::<Self>(s6, i7) == Some(s7)) by {
            reveal(items_ok);
            match v.latest_node_announcement_broadcast_timestamp {
                Some(x) => {
                    lemma_absorbed_one::<Self>(s6, scalar_item(7, x as u64));
                },
                None => {
                    lemma_absorbed_none::<Self>(s6);
                },
            }
        }
        lemma_absorbed_concat::<Self>(s0, r6, i7);
        lemma_items_ok_concat(r6, i7);
        let r7 = r6 + i7;
        assert(s7 == v);
    }
}

} // verus!
