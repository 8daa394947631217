//! From the node's values to wire messages. Each kind of a balance, of a
//! pending sweep and of a payment goes to the payload of its own name in
//! the envelope; identifiers become text or raw bytes, field by field.

use crate::ids::{
    block_hash_text, channel_id_text, lower_hex, payment_hash_text, payment_preimage_text,
    txid_text, NodeId,
};
use crate::node::{
    BalanceDetails, ChannelDetails, LSPFeeLimits, LightningBalance, NodeStatus, OutPoint,
    PaymentDetails, PaymentDirection, PaymentKind, PaymentStatus, PendingSweepBalance,
};
use crate::protos;
use crate::protos::balances::{
    AwaitingThresholdConfirmationsView, BroadcastAwaitingConfirmationView,
    ClaimableAwaitingConfirmationsView, ClaimableOnChannelCloseView, ContentiousClaimableView,
    CounterpartyRevokedOutputClaimableView, GetBalancesResponseView, LightningBalanceView,
    MaybePreimageClaimableHtlcView, MaybeTimeoutClaimableHtlcView, PendingBroadcastView,
    PendingSweepBalanceView,
};
use crate::protos::channels::{ChannelView, ListChannelsResponseView, OutpointView};
use crate::protos::lightning_balance;
use crate::protos::payment_id::PaymentIdView;
use crate::protos::payment_kind;
use crate::protos::payments::{
    Bolt11JitView, Bolt11View, Bolt12OfferView, Bolt12RefundView, LspFeeLimitsView, OnchainView,
    PaymentDetailsView, PaymentKindView, PaymentsHistoryResponseView, SpontaneousView,
};
use crate::protos::pending_sweep_balance;
use crate::protos::status::{BestBlockView, GetNodeStatusResponseView};
use vstd::array::array_as_slice;
use vstd::prelude::*;
use vstd::slice::slice_to_vec;

verus! {

// ---- identifiers ----

/// An optional identifier as optional hexadecimal text.
pub open spec fn some_hex(bytes: Option<[u8; 32]>) -> Option<Seq<char>> {
    match bytes {
        Some(b) => Some(lower_hex(b@)),
        None => None,
    }
}

/// An optional identifier as optional raw bytes.
pub open spec fn some_raw(bytes: Option<[u8; 32]>) -> Option<Seq<u8>> {
    match bytes {
        Some(b) => Some(b@),
        None => None,
    }
}

fn raw(bytes: &[u8; 32]) -> (r: Vec<u8>)
    ensures
        r.deep_view() == bytes@,
{
    let r = slice_to_vec(array_as_slice(bytes));
    assert(r.deep_view() =~= bytes@);
    r
}

fn some_secret(bytes: &Option<[u8; 32]>) -> (r: Option<Vec<u8>>)
    ensures
        r.deep_view() == some_raw(*bytes),
{
    match bytes {
        Some(b) => Some(raw(b)),
        None => None,
    }
}

fn some_channel_id_text(bytes: &Option<[u8; 32]>) -> (r: Option<String>)
    ensures
        r.deep_view() == some_hex(*bytes),
{
    match bytes {
        Some(b) => Some(channel_id_text(b)),
        None => None,
    }
}

fn some_payment_hash_text(bytes: &Option<[u8; 32]>) -> (r: Option<String>)
    ensures
        r.deep_view() == some_hex(*bytes),
{
    match bytes {
        Some(b) => Some(payment_hash_text(b)),
        None => None,
    }
}

fn some_payment_preimage_text(bytes: &Option<[u8; 32]>) -> (r: Option<String>)
    ensures
        r.deep_view() == some_hex(*bytes),
{
    match bytes {
        Some(b) => Some(payment_preimage_text(b)),
        None => None,
    }
}

// ---- channel balances ----

/// The envelope of a channel balance: the payload of the balance's kind,
/// with the channel, the other party and the hashes in hexadecimal.
pub open spec fn lightning_balance_wire(balance: LightningBalance) -> LightningBalanceView {
    LightningBalanceView {
        balance_type: Some(
            match balance {
                LightningBalance::ClaimableOnChannelClose {
                    channel_id,
                    counterparty_node_id,
                    amount_satoshis,
                } => lightning_balance::BalanceTypeView::ClaimableOnChannelClose(
                    ClaimableOnChannelCloseView {
                        channel_id: lower_hex(channel_id@),
                        counterparty_node_id: lower_hex(counterparty_node_id@),
                        amount_satoshis,
                    },
                ),
                LightningBalance::ClaimableAwaitingConfirmations {
                    channel_id,
                    counterparty_node_id,
                    amount_satoshis,
                    confirmation_height,
                } => lightning_balance::BalanceTypeView::ClaimableAwaitingConfirmations(
                    ClaimableAwaitingConfirmationsView {
                        channel_id: lower_hex(channel_id@),
                        counterparty_node_id: lower_hex(counterparty_node_id@),
                        amount_satoshis,
                        confirmation_height,
                    },
                ),
                LightningBalance::ContentiousClaimable {
                    channel_id,
                    counterparty_node_id,
                    amount_satoshis,
                    timeout_height,
                    payment_hash,
                    payment_preimage,
                } => lightning_balance::BalanceTypeView::ContentiousClaimable(
                    ContentiousClaimableView {
                        channel_id: lower_hex(channel_id@),
                        counterparty_node_id: lower_hex(counterparty_node_id@),
                        amount_satoshis,
                        timeout_height,
                        payment_hash: lower_hex(payment_hash@),
                        payment_preimage: lower_hex(payment_preimage@),
                    },
                ),
                LightningBalance::MaybeTimeoutClaimableHTLC {
                    channel_id,
                    counterparty_node_id,
                    amount_satoshis,
                    claimable_height,
                    payment_hash,
                } => lightning_balance::BalanceTypeView::MaybeTimeoutClaimableHtlc(
                    MaybeTimeoutClaimableHtlcView {
                        channel_id: lower_hex(channel_id@),
                        counterparty_node_id: lower_hex(counterparty_node_id@),
                        amount_satoshis,
                        claimable_height,
                        payment_hash: lower_hex(payment_hash@),
                    },
                ),
                LightningBalance::MaybePreimageClaimableHTLC {
                    channel_id,
                    counterparty_node_id,
                    amount_satoshis,
                    expiry_height,
                    payment_hash,
                } => lightning_balance::BalanceTypeView::MaybePreimageClaimableHtlc(
                    MaybePreimageClaimableHtlcView {
                        channel_id: lower_hex(channel_id@),
                        counterparty_node_id: lower_hex(counterparty_node_id@),
                        amount_satoshis,
                        expiry_height,
                        payment_hash: lower_hex(payment_hash@),
                    },
                ),
                LightningBalance::CounterpartyRevokedOutputClaimable {
                    channel_id,
                    counterparty_node_id,
                    amount_satoshis,
                } => lightning_balance::BalanceTypeView::CounterpartyRevokedOutputClaimable(
                    CounterpartyRevokedOutputClaimableView {
                        channel_id: lower_hex(channel_id@),
                        counterparty_node_id: lower_hex(counterparty_node_id@),
                        amount_satoshis,
                    },
                ),
            },
        ),
    }
}

/// Translates a channel balance.
pub fn to_lightning_balance_proto(balance: &LightningBalance) -> (r: protos::LightningBalance)
    ensures
        r.deep_view() == lightning_balance_wire(*balance),
{
    let payload = match balance {
        LightningBalance::ClaimableOnChannelClose {
            channel_id,
            counterparty_node_id,
            amount_satoshis,
        } => lightning_balance::BalanceType::ClaimableOnChannelClose(
            protos::ClaimableOnChannelClose {
                channel_id: channel_id_text(channel_id),
                counterparty_node_id: counterparty_node_id.text(),
                amount_satoshis: *amount_satoshis,
            },
        ),
        LightningBalance::ClaimableAwaitingConfirmations {
            channel_id,
            counterparty_node_id,
            amount_satoshis,
            confirmation_height,
        } => lightning_balance::BalanceType::ClaimableAwaitingConfirmations(
            protos::ClaimableAwaitingConfirmations {
                channel_id: channel_id_text(channel_id),
                counterparty_node_id: counterparty_node_id.text(),
                amount_satoshis: *amount_satoshis,
                confirmation_height: *confirmation_height,
            },
        ),
        LightningBalance::ContentiousClaimable {
            channel_id,
            counterparty_node_id,
            amount_satoshis,
            timeout_height,
            payment_hash,
            payment_preimage,
        } => lightning_balance::BalanceType::ContentiousClaimable(
            protos::ContentiousClaimable {
                channel_id: channel_id_text(channel_id),
                counterparty_node_id: counterparty_node_id.text(),
                amount_satoshis: *amount_satoshis,
                timeout_height: *timeout_height,
                payment_hash: payment_hash_text(payment_hash),
                payment_preimage: payment_preimage_text(payment_preimage),
            },
        ),
        LightningBalance::MaybeTimeoutClaimableHTLC {
            channel_id,
            counterparty_node_id,
            amount_satoshis,
            claimable_height,
            payment_hash,
        } => lightning_balance::BalanceType::MaybeTimeoutClaimableHtlc(
            protos::MaybeTimeoutClaimableHtlc {
                channel_id: channel_id_text(channel_id),
                counterparty_node_id: counterparty_node_id.text(),
                amount_satoshis: *amount_satoshis,
                claimable_height: *claimable_height,
                payment_hash: payment_hash_text(payment_hash),
            },
        ),
        LightningBalance::MaybePreimageClaimableHTLC {
            channel_id,
            counterparty_node_id,
            amount_satoshis,
            expiry_height,
            payment_hash,
        } => lightning_balance::BalanceType::MaybePreimageClaimableHtlc(
            protos::MaybePreimageClaimableHtlc {
                channel_id: channel_id_text(channel_id),
                counterparty_node_id: counterparty_node_id.text(),
                amount_satoshis: *amount_satoshis,
                expiry_height: *expiry_height,
                payment_hash: payment_hash_text(payment_hash),
            },
        ),
        LightningBalance::CounterpartyRevokedOutputClaimable {
            channel_id,
            counterparty_node_id,
            amount_satoshis,
        } => lightning_balance::BalanceType::CounterpartyRevokedOutputClaimable(
            protos::CounterpartyRevokedOutputClaimable {
                channel_id: channel_id_text(channel_id),
                counterparty_node_id: counterparty_node_id.text(),
                amount_satoshis: *amount_satoshis,
            },
        ),
    };
    protos::LightningBalance { balance_type: Some(payload) }
}

// ---- pending sweeps ----

/// The envelope of a pending sweep, or none for a sweep that is not yet
/// broadcast and has no channel: its payload has no way to say so.
pub open spec fn pending_sweep_balance_wire(balance: PendingSweepBalance) -> Option<
    PendingSweepBalanceView,
> {
    match balance {
        PendingSweepBalance::PendingBroadcast { channel_id, amount_satoshis } => match channel_id {
            Some(id) => Some(
                PendingSweepBalanceView {
                    balance_type: Some(
                        pending_sweep_balance::BalanceTypeView::PendingBroadcast(
                            PendingBroadcastView { channel_id: lower_hex(id@), amount_satoshis },
                        ),
                    ),
                },
            ),
            None => None,
        },
        PendingSweepBalance::BroadcastAwaitingConfirmation {
            channel_id,
            latest_broadcast_height,
            latest_spending_txid,
            amount_satoshis,
        } => Some(
            PendingSweepBalanceView {
                balance_type: Some(
                    pending_sweep_balance::BalanceTypeView::BroadcastAwaitingConfirmation(
                        BroadcastAwaitingConfirmationView {
                            channel_id: some_hex(channel_id),
                            latest_broadcast_height,
                            latest_spending_txid: lower_hex(latest_spending_txid@.reverse()),
                            amount_satoshis,
                        },
                    ),
                ),
            },
        ),
        PendingSweepBalance::AwaitingThresholdConfirmations {
            channel_id,
            latest_spending_txid,
            confirmation_hash,
            confirmation_height,
            amount_satoshis,
        } => Some(
            PendingSweepBalanceView {
                balance_type: Some(
                    pending_sweep_balance::BalanceTypeView::AwaitingThresholdConfirmations(
                        AwaitingThresholdConfirmationsView {
                            channel_id: some_hex(channel_id),
                            latest_spending_txid: lower_hex(latest_spending_txid@.reverse()),
                            confirmation_hash: lower_hex(confirmation_hash@.reverse()),
                            confirmation_height,
                            amount_satoshis,
                        },
                    ),
                ),
            },
        ),
    }
}

/// Translates a pending sweep; refuses the one that has no translation.
pub fn to_pending_sweep_balance_proto(balance: &PendingSweepBalance) -> (r: Option<
    protos::PendingSweepBalance,
>)
    ensures
        r.deep_view() == pending_sweep_balance_wire(*balance),
{
    let payload = match balance {
        PendingSweepBalance::PendingBroadcast { channel_id, amount_satoshis } => match channel_id {
            Some(id) => pending_sweep_balance::BalanceType::PendingBroadcast(
                protos::PendingBroadcast {
                    channel_id: channel_id_text(id),
                    amount_satoshis: *amount_satoshis,
                },
            ),
            None => {
                return None;
            },
        },
        PendingSweepBalance::BroadcastAwaitingConfirmation {
            channel_id,
            latest_broadcast_height,
            latest_spending_txid,
            amount_satoshis,
        } => pending_sweep_balance::BalanceType::BroadcastAwaitingConfirmation(
            protos::BroadcastAwaitingConfirmation {
                channel_id: some_channel_id_text(channel_id),
                latest_broadcast_height: *latest_broadcast_height,
                latest_spending_txid: txid_text(latest_spending_txid),
                amount_satoshis: *amount_satoshis,
            },
        ),
        PendingSweepBalance::AwaitingThresholdConfirmations {
            channel_id,
            latest_spending_txid,
            confirmation_hash,
            confirmation_height,
            amount_satoshis,
        } => pending_sweep_balance::BalanceType::AwaitingThresholdConfirmations(
            protos::AwaitingThresholdConfirmations {
                channel_id: some_channel_id_text(channel_id),
                latest_spending_txid: txid_text(latest_spending_txid),
                confirmation_hash: block_hash_text(confirmation_hash),
                confirmation_height: *confirmation_height,
                amount_satoshis: *amount_satoshis,
            },
        ),
    };
    Some(protos::PendingSweepBalance { balance_type: Some(payload) })
}

// ---- the balances snapshot ----

/// Whether every pending sweep of a list has a translation.
pub open spec fn pending_sweeps_translate(sweeps: Seq<PendingSweepBalance>) -> bool {
    forall|i: int| 0 <= i < sweeps.len() ==> pending_sweep_balance_wire(#[trigger] sweeps[i]) is Some
}

/// The response that reports a snapshot of balances: the four totals as
/// they are, and each balance and each sweep translated in its place. There
/// is none where a sweep has no translation.
pub open spec fn balances_wire(details: BalanceDetails) -> Option<GetBalancesResponseView> {
    if pending_sweeps_translate(details.pending_balances_from_channel_closures@) {
        Some(
            GetBalancesResponseView {
                total_onchain_balance_sats: details.total_onchain_balance_sats,
                spendable_onchain_balance_sats: details.spendable_onchain_balance_sats,
                total_anchor_channels_reserve_sats: details.total_anchor_channels_reserve_sats,
                total_lightning_balance_sats: details.total_lightning_balance_sats,
                lightning_balances: details.lightning_balances@.map_values(
                    |b: LightningBalance| lightning_balance_wire(b),
                ),
                pending_balances_from_channel_closures:
                    details.pending_balances_from_channel_closures@.map_values(
                    |b: PendingSweepBalance| pending_sweep_balance_wire(b).unwrap(),
                ),
            },
        )
    } else {
        None
    }
}

/// Translates a snapshot of balances.
pub fn to_balances_proto(details: &BalanceDetails) -> (r: Option<protos::GetBalancesResponse>)
    ensures
        r.deep_view() == balances_wire(*details),
{
    let mut lightning_balances: Vec<protos::LightningBalance> = Vec::new();
    let mut i: usize = 0;
    while i < details.lightning_balances.len()
        invariant
            i <= details.lightning_balances@.len(),
            lightning_balances.deep_view() == details.lightning_balances@.take(i as int).map_values(
                |b: LightningBalance| lightning_balance_wire(b),
            ),
        decreases details.lightning_balances@.len() - i,
    {
        let ghost before = lightning_balances.deep_view();
        let ghost all = details.lightning_balances@;
        let next = to_lightning_balance_proto(&details.lightning_balances[i]);
        lightning_balances.push(next);
        assert(lightning_balances.deep_view() =~= before.push(lightning_balance_wire(all[i as int])));
        assert(all.take(i + 1) =~= all.take(i as int).push(all[i as int]));
        i = i + 1;
        assert(lightning_balances.deep_view() =~= all.take(i as int).map_values(
            |b: LightningBalance| lightning_balance_wire(b),
        ));
    }
    assert(details.lightning_balances@.take(i as int) =~= details.lightning_balances@);
    let mut pending: Vec<protos::PendingSweepBalance> = Vec::new();
    let mut j: usize = 0;
    while j < details.pending_balances_from_channel_closures.len()
        invariant
            j <= details.pending_balances_from_channel_closures@.len(),
            pending_sweeps_translate(
                details.pending_balances_from_channel_closures@.take(j as int),
            ),
            pending.deep_view() == details.pending_balances_from_channel_closures@.take(
                j as int,
            ).map_values(|b: PendingSweepBalance| pending_sweep_balance_wire(b).unwrap()),
        decreases details.pending_balances_from_channel_closures@.len() - j,
    {
        let ghost all = details.pending_balances_from_channel_closures@;
        let ghost before = pending.deep_view();
        match to_pending_sweep_balance_proto(&details.pending_balances_from_channel_closures[j]) {
            Some(next) => {
                pending.push(next);
                assert(pending.deep_view() =~= before.push(
                    pending_sweep_balance_wire(all[j as int]).unwrap(),
                ));
            },
            None => {
                assert(pending_sweep_balance_wire(all[j as int]) is None);
                return None;
            },
        }
        assert forall|k: int| 0 <= k < j + 1 implies pending_sweep_balance_wire(
            #[trigger] all.take(j + 1)[k],
        ) is Some by {
            if k < j {
                assert(all.take(j + 1)[k] == all.take(j as int)[k]);
            }
        }
        assert(all.take(j + 1) =~= all.take(j as int).push(all[j as int]));
        j = j + 1;
        assert(pending.deep_view() =~= all.take(j as int).map_values(
            |b: PendingSweepBalance| pending_sweep_balance_wire(b).unwrap(),
        ));
    }
    assert(details.pending_balances_from_channel_closures@.take(j as int)
        =~= details.pending_balances_from_channel_closures@);
    Some(
        protos::GetBalancesResponse {
            total_onchain_balance_sats: details.total_onchain_balance_sats,
            spendable_onchain_balance_sats: details.spendable_onchain_balance_sats,
            total_anchor_channels_reserve_sats: details.total_anchor_channels_reserve_sats,
            total_lightning_balance_sats: details.total_lightning_balance_sats,
            lightning_balances,
            pending_balances_from_channel_closures: pending,
        },
    )
}

// ---- payments ----

/// The fee limits as the wire holds them.
pub open spec fn fee_limits_wire(limits: LSPFeeLimits) -> LspFeeLimitsView {
    LspFeeLimitsView {
        max_total_opening_fee_msat: limits.max_total_opening_fee_msat,
        max_proportional_opening_fee_ppm_msat: limits.max_proportional_opening_fee_ppm_msat,
    }
}

/// The envelope of a payment's kind: the payload of the kind, with hash and
/// preimage in hexadecimal and secret and offer id as raw bytes.
pub open spec fn payment_kind_wire(kind: PaymentKind) -> PaymentKindView {
    PaymentKindView {
        kind: Some(
            match kind {
                PaymentKind::Onchain => payment_kind::KindView::Onchain(OnchainView {  }),
                PaymentKind::Bolt11 { hash, preimage, secret } => payment_kind::KindView::Bolt11(
                    Bolt11View {
                        hash: lower_hex(hash@),
                        preimage: some_hex(preimage),
                        secret: some_raw(secret),
                    },
                ),
                PaymentKind::Bolt11Jit {
                    hash,
                    preimage,
                    secret,
                    lsp_fee_limits,
                } => payment_kind::KindView::Bolt11Jit(
                    Bolt11JitView {
                        hash: lower_hex(hash@),
                        preimage: some_hex(preimage),
                        secret: some_raw(secret),
                        lsp_fee_limits: Some(fee_limits_wire(lsp_fee_limits)),
                    },
                ),
                PaymentKind::Bolt12Offer {
                    hash,
                    preimage,
                    secret,
                    offer_id,
                } => payment_kind::KindView::Bolt12offer(
                    Bolt12OfferView {
                        hash: some_hex(hash),
                        preimage: some_hex(preimage),
                        secret: some_raw(secret),
                        offer_id: offer_id@,
                    },
                ),
                PaymentKind::Bolt12Refund {
                    hash,
                    preimage,
                    secret,
                } => payment_kind::KindView::Bolt12refund(
                    Bolt12RefundView {
                        hash: some_hex(hash),
                        preimage: some_hex(preimage),
                        secret: some_raw(secret),
                    },
                ),
                PaymentKind::Spontaneous { hash, preimage } => payment_kind::KindView::Spontaneous(
                    SpontaneousView { hash: lower_hex(hash@), preimage: some_hex(preimage) },
                ),
            },
        ),
    }
}

/// Translates the kind of a payment.
pub fn to_payment_kind_proto(kind: &PaymentKind) -> (r: protos::PaymentKind)
    ensures
        r.deep_view() == payment_kind_wire(*kind),
{
    let payload = match kind {
        PaymentKind::Onchain => payment_kind::Kind::Onchain(protos::Onchain {  }),
        PaymentKind::Bolt11 { hash, preimage, secret } => payment_kind::Kind::Bolt11(
            protos::Bolt11 {
                hash: payment_hash_text(hash),
                preimage: some_payment_preimage_text(preimage),
                secret: some_secret(secret),
            },
        ),
        PaymentKind::Bolt11Jit { hash, preimage, secret, lsp_fee_limits } => {
            payment_kind::Kind::Bolt11Jit(
                protos::Bolt11Jit {
                    hash: payment_hash_text(hash),
                    preimage: some_payment_preimage_text(preimage),
                    secret: some_secret(secret),
                    lsp_fee_limits: Some(
                        protos::LspFeeLimits {
                            max_total_opening_fee_msat: lsp_fee_limits.max_total_opening_fee_msat,
                            max_proportional_opening_fee_ppm_msat:
                                lsp_fee_limits.max_proportional_opening_fee_ppm_msat,
                        },
                    ),
                },
            )
        },
        PaymentKind::Bolt12Offer { hash, preimage, secret, offer_id } => {
            payment_kind::Kind::Bolt12offer(
                protos::Bolt12Offer {
                    hash: some_payment_hash_text(hash),
                    preimage: some_payment_preimage_text(preimage),
                    secret: some_secret(secret),
                    offer_id: raw(offer_id),
                },
            )
        },
        PaymentKind::Bolt12Refund { hash, preimage, secret } => payment_kind::Kind::Bolt12refund(
            protos::Bolt12Refund {
                hash: some_payment_hash_text(hash),
                preimage: some_payment_preimage_text(preimage),
                secret: some_secret(secret),
            },
        ),
        PaymentKind::Spontaneous { hash, preimage } => payment_kind::Kind::Spontaneous(
            protos::Spontaneous {
                hash: payment_hash_text(hash),
                preimage: some_payment_preimage_text(preimage),
            },
        ),
    };
    protos::PaymentKind { kind: Some(payload) }
}

/// The wire's direction for the node's.
pub open spec fn direction_wire(direction: PaymentDirection) -> protos::PaymentDirection {
    match direction {
        PaymentDirection::Inbound => protos::PaymentDirection::Inbound,
        PaymentDirection::Outbound => protos::PaymentDirection::Outbound,
    }
}

/// The wire's status for the node's.
pub open spec fn status_wire(status: PaymentStatus) -> protos::PaymentStatus {
    match status {
        PaymentStatus::Pending => protos::PaymentStatus::Pending,
        PaymentStatus::Succeeded => protos::PaymentStatus::Succeeded,
        PaymentStatus::Failed => protos::PaymentStatus::Failed,
    }
}

/// The record of a payment as the wire holds it: the id as raw bytes, the
/// kind in its envelope, direction and status by their numbers.
pub open spec fn payment_details_wire(payment: PaymentDetails) -> PaymentDetailsView {
    PaymentDetailsView {
        id: Some(PaymentIdView { data: payment.id@ }),
        kind: Some(payment_kind_wire(payment.kind)),
        amount_msat: payment.amount_msat,
        direction: direction_wire(payment.direction).spec_number(),
        status: status_wire(payment.status).spec_number(),
        latest_update_timestamp: payment.latest_update_timestamp,
    }
}

/// Translates the record of a payment.
pub fn to_payment_details_proto(payment: &PaymentDetails) -> (r: protos::PaymentDetails)
    ensures
        r.deep_view() == payment_details_wire(*payment),
{
    protos::PaymentDetails {
        id: Some(protos::PaymentId { data: raw(&payment.id) }),
        kind: Some(to_payment_kind_proto(&payment.kind)),
        amount_msat: payment.amount_msat,
        direction: match payment.direction {
            PaymentDirection::Inbound => protos::PaymentDirection::Inbound.number(),
            PaymentDirection::Outbound => protos::PaymentDirection::Outbound.number(),
        },
        status: match payment.status {
            PaymentStatus::Pending => protos::PaymentStatus::Pending.number(),
            PaymentStatus::Succeeded => protos::PaymentStatus::Succeeded.number(),
            PaymentStatus::Failed => protos::PaymentStatus::Failed.number(),
        },
        latest_update_timestamp: payment.latest_update_timestamp,
    }
}

/// The response that reports a history: each payment translated in its place.
pub open spec fn payments_wire(payments: Seq<PaymentDetails>) -> PaymentsHistoryResponseView {
    PaymentsHistoryResponseView {
        payments: payments.map_values(|p: PaymentDetails| payment_details_wire(p)),
    }
}

/// Translates a history of payments.
pub fn to_payments_history_proto(payments: &Vec<PaymentDetails>) -> (r:
    protos::PaymentsHistoryResponse)
    ensures
        r.deep_view() == payments_wire(payments@),
{
    let mut out: Vec<protos::PaymentDetails> = Vec::new();
    let mut i: usize = 0;
    while i < payments.len()
        invariant
            i <= payments@.len(),
            out.deep_view() == payments@.take(i as int).map_values(
                |p: PaymentDetails| payment_details_wire(p),
            ),
        decreases payments@.len() - i,
    {
        let ghost before = out.deep_view();
        let next = to_payment_details_proto(&payments[i]);
        out.push(next);
        assert(out.deep_view() =~= before.push(payment_details_wire(payments@[i as int])));
        assert(payments@.take(i + 1) =~= payments@.take(i as int).push(payments@[i as int]));
        i = i + 1;
        assert(out.deep_view() =~= payments@.take(i as int).map_values(
            |p: PaymentDetails| payment_details_wire(p),
        ));
    }
    assert(payments@.take(i as int) =~= payments@);
    protos::PaymentsHistoryResponse { payments: out }
}

// ---- channels ----

/// A 16-bit value with presence, widened to the wire's 32 bits.
pub open spec fn some_widened(value: Option<u16>) -> Option<u32> {
    match value {
        Some(x) => Some(x as u32),
        None => None,
    }
}

/// An output as the wire holds it.
pub open spec fn some_outpoint_wire(output: Option<OutPoint>) -> Option<OutpointView> {
    match output {
        Some(o) => Some(OutpointView { txid: lower_hex(o.txid@.reverse()), vout: o.vout }),
        None => None,
    }
}

/// A channel as the wire holds it: identifiers as text, the two 16-bit
/// fields widened, every other field as it is.
pub open spec fn channel_wire(channel: ChannelDetails) -> ChannelView {
    ChannelView {
        channel_id: lower_hex(channel.channel_id@),
        counterparty_node_id: lower_hex(channel.counterparty_node_id@),
        funding_txo: some_outpoint_wire(channel.funding_txo),
        channel_value_sats: channel.channel_value_sats,
        feerate_sat_per_1000_weight: channel.feerate_sat_per_1000_weight,
        outbound_capacity_msat: channel.outbound_capacity_msat,
        inbound_capacity_msat: channel.inbound_capacity_msat,
        confirmations_required: channel.confirmations_required,
        confirmations: channel.confirmations,
        is_outbound: channel.is_outbound,
        is_channel_ready: channel.is_channel_ready,
        is_usable: channel.is_usable,
        is_public: channel.is_public,
        cltv_expiry_delta: some_widened(channel.cltv_expiry_delta),
        counterparty_outbound_htlc_minimum_msat: channel.counterparty_outbound_htlc_minimum_msat,
        counterparty_outbound_htlc_maximum_msat: channel.counterparty_outbound_htlc_maximum_msat,
        next_outbound_htlc_limit_msat: channel.next_outbound_htlc_limit_msat,
        next_outbound_htlc_minimum_msat: channel.next_outbound_htlc_minimum_msat,
        force_close_spend_delay: some_widened(channel.force_close_spend_delay),
        forwarding_fee_proportional_millionths: channel.forwarding_fee_proportional_millionths,
        forwarding_fee_base_msat: channel.forwarding_fee_base_msat,
    }
}

fn widened(value: Option<u16>) -> (r: Option<u32>)
    ensures
        r == some_widened(value),
{
    match value {
        Some(x) => Some(x as u32),
        None => None,
    }
}

/// Translates a channel.
pub fn to_channel_proto(channel: &ChannelDetails) -> (r: protos::Channel)
    ensures
        r.deep_view() == channel_wire(*channel),
{
    protos::Channel {
        channel_id: channel_id_text(&channel.channel_id),
        counterparty_node_id: channel.counterparty_node_id.text(),
        funding_txo: match &channel.funding_txo {
            Some(o) => Some(protos::Outpoint { txid: txid_text(&o.txid), vout: o.vout }),
            None => None,
        },
        channel_value_sats: channel.channel_value_sats,
        feerate_sat_per_1000_weight: channel.feerate_sat_per_1000_weight,
        outbound_capacity_msat: channel.outbound_capacity_msat,
        inbound_capacity_msat: channel.inbound_capacity_msat,
        confirmations_required: channel.confirmations_required,
        confirmations: channel.confirmations,
        is_outbound: channel.is_outbound,
        is_channel_ready: channel.is_channel_ready,
        is_usable: channel.is_usable,
        is_public: channel.is_public,
        cltv_expiry_delta: widened(channel.cltv_expiry_delta),
        counterparty_outbound_htlc_minimum_msat: channel.counterparty_outbound_htlc_minimum_msat,
        counterparty_outbound_htlc_maximum_msat: channel.counterparty_outbound_htlc_maximum_msat,
        next_outbound_htlc_limit_msat: channel.next_outbound_htlc_limit_msat,
        next_outbound_htlc_minimum_msat: channel.next_outbound_htlc_minimum_msat,
        force_close_spend_delay: widened(channel.force_close_spend_delay),
        forwarding_fee_proportional_millionths: channel.forwarding_fee_proportional_millionths,
        forwarding_fee_base_msat: channel.forwarding_fee_base_msat,
    }
}

/// The response that lists channels: each translated in its place.
pub open spec fn channels_wire(channels: Seq<ChannelDetails>) -> ListChannelsResponseView {
    ListChannelsResponseView {
        channels: channels.map_values(|c: ChannelDetails| channel_wire(c)),
    }
}

/// Translates a list of channels.
pub fn to_channels_proto(channels: &Vec<ChannelDetails>) -> (r: protos::ListChannelsResponse)
    ensures
        r.deep_view() == channels_wire(channels@),
{
    let mut out: Vec<protos::Channel> = Vec::new();
    let mut i: usize = 0;
    while i < channels.len()
        invariant
            i <= channels@.len(),
            out.deep_view() == channels@.take(i as int).map_values(
                |c: ChannelDetails| channel_wire(c),
            ),
        decreases channels@.len() - i,
    {
        let ghost before = out.deep_view();
        let next = to_channel_proto(&channels[i]);
        out.push(next);
        assert(out.deep_view() =~= before.push(channel_wire(channels@[i as int])));
        assert(channels@.take(i + 1) =~= channels@.take(i as int).push(channels@[i as int]));
        i = i + 1;
        assert(out.deep_view() =~= channels@.take(i as int).map_values(
            |c: ChannelDetails| channel_wire(c),
        ));
    }
    assert(channels@.take(i as int) =~= channels@);
    protos::ListChannelsResponse { channels: out }
}

// ---- status ----

/// The response that reports the node's status: its key in hexadecimal,
/// the best block with its hash as text, and the five times as they are.
pub open spec fn node_status_wire(node_id: NodeId, status: NodeStatus) -> GetNodeStatusResponseView {
    GetNodeStatusResponseView {
        public_key: lower_hex(node_id@),
        current_best_block: Some(
            BestBlockView {
                block_hash: lower_hex(status.current_best_block.block_hash@.reverse()),
                height: status.current_best_block.height,
            },
        ),
        latest_wallet_sync_timestamp: status.latest_wallet_sync_timestamp,
        latest_onchain_wallet_sync_timestamp: status.latest_onchain_wallet_sync_timestamp,
        latest_fee_rate_cache_update_timestamp: status.latest_fee_rate_cache_update_timestamp,
        latest_rgs_snapshot_timestamp: status.latest_rgs_snapshot_timestamp,
        latest_node_announcement_broadcast_timestamp:
            status.latest_node_announcement_broadcast_timestamp,
    }
}

/// Translates the node's status.
pub fn to_node_status_proto(node_id: &NodeId, status: &NodeStatus) -> (r:
    protos::GetNodeStatusResponse)
    ensures
        r.deep_view() == node_status_wire(*node_id, *status),
{
    protos::GetNodeStatusResponse {
        public_key: node_id.text(),
        current_best_block: Some(
            protos::BestBlock {
                block_hash: block_hash_text(&status.current_best_block.block_hash),
                height: status.current_best_block.height,
            },
        ),
        latest_wallet_sync_timestamp: status.latest_wallet_sync_timestamp,
        latest_onchain_wallet_sync_timestamp: status.latest_onchain_wallet_sync_timestamp,
        latest_fee_rate_cache_update_timestamp: status.latest_fee_rate_cache_update_timestamp,
        latest_rgs_snapshot_timestamp: status.latest_rgs_snapshot_timestamp,
        latest_node_announcement_broadcast_timestamp:
            status.latest_node_announcement_broadcast_timestamp,
    }
}

} // verus!
