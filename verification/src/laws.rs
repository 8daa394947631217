//! What holds of the gateway as a whole.

use crate::call::NodeOutcome;
use crate::checks::address_accepted;
use crate::codec::message::{decoded, encoded, lemma_decoded_encoded, Message};
use crate::errors::{node_error_text, NodeError};
use crate::ids::{
    be_bytes, lemma_be_room_16, lemma_be_round_trip, lemma_lower_hex_injective,
    lemma_lower_hex_size, lower_hex, public_key_parsed,
};
use crate::node::{LightningBalance, Network, PaymentKind, PendingSweepBalance};
use crate::operation::{operation_of, Operation};
use crate::protos;
use crate::protos::bolt11::{Bolt11ReceiveRequestView, Bolt11SendRequestView};
use crate::protos::bolt12::{Bolt12ReceiveRequestView, Bolt12SendRequestView};
use crate::protos::channels::{
    CloseChannelRequestView, ForceCloseChannelRequestView, ListChannelsRequestView,
    OpenChannelRequestView,
};
use crate::protos::onchain::{OnchainReceiveRequestView, OnchainSendRequestView};
use crate::protos::payments::{
    lemma_bolt11_jit_size, lemma_bolt11_size, lemma_bolt12_offer_size, lemma_bolt12_refund_size,
    lemma_lsp_fee_limits_size, lemma_onchain_size, lemma_spontaneous_size,
    GetPaymentDetailsRequestView, PaymentsHistoryRequestView,
};
use crate::protos::balances::{
    lemma_awaiting_threshold_confirmations_size, lemma_broadcast_awaiting_confirmation_size,
    lemma_claimable_awaiting_confirmations_size, lemma_claimable_on_channel_close_size,
    lemma_contentious_claimable_size, lemma_counterparty_revoked_output_claimable_size,
    lemma_maybe_preimage_claimable_htlc_size, lemma_maybe_timeout_claimable_htlc_size,
    lemma_pending_broadcast_size, GetBalancesRequestView,
};
use crate::protos::lightning_balance;
use crate::protos::payment_kind;
use crate::protos::pending_sweep_balance;
use crate::protos::status::{GetNodeIdRequestView, GetNodeStatusRequestView};
use crate::service::{
    closing_target, completed, failure_reply, handled, malformed_reply, onchain_send_call,
    planned, routed, unknown_reply, ReplyView, StepView, STATUS_BAD_REQUEST,
    STATUS_INTERNAL_SERVER_ERROR, UNKNOWN_REQUEST,
};
use crate::translate::{
    fee_limits_wire, lightning_balance_wire, payment_kind_wire, pending_sweep_balance_wire,
    some_hex, some_raw,
};
use vstd::prelude::*;
use vstd::utf8::encode_utf8;

verus! {

// ---- a request is read back as it was written ----

/// The request for the node's id is read back as it was written.
pub proof fn lemma_get_node_id_request_round_trip(request: GetNodeIdRequestView)
    ensures
        decoded::<protos::GetNodeIdRequest>(encoded::<protos::GetNodeIdRequest>(request)) == Some(
            request,
        ),
{
    lemma_decoded_encoded::<protos::GetNodeIdRequest>(request);
}

/// The request for the node's status is read back as it was written.
pub proof fn lemma_get_node_status_request_round_trip(request: GetNodeStatusRequestView)
    ensures
        decoded::<protos::GetNodeStatusRequest>(encoded::<protos::GetNodeStatusRequest>(request))
            == Some(request),
{
    lemma_decoded_encoded::<protos::GetNodeStatusRequest>(request);
}

/// The request for a new address is read back as it was written.
pub proof fn lemma_onchain_receive_request_round_trip(request: OnchainReceiveRequestView)
    ensures
        decoded::<protos::OnchainReceiveRequest>(encoded::<protos::OnchainReceiveRequest>(request))
            == Some(request),
{
    lemma_decoded_encoded::<protos::OnchainReceiveRequest>(request);
}

/// The request to pay on chain is read back as it was written, with its
/// amount present or absent.
pub proof fn lemma_onchain_send_request_round_trip(request: OnchainSendRequestView)
    requires
        protos::OnchainSendRequest::fits(request),
    ensures
        decoded::<protos::OnchainSendRequest>(encoded::<protos::OnchainSendRequest>(request))
            == Some(request),
{
    lemma_decoded_encoded::<protos::OnchainSendRequest>(request);
}

/// The request for an invoice is read back as it was written, with its
/// amount present or absent.
pub proof fn lemma_bolt11_receive_request_round_trip(request: Bolt11ReceiveRequestView)
    requires
        protos::Bolt11ReceiveRequest::fits(request),
    ensures
        decoded::<protos::Bolt11ReceiveRequest>(encoded::<protos::Bolt11ReceiveRequest>(request))
            == Some(request),
{
    lemma_decoded_encoded::<protos::Bolt11ReceiveRequest>(request);
}

/// The request to pay an invoice is read back as it was written, with its
/// amount present or absent.
pub proof fn lemma_bolt11_send_request_round_trip(request: Bolt11SendRequestView)
    requires
        protos::Bolt11SendRequest::fits(request),
    ensures
        decoded::<protos::Bolt11SendRequest>(encoded::<protos::Bolt11SendRequest>(request))
            == Some(request),
{
    lemma_decoded_encoded::<protos::Bolt11SendRequest>(request);
}

/// The request for an offer is read back as it was written, with its
/// amount present or absent.
pub proof fn lemma_bolt12_receive_request_round_trip(request: Bolt12ReceiveRequestView)
    requires
        protos::Bolt12ReceiveRequest::fits(request),
    ensures
        decoded::<protos::Bolt12ReceiveRequest>(encoded::<protos::Bolt12ReceiveRequest>(request))
            == Some(request),
{
    lemma_decoded_encoded::<protos::Bolt12ReceiveRequest>(request);
}

/// The request to pay an offer is read back as it was written, with its
/// amount and its note each present or absent.
pub proof fn lemma_bolt12_send_request_round_trip(request: Bolt12SendRequestView)
    requires
        protos::Bolt12SendRequest::fits(request),
    ensures
        decoded::<protos::Bolt12SendRequest>(encoded::<protos::Bolt12SendRequest>(request))
            == Some(request),
{
    lemma_decoded_encoded::<protos::Bolt12SendRequest>(request);
}

/// The request for the balances is read back as it was written.
pub proof fn lemma_get_balances_request_round_trip(request: GetBalancesRequestView)
    ensures
        decoded::<protos::GetBalancesRequest>(encoded::<protos::GetBalancesRequest>(request))
            == Some(request),
{
    lemma_decoded_encoded::<protos::GetBalancesRequest>(request);
}

/// The request for the payments is read back as it was written.
pub proof fn lemma_payments_history_request_round_trip(request: PaymentsHistoryRequestView)
    ensures
        decoded::<protos::PaymentsHistoryRequest>(
            encoded::<protos::PaymentsHistoryRequest>(request),
        ) == Some(request),
{
    lemma_decoded_encoded::<protos::PaymentsHistoryRequest>(request);
}

/// The request for one payment is read back as it was written.
pub proof fn lemma_get_payment_details_request_round_trip(request: GetPaymentDetailsRequestView)
    requires
        protos::GetPaymentDetailsRequest::fits(request),
    ensures
        decoded::<protos::GetPaymentDetailsRequest>(
            encoded::<protos::GetPaymentDetailsRequest>(request),
        ) == Some(request),
{
    lemma_decoded_encoded::<protos::GetPaymentDetailsRequest>(request);
}

/// The request for the channels is read back as it was written.
pub proof fn lemma_list_channels_request_round_trip(request: ListChannelsRequestView)
    ensures
        decoded::<protos::ListChannelsRequest>(encoded::<protos::ListChannelsRequest>(request))
            == Some(request),
{
    lemma_decoded_encoded::<protos::ListChannelsRequest>(request);
}

/// The request to open a channel is read back as it was written, with the
/// amount to push present or absent.
pub proof fn lemma_open_channel_request_round_trip(request: OpenChannelRequestView)
    requires
        protos::OpenChannelRequest::fits(request),
    ensures
        decoded::<protos::OpenChannelRequest>(encoded::<protos::OpenChannelRequest>(request))
            == Some(request),
{
    lemma_decoded_encoded::<protos::OpenChannelRequest>(request);
}

/// The request to close a channel is read back as it was written.
pub proof fn lemma_close_channel_request_round_trip(request: CloseChannelRequestView)
    requires
        protos::CloseChannelRequest::fits(request),
    ensures
        decoded::<protos::CloseChannelRequest>(encoded::<protos::CloseChannelRequest>(request))
            == Some(request),
{
    lemma_decoded_encoded::<protos::CloseChannelRequest>(request);
}

/// The request to force a channel closed is read back as it was written.
pub proof fn lemma_force_close_channel_request_round_trip(request: ForceCloseChannelRequestView)
    requires
        protos::ForceCloseChannelRequest::fits(request),
    ensures
        decoded::<protos::ForceCloseChannelRequest>(
            encoded::<protos::ForceCloseChannelRequest>(request),
        ) == Some(request),
{
    lemma_decoded_encoded::<protos::ForceCloseChannelRequest>(request);
}

/// A request that the client wrote reaches the handler as it was: what the
/// server does with the bytes of a request to pay on chain is what the
/// handler says of the request.
pub proof fn lemma_onchain_send_reaches_handler(network: Network, request: OnchainSendRequestView)
    requires
        protos::OnchainSendRequest::fits(request),
    ensures
        handled(
            Operation::OnchainSend,
            network,
            encoded::<protos::OnchainSendRequest>(request),
        ) == planned(Operation::OnchainSend, onchain_send_call(network, request)),
{
    lemma_decoded_encoded::<protos::OnchainSendRequest>(request);
}

// ---- every kind has its own payload, and nothing is lost ----

/// The envelope of every channel balance fits the wire.
pub proof fn lemma_lightning_balance_fits(balance: LightningBalance)
    ensures
        protos::LightningBalance::fits(lightning_balance_wire(balance)),
{
    match balance {
        LightningBalance::ClaimableOnChannelClose { channel_id, counterparty_node_id, .. } => {
            counterparty_node_id.lemma_len();
            lemma_lower_hex_size(channel_id@);
            lemma_lower_hex_size(counterparty_node_id@);
        },
        LightningBalance::ClaimableAwaitingConfirmations {
            channel_id,
            counterparty_node_id,
            ..
        } => {
            counterparty_node_id.lemma_len();
            lemma_lower_hex_size(channel_id@);
            lemma_lower_hex_size(counterparty_node_id@);
        },
        LightningBalance::ContentiousClaimable {
            channel_id,
            counterparty_node_id,
            payment_hash,
            payment_preimage,
            ..
        } => {
            counterparty_node_id.lemma_len();
            lemma_lower_hex_size(channel_id@);
            lemma_lower_hex_size(counterparty_node_id@);
            lemma_lower_hex_size(payment_hash@);
            lemma_lower_hex_size(payment_preimage@);
        },
        LightningBalance::MaybeTimeoutClaimableHTLC {
            channel_id,
            counterparty_node_id,
            payment_hash,
            ..
        } => {
            counterparty_node_id.lemma_len();
            lemma_lower_hex_size(channel_id@);
            lemma_lower_hex_size(counterparty_node_id@);
            lemma_lower_hex_size(payment_hash@);
        },
        LightningBalance::MaybePreimageClaimableHTLC {
            channel_id,
            counterparty_node_id,
            payment_hash,
            ..
        } => {
            counterparty_node_id.lemma_len();
            lemma_lower_hex_size(channel_id@);
            lemma_lower_hex_size(counterparty_node_id@);
            lemma_lower_hex_size(payment_hash@);
        },
        LightningBalance::CounterpartyRevokedOutputClaimable {
            channel_id,
            counterparty_node_id,
            ..
        } => {
            counterparty_node_id.lemma_len();
            lemma_lower_hex_size(channel_id@);
            lemma_lower_hex_size(counterparty_node_id@);
        },
    }
    match lightning_balance_wire(balance).balance_type {
        Some(lightning_balance::BalanceTypeView::ClaimableOnChannelClose(inner)) => {
            lemma_claimable_on_channel_close_size(inner);
        },
        Some(lightning_balance::BalanceTypeView::ClaimableAwaitingConfirmations(inner)) => {
            lemma_claimable_awaiting_confirmations_size(inner);
        },
        Some(lightning_balance::BalanceTypeView::ContentiousClaimable(inner)) => {
            lemma_contentious_claimable_size(inner);
        },
        Some(lightning_balance::BalanceTypeView::MaybeTimeoutClaimableHtlc(inner)) => {
            lemma_maybe_timeout_claimable_htlc_size(inner);
        },
        Some(lightning_balance::BalanceTypeView::MaybePreimageClaimableHtlc(inner)) => {
            lemma_maybe_preimage_claimable_htlc_size(inner);
        },
        Some(lightning_balance::BalanceTypeView::CounterpartyRevokedOutputClaimable(inner)) => {
            lemma_counterparty_revoked_output_claimable_size(inner);
        },
        None => {},
    }
}

/// The envelope of every pending sweep that has one fits the wire.
pub proof fn lemma_pending_sweep_balance_fits(balance: PendingSweepBalance)
    ensures
        pending_sweep_balance_wire(balance) matches Some(envelope)
            ==> protos::PendingSweepBalance::fits(envelope),
{
    match balance {
        PendingSweepBalance::PendingBroadcast { channel_id, .. } => {
            if let Some(id) = channel_id {
                lemma_lower_hex_size(id@);
            }
        },
        PendingSweepBalance::BroadcastAwaitingConfirmation {
            channel_id,
            latest_spending_txid,
            ..
        } => {
            if let Some(id) = channel_id {
                lemma_lower_hex_size(id@);
            }
            lemma_lower_hex_size(latest_spending_txid@.reverse());
        },
        PendingSweepBalance::AwaitingThresholdConfirmations {
            channel_id,
            latest_spending_txid,
            confirmation_hash,
            ..
        } => {
            if let Some(id) = channel_id {
                lemma_lower_hex_size(id@);
            }
            lemma_lower_hex_size(latest_spending_txid@.reverse());
            lemma_lower_hex_size(confirmation_hash@.reverse());
        },
    }
    match pending_sweep_balance_wire(balance) {
        Some(envelope) => match envelope.balance_type {
            Some(pending_sweep_balance::BalanceTypeView::PendingBroadcast(inner)) => {
                lemma_pending_broadcast_size(inner);
            },
            Some(pending_sweep_balance::BalanceTypeView::BroadcastAwaitingConfirmation(inner)) => {
                lemma_broadcast_awaiting_confirmation_size(inner);
            },
            Some(pending_sweep_balance::BalanceTypeView::AwaitingThresholdConfirmations(inner)) => {
                lemma_awaiting_threshold_confirmations_size(inner);
            },
            None => {},
        },
        None => {},
    }
}

proof fn lemma_some_hex_size(bytes: Option<[u8; 32]>)
    ensures
        some_hex(bytes) matches Some(text) ==> encode_utf8(text).len() == 64,
{
    if let Some(b) = bytes {
        lemma_lower_hex_size(b@);
    }
}

/// The envelope of every kind of payment fits the wire.
pub proof fn lemma_payment_kind_fits(kind: PaymentKind)
    ensures
        protos::PaymentKind::fits(payment_kind_wire(kind)),
{
    match kind {
        PaymentKind::Onchain => {},
        PaymentKind::Bolt11 { hash, preimage, .. } => {
            lemma_lower_hex_size(hash@);
            lemma_some_hex_size(preimage);
        },
        PaymentKind::Bolt11Jit { hash, preimage, lsp_fee_limits, .. } => {
            lemma_lower_hex_size(hash@);
            lemma_some_hex_size(preimage);
            lemma_lsp_fee_limits_size(fee_limits_wire(lsp_fee_limits));
        },
        PaymentKind::Bolt12Offer { hash, preimage, .. } => {
            lemma_some_hex_size(hash);
            lemma_some_hex_size(preimage);
        },
        PaymentKind::Bolt12Refund { hash, preimage, .. } => {
            lemma_some_hex_size(hash);
            lemma_some_hex_size(preimage);
        },
        PaymentKind::Spontaneous { hash, preimage } => {
            lemma_lower_hex_size(hash@);
            lemma_some_hex_size(preimage);
        },
    }
    match payment_kind_wire(kind).kind {
        Some(payment_kind::KindView::Onchain(inner)) => {
            lemma_onchain_size(inner);
        },
        Some(payment_kind::KindView::Bolt11(inner)) => {
            lemma_bolt11_size(inner);
        },
        Some(payment_kind::KindView::Bolt11Jit(inner)) => {
            lemma_bolt11_jit_size(inner);
        },
        Some(payment_kind::KindView::Bolt12offer(inner)) => {
            lemma_bolt12_offer_size(inner);
        },
        Some(payment_kind::KindView::Bolt12refund(inner)) => {
            lemma_bolt12_refund_size(inner);
        },
        Some(payment_kind::KindView::Spontaneous(inner)) => {
            lemma_spontaneous_size(inner);
        },
        None => {},
    }
}

/// Every channel balance goes to an envelope with one payload set, and the
/// envelope is read back from its bytes as it was written.
pub proof fn lemma_lightning_balance_envelope(balance: LightningBalance)
    ensures
        lightning_balance_wire(balance).balance_type is Some,
        decoded::<protos::LightningBalance>(
            encoded::<protos::LightningBalance>(lightning_balance_wire(balance)),
        ) == Some(lightning_balance_wire(balance)),
{
    lemma_lightning_balance_fits(balance);
    lemma_decoded_encoded::<protos::LightningBalance>(lightning_balance_wire(balance));
}

/// Every pending sweep that is translated goes to an envelope with one
/// payload set, and the envelope is read back from its bytes as it was
/// written. The one sweep without a translation is the one that is not yet
/// broadcast and has no channel.
pub proof fn lemma_pending_sweep_balance_envelope(balance: PendingSweepBalance)
    ensures
        pending_sweep_balance_wire(balance) is None <==> balance matches PendingSweepBalance::PendingBroadcast {
            channel_id: None,
            ..
        },
        pending_sweep_balance_wire(balance) matches Some(envelope) ==> envelope.balance_type is Some
            && decoded::<protos::PendingSweepBalance>(
            encoded::<protos::PendingSweepBalance>(envelope),
        ) == Some(envelope),
{
    lemma_pending_sweep_balance_fits(balance);
    match pending_sweep_balance_wire(balance) {
        Some(envelope) => {
            lemma_decoded_encoded::<protos::PendingSweepBalance>(envelope);
        },
        None => {},
    }
}

/// Every kind of payment goes to an envelope with one payload set, and the
/// envelope is read back from its bytes as it was written.
pub proof fn lemma_payment_kind_envelope(kind: PaymentKind)
    ensures
        payment_kind_wire(kind).kind is Some,
        decoded::<protos::PaymentKind>(encoded::<protos::PaymentKind>(payment_kind_wire(kind)))
            == Some(payment_kind_wire(kind)),
{
    lemma_payment_kind_fits(kind);
    lemma_decoded_encoded::<protos::PaymentKind>(payment_kind_wire(kind));
}

proof fn lemma_hex_keeps_all()
    ensures
        forall|a: Seq<u8>, b: Seq<u8>| #[trigger] lower_hex(a) == #[trigger] lower_hex(b) ==> a == b,
        forall|a: Option<[u8; 32]>, b: Option<[u8; 32]>|
            #[trigger] some_hex(a) == #[trigger] some_hex(b) ==> a == b,
        forall|a: Option<[u8; 32]>, b: Option<[u8; 32]>|
            #[trigger] some_raw(a) == #[trigger] some_raw(b) ==> a == b,
        forall|a: [u8; 32], b: [u8; 32]| #[trigger] a@.reverse() == #[trigger] b@.reverse() ==> a == b,
        forall|a: [u8; 32], b: [u8; 32]| #[trigger] a@ == #[trigger] b@ ==> a == b,
{
    assert forall|a: Seq<u8>, b: Seq<u8>| #[trigger] lower_hex(a) == #[trigger] lower_hex(b) implies a
        == b by {
        lemma_lower_hex_injective(a, b);
    }
    assert forall|a: [u8; 32], b: [u8; 32]| #[trigger] a@ == #[trigger] b@ implies a == b by {
        assert(a =~= b);
    }
    assert forall|a: [u8; 32], b: [u8; 32]| #[trigger] a@.reverse() == #[trigger] b@.reverse() implies a
        == b by {
        assert forall|i: int| 0 <= i < 32 implies a@[i] == b@[i] by {
            assert(a@.reverse()[31 - i] == a@[i]);
            assert(b@.reverse()[31 - i] == b@[i]);
        }
        assert(a =~= b);
    }
    assert forall|a: Option<[u8; 32]>, b: Option<[u8; 32]>| #[trigger] some_hex(a) == #[trigger] some_hex(
        b,
    ) implies a == b by {
        if let (Some(x), Some(y)) = (a, b) {
            lemma_lower_hex_injective(x@, y@);
            assert(x =~= y);
        }
    }
    assert forall|a: Option<[u8; 32]>, b: Option<[u8; 32]>| #[trigger] some_raw(a) == #[trigger] some_raw(
        b,
    ) implies a == b by {
        if let (Some(x), Some(y)) = (a, b) {
            assert(x =~= y);
        }
    }
}

/// No two channel balances share an envelope: the kind and every field can
/// be told from it.
pub proof fn lemma_lightning_balance_kept(a: LightningBalance, b: LightningBalance)
    requires
        lightning_balance_wire(a) == lightning_balance_wire(b),
    ensures
        a == b,
{
    lemma_hex_keeps_all();
    match (a, b) {
        (
            LightningBalance::ClaimableOnChannelClose { counterparty_node_id: x, .. },
            LightningBalance::ClaimableOnChannelClose { counterparty_node_id: y, .. },
        ) => {
            x.lemma_same(y);
        },
        (
            LightningBalance::ClaimableAwaitingConfirmations { counterparty_node_id: x, .. },
            LightningBalance::ClaimableAwaitingConfirmations { counterparty_node_id: y, .. },
        ) => {
            x.lemma_same(y);
        },
        (
            LightningBalance::ContentiousClaimable { counterparty_node_id: x, .. },
            LightningBalance::ContentiousClaimable { counterparty_node_id: y, .. },
        ) => {
            x.lemma_same(y);
        },
        (
            LightningBalance::MaybeTimeoutClaimableHTLC { counterparty_node_id: x, .. },
            LightningBalance::MaybeTimeoutClaimableHTLC { counterparty_node_id: y, .. },
        ) => {
            x.lemma_same(y);
        },
        (
            LightningBalance::MaybePreimageClaimableHTLC { counterparty_node_id: x, .. },
            LightningBalance::MaybePreimageClaimableHTLC { counterparty_node_id: y, .. },
        ) => {
            x.lemma_same(y);
        },
        (
            LightningBalance::CounterpartyRevokedOutputClaimable { counterparty_node_id: x, .. },
            LightningBalance::CounterpartyRevokedOutputClaimable { counterparty_node_id: y, .. },
        ) => {
            x.lemma_same(y);
        },
        _ => {},
    }
}

/// No two pending sweeps share an envelope.
pub proof fn lemma_pending_sweep_balance_kept(a: PendingSweepBalance, b: PendingSweepBalance)
    requires
        pending_sweep_balance_wire(a) is Some,
        pending_sweep_balance_wire(a) == pending_sweep_balance_wire(b),
    ensures
        a == b,
{
    lemma_hex_keeps_all();
}

/// No two kinds of payment share an envelope.
pub proof fn lemma_payment_kind_kept(a: PaymentKind, b: PaymentKind)
    requires
        payment_kind_wire(a) == payment_kind_wire(b),
    ensures
        a == b,
{
    lemma_hex_keeps_all();
}

/// The local id of a channel comes back from the sixteen bytes that were
/// sent for it.
pub proof fn lemma_user_channel_id_round_trip(id: u128, counterparty_node_id: Seq<char>)
    ensures
        closing_target(be_bytes(id as nat, 16), counterparty_node_id) == match public_key_parsed(
            counterparty_node_id,
        ) {
            Some(key) => Ok::<(u128, Seq<u8>), NodeError>((id, key)),
            None => Err::<(u128, Seq<u8>), NodeError>(NodeError::InvalidNodeId),
        },
{
    lemma_be_room_16(id);
    lemma_be_round_trip(id as nat, 16);
}

// ---- what is turned down, and how ----

/// A request to a path that no operation is served under is answered with
/// a client error whose body ends in the path, whatever the path and the
/// body; the node is not called.
pub proof fn lemma_unknown_path(network: Network, path: Seq<char>, body: Seq<u8>)
    requires
        operation_of(path) is None,
    ensures
        routed(network, path, body) == StepView::Respond(unknown_reply(path)),
        unknown_reply(path).status == STATUS_BAD_REQUEST,
        unknown_reply(path).body.skip(encode_utf8(UNKNOWN_REQUEST@).len() as int) == encode_utf8(
            path,
        ),
{
    assert(unknown_reply(path).body.skip(encode_utf8(UNKNOWN_REQUEST@).len() as int)
        =~= encode_utf8(path));
}

/// Whether a body is a request of an operation.
pub open spec fn readable(operation: Operation, body: Seq<u8>) -> bool {
    match operation {
        Operation::GetNodeId => decoded::<protos::GetNodeIdRequest>(body) is Some,
        Operation::GetNodeStatus => decoded::<protos::GetNodeStatusRequest>(body) is Some,
        Operation::OnchainReceive => decoded::<protos::OnchainReceiveRequest>(body) is Some,
        Operation::OnchainSend => decoded::<protos::OnchainSendRequest>(body) is Some,
        Operation::Bolt11Receive => decoded::<protos::Bolt11ReceiveRequest>(body) is Some,
        Operation::Bolt11Send => decoded::<protos::Bolt11SendRequest>(body) is Some,
        Operation::Bolt12Receive => decoded::<protos::Bolt12ReceiveRequest>(body) is Some,
        Operation::Bolt12Send => decoded::<protos::Bolt12SendRequest>(body) is Some,
        Operation::GetNodeBalances => decoded::<protos::GetBalancesRequest>(body) is Some,
        Operation::PaymentsHistory => decoded::<protos::PaymentsHistoryRequest>(body) is Some,
        Operation::GetPaymentDetails => decoded::<protos::GetPaymentDetailsRequest>(body) is Some,
        Operation::ListChannels => decoded::<protos::ListChannelsRequest>(body) is Some,
        Operation::OpenChannel => decoded::<protos::OpenChannelRequest>(body) is Some,
        Operation::CloseChannel => decoded::<protos::CloseChannelRequest>(body) is Some,
        Operation::ForceCloseChannel => decoded::<protos::ForceCloseChannelRequest>(body) is Some,
    }
}

/// A body that is no request of the operation it was sent to is answered
/// with a client error; the node is not called. A body that is one is never
/// answered so.
pub proof fn lemma_malformed_body(network: Network, path: Seq<char>, body: Seq<u8>)
    requires
        operation_of(path) is Some,
    ensures
        !readable(operation_of(path).unwrap(), body) ==> routed(network, path, body)
            == StepView::Respond(malformed_reply()),
        readable(operation_of(path).unwrap(), body) ==> routed(network, path, body)
            != StepView::Respond(malformed_reply()),
        malformed_reply().status == STATUS_BAD_REQUEST,
{
}

/// A failure of the node is answered with a server error whose body is the
/// node's diagnostic, whatever the operation.
pub proof fn lemma_node_failure_surfaces(operation: Operation, diagnostic: String)
    ensures
        completed(operation, NodeOutcome::Failed(diagnostic)) == (ReplyView {
            status: STATUS_INTERNAL_SERVER_ERROR,
            body: encode_utf8(diagnostic@),
        }),
{
}

/// A request to pay an address that is not valid on the node's network is
/// answered with a server error whose body is the diagnostic of an invalid
/// address; the node is not called, so nothing is sent.
pub proof fn lemma_invalid_address_refused(
    network: Network,
    body: Seq<u8>,
    request: OnchainSendRequestView,
)
    requires
        decoded::<protos::OnchainSendRequest>(body) == Some(request),
        !address_accepted(request.address, network),
    ensures
        handled(Operation::OnchainSend, network, body) == StepView::Respond(
            ReplyView {
                status: STATUS_INTERNAL_SERVER_ERROR,
                body: encode_utf8(node_error_text(NodeError::InvalidAddress)),
            },
        ),
{
}

} // verus!
