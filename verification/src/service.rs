//! The server side of the gateway. A request comes in as a path and a body.
//! `route` finds the operation by the path, decodes the body as the
//! operation's request, checks what the request names, and says what to do:
//! answer at once, or make one call on the node. `complete` turns what came
//! of that call into the answer. Decoding, the checks and the answers are
//! the same for every operation; only the messages differ.

use crate::call::{NodeCall, NodeCallView, NodeOutcome};
use crate::checks::{
    address_accepted, address_is_valid, invoice_accepted, invoice_is_valid, offer_accepted,
    offer_is_valid, socket_address_accepted, socket_address_is_valid,
};
use crate::codec::message::{decode, decoded, encode, encoded};
use crate::errors::{node_error_text, NodeError};
use crate::ids::{
    be_bytes, be_bytes_of, be_value, be_value_of, lower_hex, public_key_parsed, txid_text, NodeId,
};
use crate::node::Network;
use crate::operation::{operation_of, Operation};
use crate::protos;
use crate::protos::bolt11::{
    Bolt11ReceiveRequestView, Bolt11ReceiveResponseView, Bolt11SendRequestView,
    Bolt11SendResponseView,
};
use crate::protos::bolt12::{
    Bolt12ReceiveRequestView, Bolt12ReceiveResponseView, Bolt12SendRequestView,
    Bolt12SendResponseView,
};
use crate::protos::channels::{
    CloseChannelRequestView, CloseChannelResponseView, ForceCloseChannelRequestView,
    ForceCloseChannelResponseView, OpenChannelRequestView, OpenChannelResponseView,
};
use crate::protos::onchain::{
    OnchainReceiveResponseView, OnchainSendRequestView, OnchainSendResponseView,
};
use crate::protos::payment_id::PaymentIdView;
use crate::protos::payments::GetPaymentDetailsRequestView;
use crate::protos::status::GetNodeIdResponseView;
use crate::text::{bytes_of, joined};
use crate::translate::{
    balances_wire, channels_wire, node_status_wire, payment_details_wire, payments_wire,
    to_balances_proto, to_channels_proto, to_node_status_proto, to_payment_details_proto,
    to_payments_history_proto,
};
use vstd::array::array_as_slice;
use vstd::prelude::*;
use vstd::slice::slice_to_vec;
use vstd::utf8::encode_utf8;

verus! {

/// The status of an answer that carries a response.
pub const STATUS_OK: u16 = 200;

/// The status of an answer to a request that the gateway could not read or
/// place.
pub const STATUS_BAD_REQUEST: u16 = 400;

/// The status of an answer to a request that the node turned down.
pub const STATUS_INTERNAL_SERVER_ERROR: u16 = 500;

/// The body of the answer to a path that no operation is served under,
/// before the path itself.
pub const UNKNOWN_REQUEST: &'static str = "Unknown request: ";

/// The body of the answer to a body that is no request of the operation.
pub const ERROR_PARSING_REQUEST: &'static str = "Error parsing request";

/// The body of the answer where a pending sweep cannot be reported because
/// it is not yet broadcast and belongs to no channel.
pub const SWEEP_WITHOUT_CHANNEL: &'static str =
    "A pending sweep that is not yet broadcast has no channel.";

/// The body of the answer where what came of the call is no outcome of the
/// operation.
pub const UNEXPECTED_OUTCOME: &'static str = "The node's answer does not fit the request.";

/// An answer to a request: a status and a body.
#[derive(Clone, Debug, PartialEq, Eq)]
pub struct Reply {
    pub status: u16,
    pub body: Vec<u8>,
}

/// What a `Reply` holds, as specifications see it.
pub struct ReplyView {
    pub status: u16,
    pub body: Seq<u8>,
}

impl DeepView for Reply {
    type V = ReplyView;

    open spec fn deep_view(&self) -> ReplyView {
        ReplyView { status: self.status, body: self.body@ }
    }
}

impl View for Reply {
    type V = ReplyView;

    open spec fn view(&self) -> ReplyView {
        self.deep_view()
    }
}

/// What to do with a request.
#[derive(Clone, Debug, PartialEq, Eq)]
pub enum Step {
    /// Answer at once; the node is not called.
    Respond(Reply),
    /// Make this call on the node and hand what comes of it to `complete`.
    Invoke { operation: Operation, call: NodeCall },
}

/// What a `Step` holds, as specifications see it.
pub enum StepView {
    Respond(ReplyView),
    Invoke { operation: Operation, call: NodeCallView },
}

impl DeepView for Step {
    type V = StepView;

    open spec fn deep_view(&self) -> StepView {
        match *self {
            Step::Respond(reply) => StepView::Respond(reply.deep_view()),
            Step::Invoke { operation, call } => StepView::Invoke {
                operation,
                call: call.deep_view(),
            },
        }
    }
}

impl View for Step {
    type V = StepView;

    open spec fn view(&self) -> StepView {
        self.deep_view()
    }
}

// ---- the answers ----

/// The answer to a path that no operation is served under: a client error
/// whose body names the path.
pub open spec fn unknown_reply(path: Seq<char>) -> ReplyView {
    ReplyView {
        status: STATUS_BAD_REQUEST,
        body: encode_utf8(UNKNOWN_REQUEST@) + encode_utf8(path),
    }
}

/// The answer to a body that is no request of the operation: a client
/// error with a fixed body.
pub open spec fn malformed_reply() -> ReplyView {
    ReplyView { status: STATUS_BAD_REQUEST, body: encode_utf8(ERROR_PARSING_REQUEST@) }
}

/// The answer to a request that was turned down: a server error whose body
/// is the diagnostic.
pub open spec fn failure_reply(diagnostic: Seq<char>) -> ReplyView {
    ReplyView { status: STATUS_INTERNAL_SERVER_ERROR, body: encode_utf8(diagnostic) }
}

/// The answer that carries a response.
pub open spec fn success_reply(body: Seq<u8>) -> ReplyView {
    ReplyView { status: STATUS_OK, body }
}

fn unknown(path: &str) -> (r: Reply)
    ensures
        r.deep_view() == unknown_reply(path@),
{
    Reply { status: STATUS_BAD_REQUEST, body: joined(bytes_of(UNKNOWN_REQUEST), path.as_bytes()) }
}

fn malformed() -> (r: Reply)
    ensures
        r.deep_view() == malformed_reply(),
{
    Reply { status: STATUS_BAD_REQUEST, body: bytes_of(ERROR_PARSING_REQUEST) }
}

fn failure(diagnostic: &str) -> (r: Reply)
    ensures
        r.deep_view() == failure_reply(diagnostic@),
{
    Reply { status: STATUS_INTERNAL_SERVER_ERROR, body: bytes_of(diagnostic) }
}

fn success(body: Vec<u8>) -> (r: Reply)
    ensures
        r.deep_view() == success_reply(body@),
{
    Reply { status: STATUS_OK, body }
}

// ---- from a request to a call ----

/// Whether a handler gave what its specification says.
pub open spec fn agrees(found: Result<NodeCall, NodeError>, wanted: Result<NodeCallView, NodeError>) -> bool {
    match wanted {
        Ok(call) => found matches Ok(c) && c.deep_view() == call,
        Err(error) => found == Err::<NodeCall, NodeError>(error),
    }
}

/// Paying on chain: the address must be valid on the node's network; with
/// an amount that much is sent, without one the whole balance.
pub open spec fn onchain_send_call(network: Network, request: OnchainSendRequestView) -> Result<
    NodeCallView,
    NodeError,
> {
    if !address_accepted(request.address, network) {
        Err(NodeError::InvalidAddress)
    } else {
        match request.amount_sats {
            Some(amount_sats) => Ok(
                NodeCallView::SendToAddress { address: request.address, amount_sats },
            ),
            None => Ok(NodeCallView::SendAllToAddress { address: request.address }),
        }
    }
}

/// Making an invoice: for the amount where one is given, for any amount
/// where none is.
pub open spec fn bolt11_receive_call(request: Bolt11ReceiveRequestView) -> NodeCallView {
    match request.amount_msat {
        Some(amount_msat) => NodeCallView::Bolt11Receive {
            amount_msat,
            description: request.description,
            expiry_secs: request.expiry_secs,
        },
        None => NodeCallView::Bolt11ReceiveVariableAmount {
            description: request.description,
            expiry_secs: request.expiry_secs,
        },
    }
}

/// Paying an invoice: the text must be an invoice; with an amount that much
/// is paid, without one what the invoice names.
pub open spec fn bolt11_send_call(request: Bolt11SendRequestView) -> Result<
    NodeCallView,
    NodeError,
> {
    if !invoice_accepted(request.invoice) {
        Err(NodeError::InvalidInvoice)
    } else {
        match request.amount_msat {
            Some(amount_msat) => Ok(
                NodeCallView::Bolt11SendUsingAmount { invoice: request.invoice, amount_msat },
            ),
            None => Ok(NodeCallView::Bolt11Send { invoice: request.invoice }),
        }
    }
}

/// Making an offer: for the amount where one is given, for any amount where
/// none is.
pub open spec fn bolt12_receive_call(request: Bolt12ReceiveRequestView) -> NodeCallView {
    match request.amount_msat {
        Some(amount_msat) => NodeCallView::Bolt12Receive {
            amount_msat,
            description: request.description,
        },
        None => NodeCallView::Bolt12ReceiveVariableAmount { description: request.description },
    }
}

/// Paying an offer: the text must be an offer; with an amount that much is
/// paid, without one what the offer names. An unreadable offer is reported
/// as an invalid invoice.
pub open spec fn bolt12_send_call(request: Bolt12SendRequestView) -> Result<
    NodeCallView,
    NodeError,
> {
    if !offer_accepted(request.offer) {
        Err(NodeError::InvalidInvoice)
    } else {
        match request.amount_msat {
            Some(amount_msat) => Ok(
                NodeCallView::Bolt12SendUsingAmount {
                    offer: request.offer,
                    payer_note: request.payer_note,
                    amount_msat,
                },
            ),
            None => Ok(
                NodeCallView::Bolt12Send { offer: request.offer, payer_note: request.payer_note },
            ),
        }
    }
}

/// Looking a payment up: the id is the 32 bytes of the text, and a text of
/// any other length is no id.
pub open spec fn payment_details_call(request: GetPaymentDetailsRequestView) -> Result<
    NodeCallView,
    NodeError,
> {
    let id = encode_utf8(request.payment_id);
    if id.len() != 32 {
        Err(NodeError::InvalidPaymentId)
    } else {
        Ok(NodeCallView::Payment { id })
    }
}

/// Opening a channel: the peer's key and then its address must be readable.
pub open spec fn open_channel_call(request: OpenChannelRequestView) -> Result<
    NodeCallView,
    NodeError,
> {
    match public_key_parsed(request.node_id) {
        None => Err(NodeError::InvalidNodeId),
        Some(node_id) => if !socket_address_accepted(request.address) {
            Err(NodeError::InvalidSocketAddress)
        } else {
            Ok(
                NodeCallView::ConnectOpenChannel {
                    node_id,
                    address: request.address,
                    channel_amount_sats: request.channel_amount_sats,
                    push_to_counterparty_msat: request.push_to_counterparty_msat,
                    announce_channel: request.announce_channel,
                },
            )
        },
    }
}

/// The channel and the peer that a request to close names: the channel's
/// local id is sixteen bytes, most significant first, and the peer's key
/// must be readable.
pub open spec fn closing_target(user_channel_id: Seq<u8>, counterparty_node_id: Seq<char>) -> Result<
    (u128, Seq<u8>),
    NodeError,
> {
    if user_channel_id.len() != 16 {
        Err(NodeError::InvalidChannelId)
    } else {
        match public_key_parsed(counterparty_node_id) {
            None => Err(NodeError::InvalidNodeId),
            Some(node_id) => Ok((be_value(user_channel_id) as u128, node_id)),
        }
    }
}

/// Closing a channel in agreement with the peer.
pub open spec fn close_channel_call(request: CloseChannelRequestView) -> Result<
    NodeCallView,
    NodeError,
> {
    match closing_target(request.user_channel_id, request.counterparty_node_id) {
        Ok((user_channel_id, counterparty_node_id)) => Ok(
            NodeCallView::CloseChannel { user_channel_id, counterparty_node_id },
        ),
        Err(error) => Err(error),
    }
}

/// Closing a channel without the peer.
pub open spec fn force_close_channel_call(request: ForceCloseChannelRequestView) -> Result<
    NodeCallView,
    NodeError,
> {
    match closing_target(request.user_channel_id, request.counterparty_node_id) {
        Ok((user_channel_id, counterparty_node_id)) => Ok(
            NodeCallView::ForceCloseChannel { user_channel_id, counterparty_node_id },
        ),
        Err(error) => Err(error),
    }
}

/// The node's id takes no argument.
pub fn handle_get_node_id_request(request: protos::GetNodeIdRequest) -> (r: Result<
    NodeCall,
    NodeError,
>)
    ensures
        agrees(r, Ok(NodeCallView::NodeId)),
{
    Ok(NodeCall::NodeId)
}

/// The node's status takes no argument.
pub fn handle_get_node_status_request(request: protos::GetNodeStatusRequest) -> (r: Result<
    NodeCall,
    NodeError,
>)
    ensures
        agrees(r, Ok(NodeCallView::Status)),
{
    Ok(NodeCall::Status)
}

/// The history of payments takes no argument.
pub fn handle_get_payment_history_request(request: protos::PaymentsHistoryRequest) -> (r: Result<
    NodeCall,
    NodeError,
>)
    ensures
        agrees(r, Ok(NodeCallView::ListPayments)),
{
    Ok(NodeCall::ListPayments)
}

/// A new address takes no argument.
pub fn handle_onchain_receive(request: protos::OnchainReceiveRequest) -> (r: Result<
    NodeCall,
    NodeError,
>)
    ensures
        agrees(r, Ok(NodeCallView::NewAddress)),
{
    Ok(NodeCall::NewAddress)
}

/// Checks the address of a payment on chain and picks the call.
pub fn handle_onchain_send(network: Network, request: protos::OnchainSendRequest) -> (r: Result<
    NodeCall,
    NodeError,
>)
    ensures
        agrees(r, onchain_send_call(network, request.deep_view())),
{
    if !address_is_valid(request.address.as_str(), network) {
        return Err(NodeError::InvalidAddress);
    }
    match request.amount_sats {
        Some(amount_sats) => Ok(NodeCall::SendToAddress { address: request.address, amount_sats }),
        None => Ok(NodeCall::SendAllToAddress { address: request.address }),
    }
}

/// The balances take no argument.
pub fn handle_get_balances_request(request: protos::GetBalancesRequest) -> (r: Result<
    NodeCall,
    NodeError,
>)
    ensures
        agrees(r, Ok(NodeCallView::ListBalances)),
{
    Ok(NodeCall::ListBalances)
}

/// Picks the call that makes the invoice.
pub fn handle_bolt11_receive_request(request: protos::Bolt11ReceiveRequest) -> (r: Result<
    NodeCall,
    NodeError,
>)
    ensures
        agrees(r, Ok(bolt11_receive_call(request.deep_view()))),
{
    match request.amount_msat {
        Some(amount_msat) => Ok(
            NodeCall::Bolt11Receive {
                amount_msat,
                description: request.description,
                expiry_secs: request.expiry_secs,
            },
        ),
        None => Ok(
            NodeCall::Bolt11ReceiveVariableAmount {
                description: request.description,
                expiry_secs: request.expiry_secs,
            },
        ),
    }
}

/// Checks the invoice to pay and picks the call.
pub fn handle_bolt11_send_request(request: protos::Bolt11SendRequest) -> (r: Result<
    NodeCall,
    NodeError,
>)
    ensures
        agrees(r, bolt11_send_call(request.deep_view())),
{
    if !invoice_is_valid(request.invoice.as_str()) {
        return Err(NodeError::InvalidInvoice);
    }
    match request.amount_msat {
        Some(amount_msat) => Ok(
            NodeCall::Bolt11SendUsingAmount { invoice: request.invoice, amount_msat },
        ),
        None => Ok(NodeCall::Bolt11Send { invoice: request.invoice }),
    }
}

/// Picks the call that makes the offer.
pub fn handle_bolt12_receive_request(request: protos::Bolt12ReceiveRequest) -> (r: Result<
    NodeCall,
    NodeError,
>)
    ensures
        agrees(r, Ok(bolt12_receive_call(request.deep_view()))),
{
    match request.amount_msat {
        Some(amount_msat) => Ok(
            NodeCall::Bolt12Receive { amount_msat, description: request.description },
        ),
        None => Ok(NodeCall::Bolt12ReceiveVariableAmount { description: request.description }),
    }
}

/// Checks the offer to pay and picks the call.
pub fn handle_bolt12_send_request(request: protos::Bolt12SendRequest) -> (r: Result<
    NodeCall,
    NodeError,
>)
    ensures
        agrees(r, bolt12_send_call(request.deep_view())),
{
    if !offer_is_valid(request.offer.as_str()) {
        return Err(NodeError::InvalidInvoice);
    }
    match request.amount_msat {
        Some(amount_msat) => Ok(
            NodeCall::Bolt12SendUsingAmount {
                offer: request.offer,
                payer_note: request.payer_note,
                amount_msat,
            },
        ),
        None => Ok(NodeCall::Bolt12Send { offer: request.offer, payer_note: request.payer_note }),
    }
}

/// The list of channels takes no argument.
pub fn handle_list_channels_request(request: protos::ListChannelsRequest) -> (r: Result<
    NodeCall,
    NodeError,
>)
    ensures
        agrees(r, Ok(NodeCallView::ListChannels)),
{
    Ok(NodeCall::ListChannels)
}

/// Checks the length of the payment id and makes the id.
pub fn handle_get_payment_details_request(request: protos::GetPaymentDetailsRequest) -> (r: Result<
    NodeCall,
    NodeError,
>)
    ensures
        agrees(r, payment_details_call(request.deep_view())),
{
    let payment_id = request.payment_id.as_str().as_bytes();
    if payment_id.len() != 32 {
        return Err(NodeError::InvalidPaymentId);
    }
    let mut id = [0u8;32];
    let mut i: usize = 0;
    while i < 32
        invariant
            i <= 32,
            payment_id@.len() == 32,
            id@.len() == 32,
            id@.take(i as int) == payment_id@.take(i as int),
        decreases 32 - i,
    {
        id[i] = payment_id[i];
        assert(id@.take(i + 1) =~= payment_id@.take(i + 1));
        i = i + 1;
    }
    assert(id@.take(32) =~= id@);
    assert(payment_id@.take(32) =~= payment_id@);
    Ok(NodeCall::Payment { id })
}

/// Checks the peer's key and address.
pub fn handle_open_channel(request: protos::OpenChannelRequest) -> (r: Result<NodeCall, NodeError>)
    ensures
        agrees(r, open_channel_call(request.deep_view())),
{
    let node_id = match NodeId::parse(request.node_id.as_str()) {
        Some(node_id) => node_id,
        None => {
            return Err(NodeError::InvalidNodeId);
        },
    };
    if !socket_address_is_valid(request.address.as_str()) {
        return Err(NodeError::InvalidSocketAddress);
    }
    Ok(
        NodeCall::ConnectOpenChannel {
            node_id,
            address: request.address,
            channel_amount_sats: request.channel_amount_sats,
            push_to_counterparty_msat: request.push_to_counterparty_msat,
            announce_channel: request.announce_channel,
        },
    )
}

fn closing(user_channel_id: &Vec<u8>, counterparty_node_id: &str) -> (r: Result<
    (u128, NodeId),
    NodeError,
>)
    ensures
        match closing_target(user_channel_id.deep_view(), counterparty_node_id@) {
            Ok((id, key)) => r matches Ok((found_id, found_key)) && found_id == id && found_key@
                == key,
            Err(error) => r == Err::<(u128, NodeId), NodeError>(error),
        },
{
    assert(user_channel_id.deep_view() =~= user_channel_id@);
    if user_channel_id.len() != 16 {
        return Err(NodeError::InvalidChannelId);
    }
    let mut be = [0u8;16];
    let mut i: usize = 0;
    while i < 16
        invariant
            i <= 16,
            user_channel_id@.len() == 16,
            be@.len() == 16,
            be@.take(i as int) == user_channel_id@.take(i as int),
        decreases 16 - i,
    {
        be[i] = user_channel_id[i];
        assert(be@.take(i + 1) =~= user_channel_id@.take(i + 1));
        i = i + 1;
    }
    assert(be@.take(16) =~= be@);
    assert(user_channel_id@.take(16) =~= user_channel_id@);
    let id = be_value_of(be);
    match NodeId::parse(counterparty_node_id) {
        Some(key) => Ok((id, key)),
        None => Err(NodeError::InvalidNodeId),
    }
}

/// Checks the channel's id and the peer's key.
pub fn handle_close_channel(request: protos::CloseChannelRequest) -> (r: Result<
    NodeCall,
    NodeError,
>)
    ensures
        agrees(r, close_channel_call(request.deep_view())),
{
    match closing(&request.user_channel_id, request.counterparty_node_id.as_str()) {
        Ok((user_channel_id, counterparty_node_id)) => Ok(
            NodeCall::CloseChannel { user_channel_id, counterparty_node_id },
        ),
        Err(error) => Err(error),
    }
}

/// Checks the channel's id and the peer's key.
pub fn handle_force_close_channel(request: protos::ForceCloseChannelRequest) -> (r: Result<
    NodeCall,
    NodeError,
>)
    ensures
        agrees(r, force_close_channel_call(request.deep_view())),
{
    match closing(&request.user_channel_id, request.counterparty_node_id.as_str()) {
        Ok((user_channel_id, counterparty_node_id)) => Ok(
            NodeCall::ForceCloseChannel { user_channel_id, counterparty_node_id },
        ),
        Err(error) => Err(error),
    }
}

// ---- dispatch ----

/// What a handler's verdict means for the request: the call where there is
/// one, and otherwise a server error with the diagnostic of the error.
pub open spec fn planned(operation: Operation, verdict: Result<NodeCallView, NodeError>) -> StepView {
    match verdict {
        Ok(call) => StepView::Invoke { operation, call },
        Err(error) => StepView::Respond(failure_reply(node_error_text(error))),
    }
}

/// What to do with a body sent to an operation: where the body is no
/// request of the operation, answer so; otherwise what the handler says.
pub open spec fn handled(operation: Operation, network: Network, body: Seq<u8>) -> StepView {
    let bad = StepView::Respond(malformed_reply());
    match operation {
        Operation::GetNodeId => match decoded::<protos::GetNodeIdRequest>(body) {
            Some(_) => planned(operation, Ok(NodeCallView::NodeId)),
            None => bad,
        },
        Operation::GetNodeStatus => match decoded::<protos::GetNodeStatusRequest>(body) {
            Some(_) => planned(operation, Ok(NodeCallView::Status)),
            None => bad,
        },
        Operation::OnchainReceive => match decoded::<protos::OnchainReceiveRequest>(body) {
            Some(_) => planned(operation, Ok(NodeCallView::NewAddress)),
            None => bad,
        },
        Operation::OnchainSend => match decoded::<protos::OnchainSendRequest>(body) {
            Some(request) => planned(operation, onchain_send_call(network, request)),
            None => bad,
        },
        Operation::Bolt11Receive => match decoded::<protos::Bolt11ReceiveRequest>(body) {
            Some(request) => planned(operation, Ok(bolt11_receive_call(request))),
            None => bad,
        },
        Operation::Bolt11Send => match decoded::<protos::Bolt11SendRequest>(body) {
            Some(request) => planned(operation, bolt11_send_call(request)),
            None => bad,
        },
        Operation::Bolt12Receive => match decoded::<protos::Bolt12ReceiveRequest>(body) {
            Some(request) => planned(operation, Ok(bolt12_receive_call(request))),
            None => bad,
        },
        Operation::Bolt12Send => match decoded::<protos::Bolt12SendRequest>(body) {
            Some(request) => planned(operation, bolt12_send_call(request)),
            None => bad,
        },
        Operation::GetNodeBalances => match decoded::<protos::GetBalancesRequest>(body) {
            Some(_) => planned(operation, Ok(NodeCallView::ListBalances)),
            None => bad,
        },
        Operation::PaymentsHistory => match decoded::<protos::PaymentsHistoryRequest>(body) {
            Some(_) => planned(operation, Ok(NodeCallView::ListPayments)),
            None => bad,
        },
        Operation::GetPaymentDetails => match decoded::<protos::GetPaymentDetailsRequest>(body) {
            Some(request) => planned(operation, payment_details_call(request)),
            None => bad,
        },
        Operation::ListChannels => match decoded::<protos::ListChannelsRequest>(body) {
            Some(_) => planned(operation, Ok(NodeCallView::ListChannels)),
            None => bad,
        },
        Operation::OpenChannel => match decoded::<protos::OpenChannelRequest>(body) {
            Some(request) => planned(operation, open_channel_call(request)),
            None => bad,
        },
        Operation::CloseChannel => match decoded::<protos::CloseChannelRequest>(body) {
            Some(request) => planned(operation, close_channel_call(request)),
            None => bad,
        },
        Operation::ForceCloseChannel => match decoded::<protos::ForceCloseChannelRequest>(body) {
            Some(request) => planned(operation, force_close_channel_call(request)),
            None => bad,
        },
    }
}

/// What to do with a request: where no operation is served under the path,
/// answer so; otherwise what the operation says of the body.
pub open spec fn routed(network: Network, path: Seq<char>, body: Seq<u8>) -> StepView {
    match operation_of(path) {
        Some(operation) => handled(operation, network, body),
        None => StepView::Respond(unknown_reply(path)),
    }
}

fn plan(operation: Operation, verdict: Result<NodeCall, NodeError>) -> (step: Step)
    ensures
        forall|wanted: Result<NodeCallView, NodeError>|
            agrees(verdict, wanted) ==> step.deep_view() == planned(operation, wanted),
{
    match verdict {
        Ok(call) => Step::Invoke { operation, call },
        Err(error) => {
            let text = error.message();
            Step::Respond(failure(text.as_str()))
        },
    }
}

/// Decodes the body as the request of `operation` and asks its handler.
pub fn handle_request(operation: Operation, network: Network, body: &[u8]) -> (step: Step)
    ensures
        step.deep_view() == handled(operation, network, body@),
{
    match operation {
        Operation::GetNodeId => match decode::<protos::GetNodeIdRequest>(body) {
            Some(request) => plan(operation, handle_get_node_id_request(request)),
            None => Step::Respond(malformed()),
        },
        Operation::GetNodeStatus => match decode::<protos::GetNodeStatusRequest>(body) {
            Some(request) => plan(operation, handle_get_node_status_request(request)),
            None => Step::Respond(malformed()),
        },
        Operation::OnchainReceive => match decode::<protos::OnchainReceiveRequest>(body) {
            Some(request) => plan(operation, handle_onchain_receive(request)),
            None => Step::Respond(malformed()),
        },
        Operation::OnchainSend => match decode::<protos::OnchainSendRequest>(body) {
            Some(request) => plan(operation, handle_onchain_send(network, request)),
            None => Step::Respond(malformed()),
        },
        Operation::Bolt11Receive => match decode::<protos::Bolt11ReceiveRequest>(body) {
            Some(request) => plan(operation, handle_bolt11_receive_request(request)),
            None => Step::Respond(malformed()),
        },
        Operation::Bolt11Send => match decode::<protos::Bolt11SendRequest>(body) {
            Some(request) => plan(operation, handle_bolt11_send_request(request)),
            None => Step::Respond(malformed()),
        },
        Operation::Bolt12Receive => match decode::<protos::Bolt12ReceiveRequest>(body) {
            Some(request) => plan(operation, handle_bolt12_receive_request(request)),
            None => Step::Respond(malformed()),
        },
        Operation::Bolt12Send => match decode::<protos::Bolt12SendRequest>(body) {
            Some(request) => plan(operation, handle_bolt12_send_request(request)),
            None => Step::Respond(malformed()),
        },
        Operation::GetNodeBalances => match decode::<protos::GetBalancesRequest>(body) {
            Some(request) => plan(operation, handle_get_balances_request(request)),
            None => Step::Respond(malformed()),
        },
        Operation::PaymentsHistory => match decode::<protos::PaymentsHistoryRequest>(body) {
            Some(request) => plan(operation, handle_get_payment_history_request(request)),
            None => Step::Respond(malformed()),
        },
        Operation::GetPaymentDetails => match decode::<protos::GetPaymentDetailsRequest>(body) {
            Some(request) => plan(operation, handle_get_payment_details_request(request)),
            None => Step::Respond(malformed()),
        },
        Operation::ListChannels => match decode::<protos::ListChannelsRequest>(body) {
            Some(request) => plan(operation, handle_list_channels_request(request)),
            None => Step::Respond(malformed()),
        },
        Operation::OpenChannel => match decode::<protos::OpenChannelRequest>(body) {
            Some(request) => plan(operation, handle_open_channel(request)),
            None => Step::Respond(malformed()),
        },
        Operation::CloseChannel => match decode::<protos::CloseChannelRequest>(body) {
            Some(request) => plan(operation, handle_close_channel(request)),
            None => Step::Respond(malformed()),
        },
        Operation::ForceCloseChannel => match decode::<protos::ForceCloseChannelRequest>(body) {
            Some(request) => plan(operation, handle_force_close_channel(request)),
            None => Step::Respond(malformed()),
        },
    }
}

/// Says what to do with a request that came in under `path` with `body`,
/// on a node that works on `network`.
pub fn route(network: Network, path: &str, body: &[u8]) -> (step: Step)
    ensures
        step.deep_view() == routed(network, path@, body@),
{
    match Operation::lookup(path) {
        Some(operation) => handle_request(operation, network, body),
        None => Step::Respond(unknown(path)),
    }
}

// ---- from an outcome to an answer ----

/// The answer to give for what came of the call of an operation.
///
/// A failure of the node is a server error with the node's diagnostic as
/// the body. An outcome of the operation's own kind is translated and sent
/// with a success status; a payment that the node does not know is an
/// invalid payment id, and balances with a sweep that cannot be reported
/// are a server error. Any other outcome is none of this operation's and is
/// a server error too.
pub open spec fn completed(operation: Operation, outcome: NodeOutcome) -> ReplyView {
    match outcome {
        NodeOutcome::Failed(diagnostic) => failure_reply(diagnostic@),
        _ => match (operation, outcome) {
            (Operation::GetNodeId, NodeOutcome::NodeId(node_id)) => success_reply(
                encoded::<protos::GetNodeIdResponse>(
                    GetNodeIdResponseView { node_id: lower_hex(node_id@) },
                ),
            ),
            (Operation::GetNodeStatus, NodeOutcome::Status { node_id, status }) => success_reply(
                encoded::<protos::GetNodeStatusResponse>(node_status_wire(node_id, status)),
            ),
            (Operation::OnchainReceive, NodeOutcome::Address(address)) => success_reply(
                encoded::<protos::OnchainReceiveResponse>(
                    OnchainReceiveResponseView { address: address@ },
                ),
            ),
            (Operation::OnchainSend, NodeOutcome::Txid(txid)) => success_reply(
                encoded::<protos::OnchainSendResponse>(
                    OnchainSendResponseView { txid: lower_hex(txid@.reverse()) },
                ),
            ),
            (Operation::Bolt11Receive, NodeOutcome::Invoice(invoice)) => success_reply(
                encoded::<protos::Bolt11ReceiveResponse>(
                    Bolt11ReceiveResponseView { invoice: invoice@ },
                ),
            ),
            (Operation::Bolt11Send, NodeOutcome::PaymentId(id)) => success_reply(
                encoded::<protos::Bolt11SendResponse>(
                    Bolt11SendResponseView { payment_id: Some(PaymentIdView { data: id@ }) },
                ),
            ),
            (Operation::Bolt12Receive, NodeOutcome::Offer(offer)) => success_reply(
                encoded::<protos::Bolt12ReceiveResponse>(Bolt12ReceiveResponseView { offer: offer@ }),
            ),
            (Operation::Bolt12Send, NodeOutcome::PaymentId(id)) => success_reply(
                encoded::<protos::Bolt12SendResponse>(
                    Bolt12SendResponseView { payment_id: Some(PaymentIdView { data: id@ }) },
                ),
            ),
            (Operation::GetNodeBalances, NodeOutcome::Balances(details)) => match balances_wire(
                details,
            ) {
                Some(response) => success_reply(encoded::<protos::GetBalancesResponse>(response)),
                None => failure_reply(SWEEP_WITHOUT_CHANNEL@),
            },
            (Operation::PaymentsHistory, NodeOutcome::Payments(payments)) => success_reply(
                encoded::<protos::PaymentsHistoryResponse>(payments_wire(payments@)),
            ),
            (Operation::GetPaymentDetails, NodeOutcome::Payment(found)) => match found {
                Some(payment) => success_reply(
                    encoded::<protos::PaymentDetails>(payment_details_wire(payment)),
                ),
                None => failure_reply(node_error_text(NodeError::InvalidPaymentId)),
            },
            (Operation::ListChannels, NodeOutcome::Channels(channels)) => success_reply(
                encoded::<protos::ListChannelsResponse>(channels_wire(channels@)),
            ),
            (Operation::OpenChannel, NodeOutcome::UserChannelId(id)) => success_reply(
                encoded::<protos::OpenChannelResponse>(
                    OpenChannelResponseView { user_channel_id: be_bytes(id as nat, 16) },
                ),
            ),
            (Operation::CloseChannel, NodeOutcome::ChannelClosed) => success_reply(
                encoded::<protos::CloseChannelResponse>(CloseChannelResponseView {  }),
            ),
            (Operation::ForceCloseChannel, NodeOutcome::ChannelClosed) => success_reply(
                encoded::<protos::ForceCloseChannelResponse>(ForceCloseChannelResponseView {  }),
            ),
            _ => failure_reply(UNEXPECTED_OUTCOME@),
        },
    }
}

fn raw32(bytes: &[u8; 32]) -> (r: Vec<u8>)
    ensures
        r.deep_view() == bytes@,
{
    let r = slice_to_vec(array_as_slice(bytes));
    assert(r.deep_view() =~= bytes@);
    r
}

/// Turns what came of the call of `operation` into the answer.
pub fn complete(operation: Operation, outcome: NodeOutcome) -> (reply: Reply)
    ensures
        reply.deep_view() == completed(operation, outcome),
{
    match (operation, outcome) {
        (_, NodeOutcome::Failed(diagnostic)) => failure(diagnostic.as_str()),
        (Operation::GetNodeId, NodeOutcome::NodeId(node_id)) => success(
            encode(&protos::GetNodeIdResponse { node_id: node_id.text() }),
        ),
        (Operation::GetNodeStatus, NodeOutcome::Status { node_id, status }) => success(
            encode(&to_node_status_proto(&node_id, &status)),
        ),
        (Operation::OnchainReceive, NodeOutcome::Address(address)) => success(
            encode(&protos::OnchainReceiveResponse { address }),
        ),
        (Operation::OnchainSend, NodeOutcome::Txid(txid)) => success(
            encode(&protos::OnchainSendResponse { txid: txid_text(&txid) }),
        ),
        (Operation::Bolt11Receive, NodeOutcome::Invoice(invoice)) => success(
            encode(&protos::Bolt11ReceiveResponse { invoice }),
        ),
        (Operation::Bolt11Send, NodeOutcome::PaymentId(id)) => success(
            encode(
                &protos::Bolt11SendResponse {
                    payment_id: Some(protos::PaymentId { data: raw32(&id) }),
                },
            ),
        ),
        (Operation::Bolt12Receive, NodeOutcome::Offer(offer)) => success(
            encode(&protos::Bolt12ReceiveResponse { offer }),
        ),
        (Operation::Bolt12Send, NodeOutcome::PaymentId(id)) => success(
            encode(
                &protos::Bolt12SendResponse {
                    payment_id: Some(protos::PaymentId { data: raw32(&id) }),
                },
            ),
        ),
        (Operation::GetNodeBalances, NodeOutcome::Balances(details)) => match to_balances_proto(
            &details,
        ) {
            Some(response) => success(encode(&response)),
            None => failure(SWEEP_WITHOUT_CHANNEL),
        },
        (Operation::PaymentsHistory, NodeOutcome::Payments(payments)) => success(
            encode(&to_payments_history_proto(&payments)),
        ),
        (Operation::GetPaymentDetails, NodeOutcome::Payment(found)) => match found {
            Some(payment) => success(encode(&to_payment_details_proto(&payment))),
            None => {
                let text = NodeError::InvalidPaymentId.message();
                failure(text.as_str())
            },
        },
        (Operation::ListChannels, NodeOutcome::Channels(channels)) => success(
            encode(&to_channels_proto(&channels)),
        ),
        (Operation::OpenChannel, NodeOutcome::UserChannelId(id)) => {
            let be = be_bytes_of(id);
            let user_channel_id = slice_to_vec(array_as_slice(&be));
            assert(user_channel_id.deep_view() =~= be@);
            success(encode(&protos::OpenChannelResponse { user_channel_id }))
        },
        (Operation::CloseChannel, NodeOutcome::ChannelClosed) => success(
            encode(&protos::CloseChannelResponse {  }),
        ),
        (Operation::ForceCloseChannel, NodeOutcome::ChannelClosed) => success(
            encode(&protos::ForceCloseChannelResponse {  }),
        ),
        _ => failure(UNEXPECTED_OUTCOME),
    }
}

} // verus!
