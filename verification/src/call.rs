//! What the gateway asks of the node, and what the node answers.

use crate::ids::NodeId;
use crate::node::{BalanceDetails, ChannelDetails, NodeStatus, PaymentDetails};
use vstd::prelude::*;

verus! {

/// One call on the node, with its arguments checked and ready.
#[derive(Clone, Debug, PartialEq, Eq)]
pub enum NodeCall {
    /// The node's public key.
    NodeId,
    /// The node's public key and status.
    Status,
    /// A fresh on-chain address.
    NewAddress,
    /// Pay an amount to an address that is valid on the node's network.
    SendToAddress { address: String, amount_sats: u64 },
    /// Pay the whole on-chain balance to such an address.
    SendAllToAddress { address: String },
    /// An invoice for an amount.
    Bolt11Receive { amount_msat: u64, description: String, expiry_secs: u32 },
    /// An invoice that takes any amount.
    Bolt11ReceiveVariableAmount { description: String, expiry_secs: u32 },
    /// Pay an invoice.
    Bolt11Send { invoice: String },
    /// Pay an invoice with an amount of the payer's choice.
    Bolt11SendUsingAmount { invoice: String, amount_msat: u64 },
    /// An offer for an amount.
    Bolt12Receive { amount_msat: u64, description: String },
    /// An offer that takes any amount.
    Bolt12ReceiveVariableAmount { description: String },
    /// Pay an offer.
    Bolt12Send { offer: String, payer_note: Option<String> },
    /// Pay an offer with an amount of the payer's choice.
    Bolt12SendUsingAmount { offer: String, payer_note: Option<String>, amount_msat: u64 },
    /// All balances.
    ListBalances,
    /// All payments.
    ListPayments,
    /// The payment with this id.
    Payment { id: [u8; 32] },
    /// All channels.
    ListChannels,
    /// Connect to a peer and open a channel to it.
    ConnectOpenChannel {
        node_id: NodeId,
        address: String,
        channel_amount_sats: u64,
        push_to_counterparty_msat: Option<u64>,
        announce_channel: bool,
    },
    /// Close a channel in agreement with the peer.
    CloseChannel { user_channel_id: u128, counterparty_node_id: NodeId },
    /// Close a channel without the peer.
    ForceCloseChannel { user_channel_id: u128, counterparty_node_id: NodeId },
}

/// What a `NodeCall` holds, as specifications see it.
pub enum NodeCallView {
    NodeId,
    Status,
    NewAddress,
    SendToAddress { address: Seq<char>, amount_sats: u64 },
    SendAllToAddress { address: Seq<char> },
    Bolt11Receive { amount_msat: u64, description: Seq<char>, expiry_secs: u32 },
    Bolt11ReceiveVariableAmount { description: Seq<char>, expiry_secs: u32 },
    Bolt11Send { invoice: Seq<char> },
    Bolt11SendUsingAmount { invoice: Seq<char>, amount_msat: u64 },
    Bolt12Receive { amount_msat: u64, description: Seq<char> },
    Bolt12ReceiveVariableAmount { description: Seq<char> },
    Bolt12Send { offer: Seq<char>, payer_note: Option<Seq<char>> },
    Bolt12SendUsingAmount { offer: Seq<char>, payer_note: Option<Seq<char>>, amount_msat: u64 },
    ListBalances,
    ListPayments,
    Payment { id: Seq<u8> },
    ListChannels,
    ConnectOpenChannel {
        node_id: Seq<u8>,
        address: Seq<char>,
        channel_amount_sats: u64,
        push_to_counterparty_msat: Option<u64>,
        announce_channel: bool,
    },
    CloseChannel { user_channel_id: u128, counterparty_node_id: Seq<u8> },
    ForceCloseChannel { user_channel_id: u128, counterparty_node_id: Seq<u8> },
}

impl DeepView for NodeCall {
    type V = NodeCallView;

    open spec fn deep_view(&self) -> NodeCallView {
        match *self {
            NodeCall::NodeId => NodeCallView::NodeId,
            NodeCall::Status => NodeCallView::Status,
            NodeCall::NewAddress => NodeCallView::NewAddress,
            NodeCall::SendToAddress { address, amount_sats } => NodeCallView::SendToAddress {
                address: address@,
                amount_sats,
            },
            NodeCall::SendAllToAddress { address } => NodeCallView::SendAllToAddress {
                address: address@,
            },
            NodeCall::Bolt11Receive {
                amount_msat,
                description,
                expiry_secs,
            } => NodeCallView::Bolt11Receive {
                amount_msat,
                description: description@,
                expiry_secs,
            },
            NodeCall::Bolt11ReceiveVariableAmount {
                description,
                expiry_secs,
            } => NodeCallView::Bolt11ReceiveVariableAmount {
                description: description@,
                expiry_secs,
            },
            NodeCall::Bolt11Send { invoice } => NodeCallView::Bolt11Send { invoice: invoice@ },
            NodeCall::Bolt11SendUsingAmount {
                invoice,
                amount_msat,
            } => NodeCallView::Bolt11SendUsingAmount { invoice: invoice@, amount_msat },
            NodeCall::Bolt12Receive { amount_msat, description } => NodeCallView::Bolt12Receive {
                amount_msat,
                description: description@,
            },
            NodeCall::Bolt12ReceiveVariableAmount {
                description,
            } => NodeCallView::Bolt12ReceiveVariableAmount { description: description@ },
            NodeCall::Bolt12Send { offer, payer_note } => NodeCallView::Bolt12Send {
                offer: offer@,
                payer_note: payer_note.deep_view(),
            },
            NodeCall::Bolt12SendUsingAmount {
                offer,
                payer_note,
                amount_msat,
            } => NodeCallView::Bolt12SendUsingAmount {
                offer: offer@,
                payer_note: payer_note.deep_view(),
                amount_msat,
            },
            NodeCall::ListBalances => NodeCallView::ListBalances,
            NodeCall::ListPayments => NodeCallView::ListPayments,
            NodeCall::Payment { id } => NodeCallView::Payment { id: id@ },
            NodeCall::ListChannels => NodeCallView::ListChannels,
            NodeCall::ConnectOpenChannel {
                node_id,
                address,
                channel_amount_sats,
                push_to_counterparty_msat,
                announce_channel,
            } => NodeCallView::ConnectOpenChannel {
                node_id: node_id@,
                address: address@,
                channel_amount_sats,
                push_to_counterparty_msat,
                announce_channel,
            },
            NodeCall::CloseChannel {
                user_channel_id,
                counterparty_node_id,
            } => NodeCallView::CloseChannel {
                user_channel_id,
                counterparty_node_id: counterparty_node_id@,
            },
            NodeCall::ForceCloseChannel {
                user_channel_id,
                counterparty_node_id,
            } => NodeCallView::ForceCloseChannel {
                user_channel_id,
                counterparty_node_id: counterparty_node_id@,
            },
        }
    }
}

impl View for NodeCall {
    type V = NodeCallView;

    open spec fn view(&self) -> NodeCallView {
        self.deep_view()
    }
}

/// What came of a call on the node.
#[derive(Clone, Debug, PartialEq, Eq)]
pub enum NodeOutcome {
    /// The node's public key.
    NodeId(NodeId),
    /// The node's public key and status.
    Status { node_id: NodeId, status: NodeStatus },
    /// An on-chain address, as text.
    Address(String),
    /// The id of the transaction that pays.
    Txid([u8; 32]),
    /// An invoice, as text.
    Invoice(String),
    /// An offer, as text.
    Offer(String),
    /// The id of the payment that was started.
    PaymentId([u8; 32]),
    /// All balances.
    Balances(BalanceDetails),
    /// All payments.
    Payments(Vec<PaymentDetails>),
    /// The payment that was asked for, where the node knows it.
    Payment(Option<PaymentDetails>),
    /// All channels.
    Channels(Vec<ChannelDetails>),
    /// The local id of the channel that was opened.
    UserChannelId(u128),
    /// The channel is closing.
    ChannelClosed,
    /// The node could not do it; the text is the node's diagnostic.
    Failed(String),
}

} // verus!
