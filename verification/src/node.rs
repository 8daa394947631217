//! What the node hands to the gateway: its status, balances, payments and
//! channels, each as plain values.

use crate::ids::NodeId;
use vstd::prelude::*;

verus! {

/// The chain that a node works on.
#[derive(Clone, Copy, Debug, PartialEq, Eq, Structural)]
pub enum Network {
    Bitcoin,
    Testnet,
    Signet,
    Regtest,
}

/// The tip of the chain as the node knows it.
#[derive(Clone, Copy, Debug, PartialEq, Eq)]
pub struct BestBlock {
    pub block_hash: [u8; 32],
    pub height: u32,
}

/// The node's status. A time is absent where the upkeep has not happened.
#[derive(Clone, Copy, Debug, PartialEq, Eq)]
pub struct NodeStatus {
    pub is_running: bool,
    pub is_listening: bool,
    pub current_best_block: BestBlock,
    pub latest_wallet_sync_timestamp: Option<u64>,
    pub latest_onchain_wallet_sync_timestamp: Option<u64>,
    pub latest_fee_rate_cache_update_timestamp: Option<u64>,
    pub latest_rgs_snapshot_timestamp: Option<u64>,
    pub latest_node_announcement_broadcast_timestamp: Option<u64>,
}

/// A balance held in a channel, by its kind.
#[derive(Clone, Copy, Debug, PartialEq, Eq)]
pub enum LightningBalance {
    /// The channel is open; the balance is the node's when it closes.
    ClaimableOnChannelClose { channel_id: [u8; 32], counterparty_node_id: NodeId, amount_satoshis: u64 },
    /// The channel is closed; the balance waits for confirmations.
    ClaimableAwaitingConfirmations {
        channel_id: [u8; 32],
        counterparty_node_id: NodeId,
        amount_satoshis: u64,
        confirmation_height: u32,
    },
    /// The node can claim the balance, but the other party takes it after a
    /// timeout.
    ContentiousClaimable {
        channel_id: [u8; 32],
        counterparty_node_id: NodeId,
        amount_satoshis: u64,
        timeout_height: u32,
        payment_hash: [u8; 32],
        payment_preimage: [u8; 32],
    },
    /// An outbound payment in flight that comes back if it times out.
    MaybeTimeoutClaimableHTLC {
        channel_id: [u8; 32],
        counterparty_node_id: NodeId,
        amount_satoshis: u64,
        claimable_height: u32,
        payment_hash: [u8; 32],
    },
    /// An inbound payment in flight that is the node's if it learns the
    /// preimage.
    MaybePreimageClaimableHTLC {
        channel_id: [u8; 32],
        counterparty_node_id: NodeId,
        amount_satoshis: u64,
        expiry_height: u32,
        payment_hash: [u8; 32],
    },
    /// The other party broadcast a revoked state; the node can claim it all.
    CounterpartyRevokedOutputClaimable {
        channel_id: [u8; 32],
        counterparty_node_id: NodeId,
        amount_satoshis: u64,
    },
}

/// A balance on its way back from a closed channel, by how far it is. The
/// channel is absent where the funds cannot be attributed to one.
#[derive(Clone, Copy, Debug, PartialEq, Eq)]
pub enum PendingSweepBalance {
    PendingBroadcast { channel_id: Option<[u8; 32]>, amount_satoshis: u64 },
    BroadcastAwaitingConfirmation {
        channel_id: Option<[u8; 32]>,
        latest_broadcast_height: u32,
        latest_spending_txid: [u8; 32],
        amount_satoshis: u64,
    },
    AwaitingThresholdConfirmations {
        channel_id: Option<[u8; 32]>,
        latest_spending_txid: [u8; 32],
        confirmation_hash: [u8; 32],
        confirmation_height: u32,
        amount_satoshis: u64,
    },
}

/// All of the node's balances.
#[derive(Clone, Debug, PartialEq, Eq)]
pub struct BalanceDetails {
    pub total_onchain_balance_sats: u64,
    pub spendable_onchain_balance_sats: u64,
    pub total_anchor_channels_reserve_sats: u64,
    pub total_lightning_balance_sats: u64,
    pub lightning_balances: Vec<LightningBalance>,
    pub pending_balances_from_channel_closures: Vec<PendingSweepBalance>,
}

/// The most a liquidity provider may charge to open a channel.
#[derive(Clone, Copy, Debug, PartialEq, Eq)]
pub struct LSPFeeLimits {
    pub max_total_opening_fee_msat: Option<u64>,
    pub max_proportional_opening_fee_ppm_msat: Option<u64>,
}

/// A payment, by its kind.
#[derive(Clone, Copy, Debug, PartialEq, Eq)]
pub enum PaymentKind {
    Onchain,
    Bolt11 { hash: [u8; 32], preimage: Option<[u8; 32]>, secret: Option<[u8; 32]> },
    Bolt11Jit {
        hash: [u8; 32],
        preimage: Option<[u8; 32]>,
        secret: Option<[u8; 32]>,
        lsp_fee_limits: LSPFeeLimits,
    },
    Bolt12Offer {
        hash: Option<[u8; 32]>,
        preimage: Option<[u8; 32]>,
        secret: Option<[u8; 32]>,
        offer_id: [u8; 32],
    },
    Bolt12Refund { hash: Option<[u8; 32]>, preimage: Option<[u8; 32]>, secret: Option<[u8; 32]> },
    Spontaneous { hash: [u8; 32], preimage: Option<[u8; 32]> },
}

/// Which way a payment goes.
#[derive(Clone, Copy, Debug, PartialEq, Eq, Structural)]
pub enum PaymentDirection {
    Inbound,
    Outbound,
}

/// How far a payment is.
#[derive(Clone, Copy, Debug, PartialEq, Eq, Structural)]
pub enum PaymentStatus {
    Pending,
    Succeeded,
    Failed,
}

/// The record of one payment.
#[derive(Clone, Copy, Debug, PartialEq, Eq)]
pub struct PaymentDetails {
    pub id: [u8; 32],
    pub kind: PaymentKind,
    pub amount_msat: Option<u64>,
    pub direction: PaymentDirection,
    pub status: PaymentStatus,
    pub latest_update_timestamp: u64,
}

/// An output of a transaction.
#[derive(Clone, Copy, Debug, PartialEq, Eq)]
pub struct OutPoint {
    pub txid: [u8; 32],
    pub vout: u32,
}

/// One channel, as far as the gateway reports it.
#[derive(Clone, Copy, Debug, PartialEq, Eq)]
pub struct ChannelDetails {
    pub channel_id: [u8; 32],
    pub counterparty_node_id: NodeId,
    pub funding_txo: Option<OutPoint>,
    pub channel_value_sats: u64,
    pub feerate_sat_per_1000_weight: u32,
    pub outbound_capacity_msat: u64,
    pub inbound_capacity_msat: u64,
    pub confirmations_required: Option<u32>,
    pub confirmations: Option<u32>,
    pub is_outbound: bool,
    pub is_channel_ready: bool,
    pub is_usable: bool,
    pub is_public: bool,
    pub cltv_expiry_delta: Option<u16>,
    pub counterparty_outbound_htlc_minimum_msat: Option<u64>,
    pub counterparty_outbound_htlc_maximum_msat: Option<u64>,
    pub next_outbound_htlc_limit_msat: u64,
    pub next_outbound_htlc_minimum_msat: u64,
    pub force_close_spend_delay: Option<u16>,
    pub forwarding_fee_proportional_millionths: u32,
    pub forwarding_fee_base_msat: u32,
}

} // verus!
