//! The wire schema: one request and one response message for each
//! operation, and the messages they are made of.

pub mod balances;
pub mod bolt11;
pub mod bolt12;
pub mod channels;
pub mod enumerations;
pub mod lightning_balance;
pub mod onchain;
pub mod payment_id;
pub mod payment_kind;
pub mod payments;
pub mod pending_sweep_balance;
pub mod status;

pub use self::balances::{
    AwaitingThresholdConfirmations, BroadcastAwaitingConfirmation, ClaimableAwaitingConfirmations,
    ClaimableOnChannelClose, ContentiousClaimable, CounterpartyRevokedOutputClaimable,
    GetBalancesRequest, GetBalancesResponse, LightningBalance, MaybePreimageClaimableHtlc,
    MaybeTimeoutClaimableHtlc, PendingBroadcast, PendingSweepBalance,
};
pub use self::bolt11::{
    Bolt11ReceiveRequest, Bolt11ReceiveResponse, Bolt11SendRequest, Bolt11SendResponse,
};
pub use self::bolt12::{
    Bolt12ReceiveRequest, Bolt12ReceiveResponse, Bolt12SendRequest, Bolt12SendResponse,
};
pub use self::channels::{
    Channel, CloseChannelRequest, CloseChannelResponse, ForceCloseChannelRequest,
    ForceCloseChannelResponse, ListChannelsRequest, ListChannelsResponse, OpenChannelRequest,
    OpenChannelResponse, Outpoint,
};
pub use self::enumerations::{PaymentDirection, PaymentStatus};
pub use self::onchain::{
    OnchainReceiveRequest, OnchainReceiveResponse, OnchainSendRequest, OnchainSendResponse,
};
pub use self::payment_id::PaymentId;
pub use self::payments::{
    Bolt11, Bolt11Jit, Bolt12Offer, Bolt12Refund, GetPaymentDetailsRequest, LspFeeLimits, Onchain,
    PaymentDetails, PaymentKind, PaymentsHistoryRequest, PaymentsHistoryResponse, Spontaneous,
};
pub use self::status::{
    BestBlock, GetNodeIdRequest, GetNodeIdResponse, GetNodeStatusRequest, GetNodeStatusResponse,
};
