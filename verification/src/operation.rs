//! The operations of the gateway and the path of each.

use crate::text::same_text;
use vstd::prelude::*;

verus! {

pub const GET_NODE_ID_PATH: &'static str = "/getNodeId";

pub const GET_NODE_STATUS_PATH: &'static str = "/getNodeStatus";

pub const ONCHAIN_RECEIVE_PATH: &'static str = "/onchain/receive";

pub const ONCHAIN_SEND_PATH: &'static str = "/onchain/send";

pub const BOLT11_RECEIVE_PATH: &'static str = "/bolt11/receive";

pub const BOLT11_SEND_PATH: &'static str = "/bolt11/send";

pub const BOLT12_RECEIVE_PATH: &'static str = "/bolt12/receive";

pub const BOLT12_SEND_PATH: &'static str = "/bolt12/send";

pub const GET_NODE_BALANCES_PATH: &'static str = "/getNodeBalances";

pub const PAYMENTS_HISTORY_PATH: &'static str = "/listPaymentsHistory";

pub const GET_PAYMENT_DETAILS_PATH: &'static str = "/getPaymentDetails";

pub const LIST_CHANNELS_PATH: &'static str = "/channel/list";

pub const OPEN_CHANNEL_PATH: &'static str = "/channel/open";

pub const CLOSE_CHANNEL_PATH: &'static str = "/channel/close";

pub const FORCE_CLOSE_CHANNEL_PATH: &'static str = "/channel/force-close";

/// One thing a client can ask of the node.
#[derive(Clone, Copy, Debug, PartialEq, Eq, Structural)]
pub enum Operation {
    GetNodeId,
    GetNodeStatus,
    OnchainReceive,
    OnchainSend,
    Bolt11Receive,
    Bolt11Send,
    Bolt12Receive,
    Bolt12Send,
    GetNodeBalances,
    PaymentsHistory,
    GetPaymentDetails,
    ListChannels,
    OpenChannel,
    CloseChannel,
    ForceCloseChannel,
}

/// The path under which an operation is served.
pub open spec fn path_of(operation: Operation) -> Seq<char> {
    match operation {
        Operation::GetNodeId => GET_NODE_ID_PATH@,
        Operation::GetNodeStatus => GET_NODE_STATUS_PATH@,
        Operation::OnchainReceive => ONCHAIN_RECEIVE_PATH@,
        Operation::OnchainSend => ONCHAIN_SEND_PATH@,
        Operation::Bolt11Receive => BOLT11_RECEIVE_PATH@,
        Operation::Bolt11Send => BOLT11_SEND_PATH@,
        Operation::Bolt12Receive => BOLT12_RECEIVE_PATH@,
        Operation::Bolt12Send => BOLT12_SEND_PATH@,
        Operation::GetNodeBalances => GET_NODE_BALANCES_PATH@,
        Operation::PaymentsHistory => PAYMENTS_HISTORY_PATH@,
        Operation::GetPaymentDetails => GET_PAYMENT_DETAILS_PATH@,
        Operation::ListChannels => LIST_CHANNELS_PATH@,
        Operation::OpenChannel => OPEN_CHANNEL_PATH@,
        Operation::CloseChannel => CLOSE_CHANNEL_PATH@,
        Operation::ForceCloseChannel => FORCE_CLOSE_CHANNEL_PATH@,
    }
}

/// The operation served under a path: the one whose path is exactly this,
/// character for character; none for any other path.
pub open spec fn operation_of(path: Seq<char>) -> Option<Operation> {
    if path == GET_NODE_ID_PATH@ {
        Some(Operation::GetNodeId)
    } else if path == GET_NODE_STATUS_PATH@ {
        Some(Operation::GetNodeStatus)
    } else if path == GET_NODE_BALANCES_PATH@ {
        Some(Operation::GetNodeBalances)
    } else if path == ONCHAIN_RECEIVE_PATH@ {
        Some(Operation::OnchainReceive)
    } else if path == ONCHAIN_SEND_PATH@ {
        Some(Operation::OnchainSend)
    } else if path == BOLT11_RECEIVE_PATH@ {
        Some(Operation::Bolt11Receive)
    } else if path == BOLT11_SEND_PATH@ {
        Some(Operation::Bolt11Send)
    } else if path == BOLT12_RECEIVE_PATH@ {
        Some(Operation::Bolt12Receive)
    } else if path == BOLT12_SEND_PATH@ {
        Some(Operation::Bolt12Send)
    } else if path == LIST_CHANNELS_PATH@ {
        Some(Operation::ListChannels)
    } else if path == OPEN_CHANNEL_PATH@ {
        Some(Operation::OpenChannel)
    } else if path == CLOSE_CHANNEL_PATH@ {
        Some(Operation::CloseChannel)
    } else if path == FORCE_CLOSE_CHANNEL_PATH@ {
        Some(Operation::ForceCloseChannel)
    } else if path == PAYMENTS_HISTORY_PATH@ {
        Some(Operation::PaymentsHistory)
    } else if path == GET_PAYMENT_DETAILS_PATH@ {
        Some(Operation::GetPaymentDetails)
    } else {
        None
    }
}

impl Operation {
    /// The path under which the operation is served.
    pub fn path(self) -> (r: &'static str)
        ensures
            r@ == path_of(self),
    {
        match self {
            Operation::GetNodeId => GET_NODE_ID_PATH,
            Operation::GetNodeStatus => GET_NODE_STATUS_PATH,
            Operation::OnchainReceive => ONCHAIN_RECEIVE_PATH,
            Operation::OnchainSend => ONCHAIN_SEND_PATH,
            Operation::Bolt11Receive => BOLT11_RECEIVE_PATH,
            Operation::Bolt11Send => BOLT11_SEND_PATH,
            Operation::Bolt12Receive => BOLT12_RECEIVE_PATH,
            Operation::Bolt12Send => BOLT12_SEND_PATH,
            Operation::GetNodeBalances => GET_NODE_BALANCES_PATH,
            Operation::PaymentsHistory => PAYMENTS_HISTORY_PATH,
            Operation::GetPaymentDetails => GET_PAYMENT_DETAILS_PATH,
            Operation::ListChannels => LIST_CHANNELS_PATH,
            Operation::OpenChannel => OPEN_CHANNEL_PATH,
            Operation::CloseChannel => CLOSE_CHANNEL_PATH,
            Operation::ForceCloseChannel => FORCE_CLOSE_CHANNEL_PATH,
        }
    }

    /// The operation served under `path`, if any.
    pub fn lookup(path: &str) -> (r: Option<Operation>)
        ensures
            r == operation_of(path@),
    {
        if same_text(path, GET_NODE_ID_PATH) {
            Some(Operation::GetNodeId)
        } else if same_text(path, GET_NODE_STATUS_PATH) {
            Some(Operation::GetNodeStatus)
        } else if same_text(path, GET_NODE_BALANCES_PATH) {
            Some(Operation::GetNodeBalances)
        } else if same_text(path, ONCHAIN_RECEIVE_PATH) {
            Some(Operation::OnchainReceive)
        } else if same_text(path, ONCHAIN_SEND_PATH) {
            Some(Operation::OnchainSend)
        } else if same_text(path, BOLT11_RECEIVE_PATH) {
            Some(Operation::Bolt11Receive)
        } else if same_text(path, BOLT11_SEND_PATH) {
            Some(Operation::Bolt11Send)
        } else if same_text(path, BOLT12_RECEIVE_PATH) {
            Some(Operation::Bolt12Receive)
        } else if same_text(path, BOLT12_SEND_PATH) {
            Some(Operation::Bolt12Send)
        } else if same_text(path, LIST_CHANNELS_PATH) {
            Some(Operation::ListChannels)
        } else if same_text(path, OPEN_CHANNEL_PATH) {
            Some(Operation::OpenChannel)
        } else if same_text(path, CLOSE_CHANNEL_PATH) {
            Some(Operation::CloseChannel)
        } else if same_text(path, FORCE_CLOSE_CHANNEL_PATH) {
            Some(Operation::ForceCloseChannel)
        } else if same_text(path, PAYMENTS_HISTORY_PATH) {
            Some(Operation::PaymentsHistory)
        } else if same_text(path, GET_PAYMENT_DETAILS_PATH) {
            Some(Operation::GetPaymentDetails)
        } else {
            None
        }
    }
}

/// Each operation is found under its own path: no two share one.
pub proof fn lemma_operation_of_path(operation: Operation)
    ensures
        operation_of(path_of(operation)) == Some(operation),
{
    reveal_strlit("/getNodeId");
    reveal_strlit("/getNodeStatus");
    reveal_strlit("/onchain/receive");
    reveal_strlit("/onchain/send");
    reveal_strlit("/bolt11/receive");
    reveal_strlit("/bolt11/send");
    reveal_strlit("/bolt12/receive");
    reveal_strlit("/bolt12/send");
    reveal_strlit("/getNodeBalances");
    reveal_strlit("/listPaymentsHistory");
    reveal_strlit("/getPaymentDetails");
    reveal_strlit("/channel/list");
    reveal_strlit("/channel/open");
    reveal_strlit("/channel/close");
    reveal_strlit("/channel/force-close");
    let p = path_of(operation);
    assert(GET_NODE_ID_PATH@.len() == 10 && GET_NODE_ID_PATH@[9] == 'd');
    assert(GET_NODE_STATUS_PATH@.len() == 14);
    assert(GET_NODE_BALANCES_PATH@.len() == 16 && GET_NODE_BALANCES_PATH@[1] == 'g');
    assert(ONCHAIN_RECEIVE_PATH@.len() == 16 && ONCHAIN_RECEIVE_PATH@[1] == 'o');
    assert(ONCHAIN_SEND_PATH@.len() == 13 && ONCHAIN_SEND_PATH@[1] == 'o');
    assert(BOLT11_RECEIVE_PATH@.len() == 15 && BOLT11_RECEIVE_PATH@[6] == '1');
    assert(BOLT11_SEND_PATH@.len() == 12 && BOLT11_SEND_PATH@[6] == '1');
    assert(BOLT12_RECEIVE_PATH@.len() == 15 && BOLT12_RECEIVE_PATH@[6] == '2');
    assert(BOLT12_SEND_PATH@.len() == 12 && BOLT12_SEND_PATH@[6] == '2');
    assert(LIST_CHANNELS_PATH@.len() == 13 && LIST_CHANNELS_PATH@[1] == 'c' && LIST_CHANNELS_PATH@[9] == 'l');
    assert(OPEN_CHANNEL_PATH@.len() == 13 && OPEN_CHANNEL_PATH@[1] == 'c' && OPEN_CHANNEL_PATH@[9] == 'o');
    assert(CLOSE_CHANNEL_PATH@.len() == 14 && CLOSE_CHANNEL_PATH@[1] == 'c');
    assert(FORCE_CLOSE_CHANNEL_PATH@.len() == 20);
    assert(PAYMENTS_HISTORY_PATH@.len() == 20 && PAYMENTS_HISTORY_PATH@[1] == 'l');
    assert(FORCE_CLOSE_CHANNEL_PATH@[1] == 'c');
    assert(GET_PAYMENT_DETAILS_PATH@.len() == 18);
    assert(GET_NODE_STATUS_PATH@[1] == 'g');
}

} // verus!
