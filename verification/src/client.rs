//! The client side of the gateway: what to send for a request, and how to
//! read what came back. The transport in between is the caller's.

use crate::codec::message::{decode, decoded, encode, encoded, Message};
use crate::operation::{path_of, Operation};
use crate::protos;
use vstd::prelude::*;
use vstd::string::StringExecFns;

verus! {

/// The content type of every request body.
pub const APPLICATION_OCTET_STREAM: &'static str = "application/octet-stream";

/// The scheme that every request goes by.
pub const SCHEME: &'static str = "http://";

/// The status that stands for a response that arrived with a success
/// status and could not be read.
pub const INTERNAL_SERVER_ERROR: u16 = 500;

/// Why a call gave no response.
#[derive(Clone, Debug, PartialEq, Eq)]
pub enum ServerHackError {
    /// The server answered with a failure: its status and the body as it
    /// came. Also a success whose body is no response of the operation,
    /// under the status `INTERNAL_SERVER_ERROR`.
    FailedRequest(u16, Vec<u8>),
    /// The request did not reach the server or the response did not arrive;
    /// the text says why.
    InternalError(String),
}

/// What a `ServerHackError` holds, as specifications see it.
pub enum ServerHackErrorView {
    FailedRequest(u16, Seq<u8>),
    InternalError(Seq<char>),
}

impl DeepView for ServerHackError {
    type V = ServerHackErrorView;

    open spec fn deep_view(&self) -> ServerHackErrorView {
        match *self {
            ServerHackError::FailedRequest(status, body) => ServerHackErrorView::FailedRequest(
                status,
                body@,
            ),
            ServerHackError::InternalError(cause) => ServerHackErrorView::InternalError(cause@),
        }
    }
}

impl View for ServerHackError {
    type V = ServerHackErrorView;

    open spec fn view(&self) -> ServerHackErrorView {
        self.deep_view()
    }
}

impl ServerHackError {
    /// The error for a transport that failed for `cause`.
    pub fn transport(cause: String) -> (r: ServerHackError)
        ensures
            r.deep_view() == ServerHackErrorView::InternalError(cause@),
    {
        ServerHackError::InternalError(cause)
    }
}

/// What goes out for one call: where to post, the content type, the body.
#[derive(Clone, Debug, PartialEq, Eq)]
pub struct Outbound {
    pub url: String,
    pub content_type: &'static str,
    pub body: Vec<u8>,
}

/// The address of an operation on a server: the scheme, the server's base
/// address, and the operation's path.
pub open spec fn url_of(base_url: Seq<char>, operation: Operation) -> Seq<char> {
    SCHEME@ + base_url + path_of(operation)
}

/// Whether a status is one of success.
pub open spec fn is_success(status: u16) -> bool {
    200 <= status < 300
}

/// What a response means: with a success status the message that the body
/// stands for, or where it stands for none the failure of a server that
/// broke the protocol; with any other status the failure as the server
/// reported it.
pub open spec fn response_read<Rs: Message>(status: u16, payload: Seq<u8>) -> Result<
    Rs::V,
    ServerHackErrorView,
> {
    if is_success(status) {
        match decoded::<Rs>(payload) {
            Some(response) => Ok(response),
            None => Err(ServerHackErrorView::FailedRequest(INTERNAL_SERVER_ERROR, payload)),
        }
    } else {
        Err(ServerHackErrorView::FailedRequest(status, payload))
    }
}

/// Reads what came back for a call that expects an `Rs`.
pub fn read_response<Rs: Message>(status: u16, payload: Vec<u8>) -> (r: Result<
    Rs,
    ServerHackError,
>)
    ensures
        match response_read::<Rs>(status, payload@) {
            Ok(response) => r matches Ok(found) && found.deep_view() == response,
            Err(error) => r matches Err(found) && found.deep_view() == error,
        },
{
    if 200 <= status && status < 300 {
        match decode::<Rs>(payload.as_slice()) {
            Some(response) => Ok(response),
            None => Err(ServerHackError::FailedRequest(INTERNAL_SERVER_ERROR, payload)),
        }
    } else {
        Err(ServerHackError::FailedRequest(status, payload))
    }
}

/// A client of one server.
#[derive(Clone, Debug, PartialEq, Eq)]
pub struct ServerHackClient {
    base_url: String,
}

impl View for ServerHackClient {
    type V = Seq<char>;

    closed spec fn view(&self) -> Seq<char> {
        self.base_url@
    }
}

impl ServerHackClient {
    /// A client of the server at `base_url`: a host and a port.
    pub fn new(base_url: String) -> (r: ServerHackClient)
        ensures
            r@ == base_url@,
    {
        ServerHackClient { base_url }
    }

    /// What goes out for `request` to `operation`.
    pub fn post_request<Rq: Message>(&self, operation: Operation, request: &Rq) -> (r: Outbound)
        ensures
            r.url@ == url_of(self@, operation),
            r.content_type@ == APPLICATION_OCTET_STREAM@,
            r.body@ == encoded::<Rq>(request.deep_view()),
    {
        let url = String::from_str(SCHEME).concat(self.base_url.as_str()).concat(operation.path());
        assert(url@ =~= url_of(self@, operation));
        Outbound { url, content_type: APPLICATION_OCTET_STREAM, body: encode(request) }
    }

    pub fn get_node_id(&self, request: protos::GetNodeIdRequest) -> (r: Outbound)
        ensures
            r.url@ == url_of(self@, Operation::GetNodeId),
            r.content_type@ == APPLICATION_OCTET_STREAM@,
            r.body@ == encoded::<protos::GetNodeIdRequest>(request.deep_view()),
    {
        self.post_request(Operation::GetNodeId, &request)
    }

    pub fn get_node_status(&self, request: protos::GetNodeStatusRequest) -> (r: Outbound)
        ensures
            r.url@ == url_of(self@, Operation::GetNodeStatus),
            r.content_type@ == APPLICATION_OCTET_STREAM@,
            r.body@ == encoded::<protos::GetNodeStatusRequest>(request.deep_view()),
    {
        self.post_request(Operation::GetNodeStatus, &request)
    }

    pub fn get_new_funding_address(&self, request: protos::OnchainReceiveRequest) -> (r: Outbound)
        ensures
            r.url@ == url_of(self@, Operation::OnchainReceive),
            r.content_type@ == APPLICATION_OCTET_STREAM@,
            r.body@ == encoded::<protos::OnchainReceiveRequest>(request.deep_view()),
    {
        self.post_request(Operation::OnchainReceive, &request)
    }

    pub fn send_onchain(&self, request: protos::OnchainSendRequest) -> (r: Outbound)
        ensures
            r.url@ == url_of(self@, Operation::OnchainSend),
            r.content_type@ == APPLICATION_OCTET_STREAM@,
            r.body@ == encoded::<protos::OnchainSendRequest>(request.deep_view()),
    {
        self.post_request(Operation::OnchainSend, &request)
    }

    pub fn bolt11_receive(&self, request: protos::Bolt11ReceiveRequest) -> (r: Outbound)
        ensures
            r.url@ == url_of(self@, Operation::Bolt11Receive),
            r.content_type@ == APPLICATION_OCTET_STREAM@,
            r.body@ == encoded::<protos::Bolt11ReceiveRequest>(request.deep_view()),
    {
        self.post_request(Operation::Bolt11Receive, &request)
    }

    pub fn bolt11_send(&self, request: protos::Bolt11SendRequest) -> (r: Outbound)
        ensures
            r.url@ == url_of(self@, Operation::Bolt11Send),
            r.content_type@ == APPLICATION_OCTET_STREAM@,
            r.body@ == encoded::<protos::Bolt11SendRequest>(request.deep_view()),
    {
        self.post_request(Operation::Bolt11Send, &request)
    }

    pub fn bolt12_receive(&self, request: protos::Bolt12ReceiveRequest) -> (r: Outbound)
        ensures
            r.url@ == url_of(self@, Operation::Bolt12Receive),
            r.content_type@ == APPLICATION_OCTET_STREAM@,
            r.body@ == encoded::<protos::Bolt12ReceiveRequest>(request.deep_view()),
    {
        self.post_request(Operation::Bolt12Receive, &request)
    }

    pub fn bolt12_send(&self, request: protos::Bolt12SendRequest) -> (r: Outbound)
        ensures
            r.url@ == url_of(self@, Operation::Bolt12Send),
            r.content_type@ == APPLICATION_OCTET_STREAM@,
            r.body@ == encoded::<protos::Bolt12SendRequest>(request.deep_view()),
    {
        self.post_request(Operation::Bolt12Send, &request)
    }

    pub fn get_node_balances(&self, request: protos::GetBalancesRequest) -> (r: Outbound)
        ensures
            r.url@ == url_of(self@, Operation::GetNodeBalances),
            r.content_type@ == APPLICATION_OCTET_STREAM@,
            r.body@ == encoded::<protos::GetBalancesRequest>(request.deep_view()),
    {
        self.post_request(Operation::GetNodeBalances, &request)
    }

    pub fn list_channels(&self, request: protos::ListChannelsRequest) -> (r: Outbound)
        ensures
            r.url@ == url_of(self@, Operation::ListChannels),
            r.content_type@ == APPLICATION_OCTET_STREAM@,
            r.body@ == encoded::<protos::ListChannelsRequest>(request.deep_view()),
    {
        self.post_request(Operation::ListChannels, &request)
    }

    pub fn get_payments_history(&self, request: &protos::PaymentsHistoryRequest) -> (r: Outbound)
        ensures
            r.url@ == url_of(self@, Operation::PaymentsHistory),
            r.content_type@ == APPLICATION_OCTET_STREAM@,
            r.body@ == encoded::<protos::PaymentsHistoryRequest>(request.deep_view()),
    {
        self.post_request(Operation::PaymentsHistory, request)
    }

    pub fn get_payment_details(&self, request: protos::GetPaymentDetailsRequest) -> (r: Outbound)
        ensures
            r.url@ == url_of(self@, Operation::GetPaymentDetails),
            r.content_type@ == APPLICATION_OCTET_STREAM@,
            r.body@ == encoded::<protos::GetPaymentDetailsRequest>(request.deep_view()),
    {
        self.post_request(Operation::GetPaymentDetails, &request)
    }

    pub fn open_channel(&self, request: protos::OpenChannelRequest) -> (r: Outbound)
        ensures
            r.url@ == url_of(self@, Operation::OpenChannel),
            r.content_type@ == APPLICATION_OCTET_STREAM@,
            r.body@ == encoded::<protos::OpenChannelRequest>(request.deep_view()),
    {
        self.post_request(Operation::OpenChannel, &request)
    }

    pub fn close_channel(&self, request: protos::CloseChannelRequest) -> (r: Outbound)
        ensures
            r.url@ == url_of(self@, Operation::CloseChannel),
            r.content_type@ == APPLICATION_OCTET_STREAM@,
            r.body@ == encoded::<protos::CloseChannelRequest>(request.deep_view()),
    {
        self.post_request(Operation::CloseChannel, &request)
    }

    pub fn force_close_channel(&self, request: protos::ForceCloseChannelRequest) -> (r: Outbound)
        ensures
            r.url@ == url_of(self@, Operation::ForceCloseChannel),
            r.content_type@ == APPLICATION_OCTET_STREAM@,
            r.body@ == encoded::<protos::ForceCloseChannelRequest>(request.deep_view()),
    {
        self.post_request(Operation::ForceCloseChannel, &request)
    }
}

} // verus!
