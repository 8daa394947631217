use node_gateway::client::{read_response, ServerHackClient, ServerHackError};
use node_gateway::codec::message::encode;
use node_gateway::operation::Operation;
use node_gateway::protos;
use node_gateway::service::{complete, route, Step};
use node_gateway::call::{NodeCall, NodeOutcome};
use node_gateway::node::Network;

#[test]
fn a_request_goes_to_the_path_of_its_operation() {
    let client = ServerHackClient::new("localhost:3000".to_string());
    let out = client.get_node_id(protos::GetNodeIdRequest {});
    assert_eq!(out.url, "http://localhost:3000/getNodeId");
    assert_eq!(out.content_type, "application/octet-stream");
    assert_eq!(out.body, Vec::<u8>::new());

    let request = protos::Bolt11ReceiveRequest {
        description: "description".to_string(),
        expiry_secs: 10,
        amount_msat: Some(10_000),
    };
    let out = client.bolt11_receive(request.clone());
    assert_eq!(out.url, "http://localhost:3000/bolt11/receive");
    assert_eq!(out.body, encode(&request));
}

#[test]
fn every_method_posts_to_its_own_path() {
    let client = ServerHackClient::new("h:1".to_string());
    let close = |id: Vec<u8>| protos::CloseChannelRequest {
        user_channel_id: id,
        counterparty_node_id: "02".to_string(),
    };
    let urls = vec![
        client.get_node_status(protos::GetNodeStatusRequest {}).url,
        client.get_new_funding_address(protos::OnchainReceiveRequest {}).url,
        client
            .send_onchain(protos::OnchainSendRequest { address: "a".into(), amount_sats: None })
            .url,
        client.bolt11_send(protos::Bolt11SendRequest { invoice: "i".into(), amount_msat: None }).url,
        client
            .bolt12_receive(protos::Bolt12ReceiveRequest {
                description: "d".into(),
                amount_msat: None,
            })
            .url,
        client
            .bolt12_send(protos::Bolt12SendRequest {
                offer: "o".into(),
                amount_msat: None,
                payer_note: None,
            })
            .url,
        client.get_node_balances(protos::GetBalancesRequest {}).url,
        client.list_channels(protos::ListChannelsRequest {}).url,
        client.get_payments_history(&protos::PaymentsHistoryRequest {}).url,
        client
            .get_payment_details(protos::GetPaymentDetailsRequest { payment_id: "p".into() })
            .url,
        client
            .open_channel(protos::OpenChannelRequest {
                node_id: "n".into(),
                address: "a".into(),
                channel_amount_sats: 1,
                push_to_counterparty_msat: None,
                announce_channel: false,
            })
            .url,
        client.close_channel(close(vec![0; 16])).url,
        client
            .force_close_channel(protos::ForceCloseChannelRequest {
                user_channel_id: vec![0; 16],
                counterparty_node_id: "02".into(),
            })
            .url,
    ];
    assert_eq!(
        urls,
        vec![
            "http://h:1/getNodeStatus",
            "http://h:1/onchain/receive",
            "http://h:1/onchain/send",
            "http://h:1/bolt11/send",
            "http://h:1/bolt12/receive",
            "http://h:1/bolt12/send",
            "http://h:1/getNodeBalances",
            "http://h:1/channel/list",
            "http://h:1/listPaymentsHistory",
            "http://h:1/getPaymentDetails",
            "http://h:1/channel/open",
            "http://h:1/channel/close",
            "http://h:1/channel/force-close",
        ]
    );
}

#[test]
fn a_success_with_a_readable_body_is_the_response() {
    let response = protos::Bolt11ReceiveResponse { invoice: "lnbcrt1".to_string() };
    for status in [200u16, 201, 204, 299] {
        let read = read_response::<protos::Bolt11ReceiveResponse>(status, encode(&response));
        assert_eq!(read, Ok(response.clone()));
    }
}

#[test]
fn a_failure_carries_its_status_and_body() {
    for status in [199u16, 300, 400, 404, 500, 503] {
        let read = read_response::<protos::Bolt11ReceiveResponse>(
            status,
            b"Error parsing request".to_vec(),
        );
        assert_eq!(
            read,
            Err(ServerHackError::FailedRequest(status, b"Error parsing request".to_vec()))
        );
    }
    let readable = encode(&protos::Bolt11ReceiveResponse { invoice: "x".to_string() });
    let read = read_response::<protos::Bolt11ReceiveResponse>(500, readable.clone());
    assert_eq!(read, Err(ServerHackError::FailedRequest(500, readable)));
}

#[test]
fn a_success_with_an_unreadable_body_is_an_internal_failure_with_the_body() {
    let payload = vec![0x0a, 0x05, b'a'];
    let read = read_response::<protos::Bolt11ReceiveResponse>(200, payload.clone());
    assert_eq!(read, Err(ServerHackError::FailedRequest(500, payload)));
    let not_text = vec![0x0a, 0x01, 0xff];
    let read = read_response::<protos::Bolt11ReceiveResponse>(200, not_text.clone());
    assert_eq!(read, Err(ServerHackError::FailedRequest(500, not_text)));
}

#[test]
fn a_transport_that_failed_is_an_internal_error_with_its_cause() {
    assert_eq!(
        ServerHackError::transport("connection refused".to_string()),
        ServerHackError::InternalError("connection refused".to_string())
    );
}

#[test]
fn what_the_client_writes_the_server_reads_and_the_other_way_round() {
    let client = ServerHackClient::new("localhost:3000".to_string());
    let out = client.bolt12_receive(protos::Bolt12ReceiveRequest {
        description: "tea".to_string(),
        amount_msat: Some(5),
    });
    let path = &out.url["http://localhost:3000".len()..];
    let step = route(Network::Signet, path, &out.body);
    assert_eq!(
        step,
        Step::Invoke {
            operation: Operation::Bolt12Receive,
            call: NodeCall::Bolt12Receive { amount_msat: 5, description: "tea".to_string() },
        }
    );
    let reply = complete(Operation::Bolt12Receive, NodeOutcome::Offer("lno1xyz".to_string()));
    let read = read_response::<protos::Bolt12ReceiveResponse>(reply.status, reply.body);
    assert_eq!(read, Ok(protos::Bolt12ReceiveResponse { offer: "lno1xyz".to_string() }));

    let reply = complete(Operation::Bolt12Receive, NodeOutcome::Failed("no".to_string()));
    let read = read_response::<protos::Bolt12ReceiveResponse>(reply.status, reply.body);
    assert_eq!(read, Err(ServerHackError::FailedRequest(500, b"no".to_vec())));
}
