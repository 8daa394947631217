use ldk_node::bitcoin::secp256k1::PublicKey;
use ldk_node::bitcoin::{Address, Network as ChainNetwork};
use ldk_node::lightning::offers::offer::OfferBuilder;
use node_gateway::call::{NodeCall, NodeOutcome};
use node_gateway::codec::message::{decode, encode};
use node_gateway::config::{Config, ConfigError, LogLevel};
use node_gateway::errors::NodeError;
use node_gateway::ids::NodeId;
use node_gateway::node::{
    BalanceDetails, BestBlock, Network, NodeStatus, PaymentDetails, PaymentDirection, PaymentKind,
    PaymentStatus, PendingSweepBalance,
};
use node_gateway::operation::Operation;
use node_gateway::protos;
use node_gateway::service::{
    complete, handle_get_payment_details_request, handle_request, route, Reply, Step,
};
use node_gateway::translate::{to_node_status_proto, to_payment_details_proto};
use std::str::FromStr;

const KEY: &str = "027100442c3b79f606f80f322d98d499eefcb060599efc5d4ecb00209c2cb54190";

const INVOICE: &str = "lnbc100p1psj9jhxdqud3jxktt5w46x7unfv9kz6mn0v3jsnp4q0d3p2sfluzdx45tqcsh2pu5qc7lgq0xs578ngs6s0s68ua4h7cvspp5q6rmq35js88zp5dvwrv9m459tnk2zunwj5jalqtyxqulh0l5gflssp5nf55ny5gcrfl30xuhzj3nphgj27rstekmr9fw3ny5989s300gyus9qyysgqcqpcrzjqw2sxwe993h5pcm4dxzpvttgza8zhkqxpgffcrf5v25nwpr3cmfg7z54kuqq8rgqqqqqqqq2qqqqq9qq9qrzjqd0ylaqclj9424x9m8h2vcukcgnm6s56xfgu3j78zyqzhgs4hlpzvznlugqq9vsqqqqqqqlgqqqqqeqq9qrzjqwldmj9dha74df76zhx6l9we0vjdquygcdt3kssupehe64g6yyp5yz5rhuqqwccqqyqqqqlgqqqqjcqq9qrzjqf9e58aguqr0rcun0ajlvmzq3ek63cw2w282gv3z5uupmuwvgjtq2z55qsqqg6qqqyqqqrtnqqqzq3cqygrzjqvphmsywntrrhqjcraumvc4y6r8v4z5v593trte429v4hredj7ms5z52usqq9ngqqqqqqqlgqqqqqqgq9qrzjq2v0vp62g49p7569ev48cmulecsxe59lvaw3wlxm7r982zxa9zzj7z5l0cqqxusqqyqqqqlgqqqqqzsqygarl9fh38s0gyuxjjgux34w75dnc6xp2l35j7es3jd4ugt3lu0xzre26yg5m7ke54n2d5sym4xcmxtl8238xxvw5h5h5j5r6drg6k6zcqj0fcwg";

fn key() -> PublicKey {
    PublicKey::from_str(KEY).unwrap()
}

fn address_on(network: ChainNetwork) -> String {
    Address::p2wpkh(&ldk_node::bitcoin::PublicKey::new(key()), network).unwrap().to_string()
}

fn client_error(step: Step, body: &[u8]) {
    assert_eq!(step, Step::Respond(Reply { status: 400, body: body.to_vec() }));
}

fn server_error(step: Step, text: &str) {
    assert_eq!(step, Step::Respond(Reply { status: 500, body: text.as_bytes().to_vec() }));
}

#[test]
fn an_unknown_path_is_a_client_error_that_names_the_path() {
    for path in ["", "/", "/nope", "/getNodeId/", "getNodeId", "/GETNODEID", "/../../etc/passwd",
        "/channel/open/../close", "/getNodeId\u{0}", "/caf\u{e9}"]
    {
        let step = route(Network::Regtest, path, &[]);
        let mut body = b"Unknown request: ".to_vec();
        body.extend_from_slice(path.as_bytes());
        client_error(step, &body);
    }
}

#[test]
fn every_operation_is_found_under_its_own_path() {
    let table = [
        ("/getNodeId", Operation::GetNodeId),
        ("/getNodeStatus", Operation::GetNodeStatus),
        ("/onchain/receive", Operation::OnchainReceive),
        ("/onchain/send", Operation::OnchainSend),
        ("/bolt11/receive", Operation::Bolt11Receive),
        ("/bolt11/send", Operation::Bolt11Send),
        ("/bolt12/receive", Operation::Bolt12Receive),
        ("/bolt12/send", Operation::Bolt12Send),
        ("/getNodeBalances", Operation::GetNodeBalances),
        ("/listPaymentsHistory", Operation::PaymentsHistory),
        ("/getPaymentDetails", Operation::GetPaymentDetails),
        ("/channel/list", Operation::ListChannels),
        ("/channel/open", Operation::OpenChannel),
        ("/channel/close", Operation::CloseChannel),
        ("/channel/force-close", Operation::ForceCloseChannel),
    ];
    for (path, operation) in table {
        assert_eq!(Operation::lookup(path), Some(operation));
        assert_eq!(operation.path(), path);
    }
}

#[test]
fn requests_without_fields_go_straight_to_the_node() {
    let table = [
        ("/getNodeId", Operation::GetNodeId, NodeCall::NodeId),
        ("/getNodeStatus", Operation::GetNodeStatus, NodeCall::Status),
        ("/onchain/receive", Operation::OnchainReceive, NodeCall::NewAddress),
        ("/getNodeBalances", Operation::GetNodeBalances, NodeCall::ListBalances),
        ("/listPaymentsHistory", Operation::PaymentsHistory, NodeCall::ListPayments),
        ("/channel/list", Operation::ListChannels, NodeCall::ListChannels),
    ];
    for (path, operation, call) in table {
        assert_eq!(route(Network::Bitcoin, path, &[]), Step::Invoke { operation, call });
    }
}

#[test]
fn a_malformed_body_is_a_client_error_on_every_path() {
    let truncated = [0x0a, 0x05, b'a'];
    for operation in [
        Operation::GetNodeId,
        Operation::GetNodeStatus,
        Operation::OnchainReceive,
        Operation::OnchainSend,
        Operation::Bolt11Receive,
        Operation::Bolt11Send,
        Operation::Bolt12Receive,
        Operation::Bolt12Send,
        Operation::GetNodeBalances,
        Operation::PaymentsHistory,
        Operation::GetPaymentDetails,
        Operation::ListChannels,
        Operation::OpenChannel,
        Operation::CloseChannel,
        Operation::ForceCloseChannel,
    ] {
        client_error(route(Network::Regtest, operation.path(), &truncated), b"Error parsing request");
        client_error(handle_request(operation, Network::Regtest, &[0xff]), b"Error parsing request");
    }
    client_error(
        route(Network::Regtest, "/onchain/send", &[0x0a, 0x01, 0xff]),
        b"Error parsing request",
    );
}

#[test]
fn bolt11_receive_without_an_amount_asks_for_a_variable_amount_invoice() {
    let request = protos::Bolt11ReceiveRequest {
        description: "desc".to_string(),
        expiry_secs: 10,
        amount_msat: None,
    };
    let step = route(Network::Regtest, "/bolt11/receive", &encode(&request));
    assert_eq!(
        step,
        Step::Invoke {
            operation: Operation::Bolt11Receive,
            call: NodeCall::Bolt11ReceiveVariableAmount {
                description: "desc".to_string(),
                expiry_secs: 10
            },
        }
    );
    let reply = complete(Operation::Bolt11Receive, NodeOutcome::Invoice(INVOICE.to_string()));
    assert_eq!(reply.status, 200);
    let response: protos::Bolt11ReceiveResponse = decode(&reply.body).unwrap();
    assert!(!response.invoice.is_empty());
    assert_eq!(response.invoice, INVOICE);
}

#[test]
fn bolt11_receive_with_an_amount_asks_for_that_amount() {
    let request = protos::Bolt11ReceiveRequest {
        description: "description".to_string(),
        expiry_secs: 10,
        amount_msat: Some(10_000),
    };
    assert_eq!(
        route(Network::Regtest, "/bolt11/receive", &encode(&request)),
        Step::Invoke {
            operation: Operation::Bolt11Receive,
            call: NodeCall::Bolt11Receive {
                amount_msat: 10_000,
                description: "description".to_string(),
                expiry_secs: 10
            },
        }
    );
}

#[test]
fn a_payment_id_of_31_bytes_is_turned_down_before_the_node_is_asked() {
    let request = protos::GetPaymentDetailsRequest { payment_id: "a".repeat(31) };
    let step = route(Network::Regtest, "/getPaymentDetails", &encode(&request));
    server_error(step, "The given payment id is invalid.");
    assert_eq!(handle_get_payment_details_request(request), Err(NodeError::InvalidPaymentId));
    let long = protos::GetPaymentDetailsRequest { payment_id: "a".repeat(33) };
    assert_eq!(handle_get_payment_details_request(long), Err(NodeError::InvalidPaymentId));
    let wide = protos::GetPaymentDetailsRequest { payment_id: "\u{e9}".repeat(32) };
    assert_eq!(handle_get_payment_details_request(wide), Err(NodeError::InvalidPaymentId));
}

#[test]
fn a_payment_id_of_32_bytes_is_looked_up() {
    let text = "0123456789abcdef0123456789abcdef";
    let request = protos::GetPaymentDetailsRequest { payment_id: text.to_string() };
    let mut id = [0u8; 32];
    id.copy_from_slice(text.as_bytes());
    assert_eq!(
        route(Network::Regtest, "/getPaymentDetails", &encode(&request)),
        Step::Invoke { operation: Operation::GetPaymentDetails, call: NodeCall::Payment { id } }
    );
    let wide = protos::GetPaymentDetailsRequest { payment_id: "\u{e9}".repeat(16) };
    assert!(handle_get_payment_details_request(wide).is_ok());
}

#[test]
fn an_invalid_address_is_a_server_error_with_the_nodes_words() {
    for address in ["", "not an address", "bc1qinvalid"] {
        let request =
            protos::OnchainSendRequest { address: address.to_string(), amount_sats: Some(1) };
        let step = route(Network::Regtest, "/onchain/send", &encode(&request));
        server_error(step, "The given address is invalid.");
    }
    assert_eq!(ldk_node::NodeError::InvalidAddress.to_string(), "The given address is invalid.");
}

#[test]
fn an_address_of_another_network_is_invalid() {
    let request = protos::OnchainSendRequest {
        address: address_on(ChainNetwork::Bitcoin),
        amount_sats: None,
    };
    server_error(
        route(Network::Regtest, "/onchain/send", &encode(&request)),
        "The given address is invalid.",
    );
    assert!(matches!(
        route(Network::Bitcoin, "/onchain/send", &encode(&request)),
        Step::Invoke { .. }
    ));
}

#[test]
fn a_valid_address_is_paid_the_amount_or_everything() {
    let address = address_on(ChainNetwork::Regtest);
    let some = protos::OnchainSendRequest { address: address.clone(), amount_sats: Some(10_000) };
    assert_eq!(
        route(Network::Regtest, "/onchain/send", &encode(&some)),
        Step::Invoke {
            operation: Operation::OnchainSend,
            call: NodeCall::SendToAddress { address: address.clone(), amount_sats: 10_000 },
        }
    );
    let all = protos::OnchainSendRequest { address: address.clone(), amount_sats: None };
    assert_eq!(
        route(Network::Regtest, "/onchain/send", &encode(&all)),
        Step::Invoke {
            operation: Operation::OnchainSend,
            call: NodeCall::SendAllToAddress { address },
        }
    );
}

#[test]
fn an_invoice_is_paid_as_it_says_or_with_an_amount() {
    let plain = protos::Bolt11SendRequest { invoice: INVOICE.to_string(), amount_msat: None };
    assert_eq!(
        route(Network::Bitcoin, "/bolt11/send", &encode(&plain)),
        Step::Invoke {
            operation: Operation::Bolt11Send,
            call: NodeCall::Bolt11Send { invoice: INVOICE.to_string() },
        }
    );
    let amount = protos::Bolt11SendRequest { invoice: INVOICE.to_string(), amount_msat: Some(7) };
    assert_eq!(
        route(Network::Bitcoin, "/bolt11/send", &encode(&amount)),
        Step::Invoke {
            operation: Operation::Bolt11Send,
            call: NodeCall::Bolt11SendUsingAmount { invoice: INVOICE.to_string(), amount_msat: 7 },
        }
    );
    let broken = protos::Bolt11SendRequest {
        invoice: INVOICE[..INVOICE.len() - 1].to_string(),
        amount_msat: None,
    };
    server_error(
        route(Network::Bitcoin, "/bolt11/send", &encode(&broken)),
        "The given invoice is invalid.",
    );
}

#[test]
fn an_offer_is_made_for_an_amount_or_for_any() {
    let any = protos::Bolt12ReceiveRequest { description: "tea".to_string(), amount_msat: None };
    assert_eq!(
        route(Network::Bitcoin, "/bolt12/receive", &encode(&any)),
        Step::Invoke {
            operation: Operation::Bolt12Receive,
            call: NodeCall::Bolt12ReceiveVariableAmount { description: "tea".to_string() },
        }
    );
    let some = protos::Bolt12ReceiveRequest { description: "tea".to_string(), amount_msat: Some(5) };
    assert_eq!(
        route(Network::Bitcoin, "/bolt12/receive", &encode(&some)),
        Step::Invoke {
            operation: Operation::Bolt12Receive,
            call: NodeCall::Bolt12Receive { amount_msat: 5, description: "tea".to_string() },
        }
    );
}

#[test]
fn an_offer_is_paid_with_its_note() {
    let offer = OfferBuilder::new(key()).build().unwrap().to_string();
    let plain = protos::Bolt12SendRequest {
        offer: offer.clone(),
        amount_msat: None,
        payer_note: Some("hi".to_string()),
    };
    assert_eq!(
        route(Network::Bitcoin, "/bolt12/send", &encode(&plain)),
        Step::Invoke {
            operation: Operation::Bolt12Send,
            call: NodeCall::Bolt12Send { offer: offer.clone(), payer_note: Some("hi".to_string()) },
        }
    );
    let amount =
        protos::Bolt12SendRequest { offer: offer.clone(), amount_msat: Some(9), payer_note: None };
    assert_eq!(
        route(Network::Bitcoin, "/bolt12/send", &encode(&amount)),
        Step::Invoke {
            operation: Operation::Bolt12Send,
            call: NodeCall::Bolt12SendUsingAmount { offer, payer_note: None, amount_msat: 9 },
        }
    );
    let broken = protos::Bolt12SendRequest {
        offer: "lno1nonsense".to_string(),
        amount_msat: None,
        payer_note: None,
    };
    server_error(
        route(Network::Bitcoin, "/bolt12/send", &encode(&broken)),
        "The given invoice is invalid.",
    );
}

#[test]
fn a_channel_is_opened_to_a_readable_peer() {
    let request = protos::OpenChannelRequest {
        node_id: KEY.to_string(),
        address: "localhost:3042".to_string(),
        channel_amount_sats: 100_000,
        push_to_counterparty_msat: None,
        announce_channel: true,
    };
    assert_eq!(
        route(Network::Regtest, "/channel/open", &encode(&request)),
        Step::Invoke {
            operation: Operation::OpenChannel,
            call: NodeCall::ConnectOpenChannel {
                node_id: NodeId::parse(KEY).unwrap(),
                address: "localhost:3042".to_string(),
                channel_amount_sats: 100_000,
                push_to_counterparty_msat: None,
                announce_channel: true,
            },
        }
    );
    let bad_key = protos::OpenChannelRequest { node_id: "02".to_string(), ..request.clone() };
    server_error(
        route(Network::Regtest, "/channel/open", &encode(&bad_key)),
        "The given node id is invalid.",
    );
    let bad_address = protos::OpenChannelRequest { address: "nowhere".to_string(), ..request };
    server_error(
        route(Network::Regtest, "/channel/open", &encode(&bad_address)),
        "The given network address is invalid.",
    );
    let both = protos::OpenChannelRequest {
        node_id: String::new(),
        address: String::new(),
        channel_amount_sats: 0,
        push_to_counterparty_msat: None,
        announce_channel: false,
    };
    server_error(
        route(Network::Regtest, "/channel/open", &encode(&both)),
        "The given node id is invalid.",
    );
}

#[test]
fn a_channel_is_closed_by_its_sixteen_bytes() {
    let id: u128 = 0x0102_0304_0506_0708_090a_0b0c_0d0e_0f10;
    let request = protos::CloseChannelRequest {
        user_channel_id: id.to_be_bytes().to_vec(),
        counterparty_node_id: KEY.to_string(),
    };
    assert_eq!(
        route(Network::Regtest, "/channel/close", &encode(&request)),
        Step::Invoke {
            operation: Operation::CloseChannel,
            call: NodeCall::CloseChannel {
                user_channel_id: id,
                counterparty_node_id: NodeId::parse(KEY).unwrap(),
            },
        }
    );
    let force = protos::ForceCloseChannelRequest {
        user_channel_id: id.to_be_bytes().to_vec(),
        counterparty_node_id: KEY.to_string(),
    };
    assert_eq!(
        route(Network::Regtest, "/channel/force-close", &encode(&force)),
        Step::Invoke {
            operation: Operation::ForceCloseChannel,
            call: NodeCall::ForceCloseChannel {
                user_channel_id: id,
                counterparty_node_id: NodeId::parse(KEY).unwrap(),
            },
        }
    );
}

#[test]
fn a_channel_id_of_the_wrong_length_is_turned_down() {
    for length in [0usize, 15, 17, 32] {
        let request = protos::CloseChannelRequest {
            user_channel_id: vec![1; length],
            counterparty_node_id: KEY.to_string(),
        };
        server_error(
            route(Network::Regtest, "/channel/close", &encode(&request)),
            "The given channel ID is invalid.",
        );
        let force = protos::ForceCloseChannelRequest {
            user_channel_id: vec![1; length],
            counterparty_node_id: "nobody".to_string(),
        };
        server_error(
            route(Network::Regtest, "/channel/force-close", &encode(&force)),
            "The given channel ID is invalid.",
        );
    }
    let request = protos::CloseChannelRequest {
        user_channel_id: vec![1; 16],
        counterparty_node_id: "nobody".to_string(),
    };
    server_error(
        route(Network::Regtest, "/channel/close", &encode(&request)),
        "The given node id is invalid.",
    );
}

#[test]
fn the_words_of_each_error_are_the_nodes() {
    let table = [
        (NodeError::InvalidAddress, ldk_node::NodeError::InvalidAddress),
        (NodeError::InvalidSocketAddress, ldk_node::NodeError::InvalidSocketAddress),
        (NodeError::InvalidNodeId, ldk_node::NodeError::InvalidNodeId),
        (NodeError::InvalidPaymentId, ldk_node::NodeError::InvalidPaymentId),
        (NodeError::InvalidInvoice, ldk_node::NodeError::InvalidInvoice),
        (NodeError::InvalidChannelId, ldk_node::NodeError::InvalidChannelId),
    ];
    for (ours, theirs) in table {
        assert_eq!(ours.message(), theirs.to_string());
    }
    assert_eq!(NodeError::InvalidNodeId.message(), "The given node id is invalid.");
}

#[test]
fn a_failure_of_the_node_is_a_server_error_with_its_words() {
    let text = ldk_node::NodeError::InsufficientFunds.to_string();
    for operation in [Operation::OnchainSend, Operation::GetNodeId, Operation::CloseChannel] {
        let reply = complete(operation, NodeOutcome::Failed(text.clone()));
        assert_eq!(
            reply,
            Reply {
                status: 500,
                body: b"The available funds are insufficient to complete the given operation."
                    .to_vec()
            }
        );
    }
}

#[test]
fn what_the_node_gives_is_sent_with_a_success_status() {
    let id = NodeId::parse(KEY).unwrap();
    let reply = complete(Operation::GetNodeId, NodeOutcome::NodeId(id));
    assert_eq!(reply.status, 200);
    assert_eq!(
        decode::<protos::GetNodeIdResponse>(&reply.body),
        Some(protos::GetNodeIdResponse { node_id: KEY.to_string() })
    );

    let status = NodeStatus {
        is_running: true,
        is_listening: false,
        current_best_block: BestBlock { block_hash: [3; 32], height: 9 },
        latest_wallet_sync_timestamp: None,
        latest_onchain_wallet_sync_timestamp: Some(2),
        latest_fee_rate_cache_update_timestamp: None,
        latest_rgs_snapshot_timestamp: None,
        latest_node_announcement_broadcast_timestamp: None,
    };
    let reply = complete(Operation::GetNodeStatus, NodeOutcome::Status { node_id: id, status });
    assert_eq!(reply, Reply { status: 200, body: encode(&to_node_status_proto(&id, &status)) });

    let reply = complete(Operation::OnchainReceive, NodeOutcome::Address("bcrt1qxyz".to_string()));
    assert_eq!(
        reply,
        Reply {
            status: 200,
            body: encode(&protos::OnchainReceiveResponse { address: "bcrt1qxyz".to_string() })
        }
    );

    let mut txid = [0u8; 32];
    txid[0] = 0xab;
    txid[31] = 0x01;
    let reply = complete(Operation::OnchainSend, NodeOutcome::Txid(txid));
    let response: protos::OnchainSendResponse = decode(&reply.body).unwrap();
    assert_eq!(response.txid, format!("01{}ab", "00".repeat(30)));

    let reply = complete(Operation::Bolt12Receive, NodeOutcome::Offer("lno1".to_string()));
    assert_eq!(
        decode::<protos::Bolt12ReceiveResponse>(&reply.body),
        Some(protos::Bolt12ReceiveResponse { offer: "lno1".to_string() })
    );

    for operation in [Operation::Bolt11Send, Operation::Bolt12Send] {
        let reply = complete(operation, NodeOutcome::PaymentId([7; 32]));
        assert_eq!(reply.status, 200);
        assert_eq!(
            decode::<protos::Bolt11SendResponse>(&reply.body),
            Some(protos::Bolt11SendResponse {
                payment_id: Some(protos::PaymentId { data: vec![7; 32] })
            })
        );
    }

    let id: u128 = 0x0102_0304_0506_0708_090a_0b0c_0d0e_0f10;
    let reply = complete(Operation::OpenChannel, NodeOutcome::UserChannelId(id));
    assert_eq!(
        decode::<protos::OpenChannelResponse>(&reply.body),
        Some(protos::OpenChannelResponse {
            user_channel_id: vec![1, 2, 3, 4, 5, 6, 7, 8, 9, 10, 11, 12, 13, 14, 15, 16]
        })
    );

    assert_eq!(
        complete(Operation::CloseChannel, NodeOutcome::ChannelClosed),
        Reply { status: 200, body: vec![] }
    );
    assert_eq!(
        complete(Operation::ForceCloseChannel, NodeOutcome::ChannelClosed),
        Reply { status: 200, body: vec![] }
    );
    assert_eq!(
        complete(Operation::ListChannels, NodeOutcome::Channels(vec![])),
        Reply { status: 200, body: vec![] }
    );
    assert_eq!(
        complete(Operation::PaymentsHistory, NodeOutcome::Payments(vec![])),
        Reply { status: 200, body: vec![] }
    );
}

#[test]
fn a_payment_that_the_node_knows_is_sent_and_one_it_does_not_is_an_error() {
    let payment = PaymentDetails {
        id: [9; 32],
        kind: PaymentKind::Onchain,
        amount_msat: Some(1),
        direction: PaymentDirection::Inbound,
        status: PaymentStatus::Succeeded,
        latest_update_timestamp: 5,
    };
    let reply = complete(Operation::GetPaymentDetails, NodeOutcome::Payment(Some(payment)));
    assert_eq!(reply, Reply { status: 200, body: encode(&to_payment_details_proto(&payment)) });
    let reply = complete(Operation::GetPaymentDetails, NodeOutcome::Payment(None));
    assert_eq!(reply, Reply { status: 500, body: b"The given payment id is invalid.".to_vec() });
}

#[test]
fn balances_that_cannot_be_reported_are_a_server_error() {
    let details = BalanceDetails {
        total_onchain_balance_sats: 1,
        spendable_onchain_balance_sats: 1,
        total_anchor_channels_reserve_sats: 0,
        total_lightning_balance_sats: 0,
        lightning_balances: vec![],
        pending_balances_from_channel_closures: vec![PendingSweepBalance::PendingBroadcast {
            channel_id: None,
            amount_satoshis: 1,
        }],
    };
    let reply = complete(Operation::GetNodeBalances, NodeOutcome::Balances(details.clone()));
    assert_eq!(reply.status, 500);
    assert_eq!(reply.body, b"A pending sweep that is not yet broadcast has no channel.".to_vec());
    let fine = BalanceDetails { pending_balances_from_channel_closures: vec![], ..details };
    let reply = complete(Operation::GetNodeBalances, NodeOutcome::Balances(fine));
    assert_eq!(reply.status, 200);
    assert_eq!(
        decode::<protos::GetBalancesResponse>(&reply.body).unwrap().total_onchain_balance_sats,
        1
    );
}

#[test]
fn an_outcome_of_another_operation_is_a_server_error() {
    let reply = complete(Operation::GetNodeId, NodeOutcome::ChannelClosed);
    assert_eq!(
        reply,
        Reply { status: 500, body: b"The node's answer does not fit the request.".to_vec() }
    );
    let reply = complete(Operation::OnchainSend, NodeOutcome::Invoice("x".to_string()));
    assert_eq!(reply.status, 500);
}

#[test]
fn settings_are_kept_where_address_and_level_are_good() {
    assert_eq!(
        Config::new(
            "localhost:3000".to_string(),
            "localhost:3001".to_string(),
            "info",
            Network::Regtest
        ),
        Ok(Config {
            esplora_server_url: "localhost:3000".to_string(),
            listening_addr: "localhost:3001".to_string(),
            log_level: LogLevel::Info,
            network: Network::Regtest,
        })
    );
    for (name, level) in [
        ("gossip", LogLevel::Gossip),
        ("TRACE", LogLevel::Trace),
        ("Debug", LogLevel::Debug),
        ("iNfO", LogLevel::Info),
        ("warn", LogLevel::Warn),
        ("ERROR", LogLevel::Error),
    ] {
        let config =
            Config::new("e".to_string(), "127.0.0.1:9735".to_string(), name, Network::Bitcoin);
        assert_eq!(config.unwrap().log_level, level);
    }
    assert_eq!(
        Config::new("e".to_string(), "127.0.0.1:9735".to_string(), "loud", Network::Bitcoin),
        Err(ConfigError::UnsupportedLogLevel("loud".to_string()))
    );
    assert_eq!(
        Config::new("e".to_string(), "nowhere".to_string(), "loud", Network::Bitcoin),
        Err(ConfigError::InvalidListeningAddress("nowhere".to_string()))
    );
}
