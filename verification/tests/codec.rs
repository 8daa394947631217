use node_gateway::codec::field::{put_bytes, put_key, put_scalar, read_field, Wire};
use node_gateway::codec::message::{decode, encode, merge, Message};
use node_gateway::protos::lightning_balance;
use node_gateway::protos::payment_kind;
use node_gateway::protos::{
    BestBlock, Bolt11, Bolt11ReceiveRequest, Bolt11SendRequest, Bolt12SendRequest, Channel,
    ClaimableOnChannelClose, CloseChannelRequest, ContentiousClaimable, GetBalancesResponse,
    GetNodeIdRequest, GetNodeStatusResponse, GetPaymentDetailsRequest, LightningBalance, Onchain,
    OnchainSendRequest, OpenChannelRequest, Outpoint, PaymentDetails, PaymentId, PaymentKind,
    PaymentsHistoryResponse, PendingSweepBalance,
};

fn round_trip<M: Message + Clone + PartialEq + std::fmt::Debug>(message: M) {
    let bytes = encode(&message);
    let back: Option<M> = decode(&bytes);
    assert_eq!(back, Some(message));
}

#[test]
fn bolt11_receive_request_has_the_bytes_of_its_fields() {
    let request = Bolt11ReceiveRequest {
        description: "desc".to_string(),
        expiry_secs: 10,
        amount_msat: None,
    };
    let bytes = encode(&request);
    assert_eq!(bytes, vec![0x0a, 0x04, b'd', b'e', b's', b'c', 0x10, 0x0a]);
    let back: Option<Bolt11ReceiveRequest> = decode(&bytes);
    assert_eq!(back, Some(request));
}

#[test]
fn bytes_agree_with_the_field_encoders_of_prost() {
    let request = OpenChannelRequest {
        node_id: "02abc".to_string(),
        address: "127.0.0.1:9735".to_string(),
        channel_amount_sats: 100_000,
        push_to_counterparty_msat: Some(0),
        announce_channel: true,
    };
    let mut expected: Vec<u8> = Vec::new();
    prost::encoding::string::encode(1, &request.node_id, &mut expected);
    prost::encoding::string::encode(2, &request.address, &mut expected);
    prost::encoding::uint64::encode(3, &request.channel_amount_sats, &mut expected);
    prost::encoding::uint64::encode(4, &0u64, &mut expected);
    prost::encoding::bool::encode(5, &true, &mut expected);
    assert_eq!(encode(&request), expected);
}

#[test]
fn a_large_integer_takes_ten_bytes_and_comes_back() {
    let request = OnchainSendRequest { address: "a".to_string(), amount_sats: Some(u64::MAX) };
    let bytes = encode(&request);
    let mut expected = vec![0x0a, 0x01, b'a', 0x10];
    expected.extend_from_slice(&[0xff, 0xff, 0xff, 0xff, 0xff, 0xff, 0xff, 0xff, 0xff, 0x01]);
    assert_eq!(bytes, expected);
    round_trip(request);
}

#[test]
fn three_hundred_is_two_bytes() {
    let mut out: Vec<u8> = Vec::new();
    put_scalar(1, 300, &mut out);
    assert_eq!(out, vec![0x08, 0xac, 0x02]);
    let (field, next) = read_field(&out, 0).unwrap();
    assert_eq!(field.number, 1);
    assert_eq!(field.wire, Wire::Varint);
    assert_eq!(field.scalar, 300);
    assert_eq!(next, 3);
}

#[test]
fn a_key_holds_number_and_form() {
    let mut out: Vec<u8> = Vec::new();
    put_key(21, Wire::Varint, &mut out);
    assert_eq!(out, vec![0xa8, 0x01]);
    let mut out: Vec<u8> = Vec::new();
    put_key(0x1fff_ffff, Wire::Len, &mut out);
    assert_eq!(out, vec![0xfa, 0xff, 0xff, 0xff, 0x0f]);
}

#[test]
fn a_bytes_field_is_read_where_it_stands() {
    let mut out: Vec<u8> = vec![0xee];
    put_bytes(3, &[1, 2, 3], &mut out);
    assert_eq!(out, vec![0xee, 0x1a, 0x03, 1, 2, 3]);
    let (field, next) = read_field(&out, 1).unwrap();
    assert_eq!(field.number, 3);
    assert_eq!(field.wire, Wire::Len);
    assert_eq!(field.bytes, &[1u8, 2, 3][..]);
    assert_eq!(next, 6);
    assert!(read_field(&out, 0).is_none());
}

#[test]
fn defaults_are_left_out_and_present_zeros_are_written() {
    let plain = OnchainSendRequest { address: String::new(), amount_sats: None };
    assert_eq!(encode(&plain), Vec::<u8>::new());
    let zero = OnchainSendRequest { address: String::new(), amount_sats: Some(0) };
    assert_eq!(encode(&zero), vec![0x10, 0x00]);
    round_trip(plain);
    round_trip(zero);
}

#[test]
fn every_request_comes_back_with_optionals_present_and_absent() {
    round_trip(GetNodeIdRequest {});
    for amount in [None, Some(0), Some(1), Some(21_000_000)] {
        round_trip(OnchainSendRequest { address: "bcrt1q".to_string(), amount_sats: amount });
        round_trip(Bolt11ReceiveRequest {
            description: "two coffees".to_string(),
            expiry_secs: 3600,
            amount_msat: amount,
        });
        round_trip(Bolt11SendRequest { invoice: "lnbc1".to_string(), amount_msat: amount });
        for note in [None, Some(String::new()), Some("thanks".to_string())] {
            round_trip(Bolt12SendRequest {
                offer: "lno1".to_string(),
                amount_msat: amount,
                payer_note: note,
            });
        }
        round_trip(OpenChannelRequest {
            node_id: "02".to_string(),
            address: "host:1".to_string(),
            channel_amount_sats: 5,
            push_to_counterparty_msat: amount,
            announce_channel: amount.is_some(),
        });
    }
    round_trip(GetPaymentDetailsRequest { payment_id: "0123456789abcdef0123456789abcdef".into() });
    round_trip(CloseChannelRequest {
        user_channel_id: vec![0; 16],
        counterparty_node_id: "02".to_string(),
    });
}

#[test]
fn text_outside_ascii_comes_back() {
    round_trip(Bolt11ReceiveRequest {
        description: "caf\u{e9} \u{20ac}5 \u{1f600}".to_string(),
        expiry_secs: 1,
        amount_msat: None,
    });
}

#[test]
fn a_truncated_body_is_refused() {
    let request = Bolt11ReceiveRequest {
        description: "desc".to_string(),
        expiry_secs: 10,
        amount_msat: Some(5),
    };
    let bytes = encode(&request);
    for cut in [1, 2, 5, 7, 9] {
        let back: Option<Bolt11ReceiveRequest> = decode(&bytes[..cut]);
        assert_eq!(back, None, "cut at {}", cut);
    }
    let whole: Option<Bolt11ReceiveRequest> = decode(&bytes[..6]);
    assert_eq!(
        whole,
        Some(Bolt11ReceiveRequest {
            description: "desc".to_string(),
            expiry_secs: 0,
            amount_msat: None
        })
    );
}

#[test]
fn text_that_is_not_utf8_is_refused() {
    let back: Option<Bolt11ReceiveRequest> = decode(&[0x0a, 0x02, 0xff, 0xfe]);
    assert_eq!(back, None);
}

#[test]
fn a_payload_of_the_wrong_form_is_refused() {
    let back: Option<Bolt11ReceiveRequest> = decode(&[0x08, 0x01]);
    assert_eq!(back, None);
    let back: Option<Bolt11ReceiveRequest> = decode(&[0x12, 0x01, 0x00]);
    assert_eq!(back, None);
}

#[test]
fn an_unknown_field_is_passed_over() {
    let bytes = vec![
        0x0a, 0x01, b'x', // description
        0x60, 0x07, // field 12, an integer
        0x6a, 0x02, 0xff, 0xff, // field 13, bytes
        0x71, 1, 2, 3, 4, 5, 6, 7, 8, // field 14, eight bytes
        0x7d, 1, 2, 3, 4, // field 15, four bytes
        0x10, 0x09, // expiry
    ];
    let back: Option<Bolt11ReceiveRequest> = decode(&bytes);
    assert_eq!(
        back,
        Some(Bolt11ReceiveRequest {
            description: "x".to_string(),
            expiry_secs: 9,
            amount_msat: None
        })
    );
}

#[test]
fn keys_that_no_field_can_have_are_refused() {
    let zero: Option<GetNodeIdRequest> = decode(&[0x00, 0x00]);
    assert_eq!(zero, None);
    let group: Option<GetNodeIdRequest> = decode(&[0x0b, 0x0c]);
    assert_eq!(group, None);
    let form_six: Option<GetNodeIdRequest> = decode(&[0x0e]);
    assert_eq!(form_six, None);
    let wide: Option<GetNodeIdRequest> = decode(&[0x80, 0x80, 0x80, 0x80, 0x10, 0x00]);
    assert_eq!(wide, None);
}

#[test]
fn an_integer_of_more_than_ten_bytes_is_refused() {
    let mut bytes = vec![0x10];
    bytes.extend_from_slice(&[0x80; 10]);
    bytes.push(0x01);
    let back: Option<OnchainSendRequest> = decode(&bytes);
    assert_eq!(back, None);
    let overflow = vec![0x10, 0xff, 0xff, 0xff, 0xff, 0xff, 0xff, 0xff, 0xff, 0xff, 0x02];
    let back: Option<OnchainSendRequest> = decode(&overflow);
    assert_eq!(back, None);
    let padded = vec![0x10, 0x85, 0x80, 0x00];
    let back: Option<OnchainSendRequest> = decode(&padded);
    assert_eq!(back, Some(OnchainSendRequest { address: String::new(), amount_sats: Some(5) }));
}

#[test]
fn the_reader_agrees_with_prost_on_integers() {
    for value in [0u64, 1, 127, 128, 300, 1 << 32, u64::MAX - 1, u64::MAX] {
        let mut bytes: Vec<u8> = Vec::new();
        prost::encoding::encode_varint(value, &mut bytes);
        let mut framed = vec![0x10];
        framed.extend_from_slice(&bytes);
        let back: Option<OnchainSendRequest> = decode(&framed);
        assert_eq!(back.unwrap().amount_sats, Some(value));
    }
}

#[test]
fn the_last_of_a_repeated_scalar_field_stands() {
    let back: Option<OnchainSendRequest> = decode(&[0x10, 0x01, 0x10, 0x02]);
    assert_eq!(back, Some(OnchainSendRequest { address: String::new(), amount_sats: Some(2) }));
}

#[test]
fn a_32_bit_field_keeps_the_low_bits() {
    let back: Option<BestBlock> = decode(&[0x10, 0x81, 0x80, 0x80, 0x80, 0x10]);
    assert_eq!(back, Some(BestBlock { block_hash: String::new(), height: 1 }));
}

#[test]
fn a_flag_is_set_by_any_integer_but_zero() {
    let back: Option<OpenChannelRequest> = decode(&[0x28, 0x07]);
    assert!(back.unwrap().announce_channel);
    let back: Option<OpenChannelRequest> = decode(&[0x28, 0x00]);
    assert!(!back.unwrap().announce_channel);
}

#[test]
fn a_nested_message_sent_twice_is_merged() {
    let mut first: Vec<u8> = Vec::new();
    put_bytes(2, &encode(&BestBlock { block_hash: "aa".to_string(), height: 0 }), &mut first);
    put_bytes(2, &encode(&BestBlock { block_hash: String::new(), height: 7 }), &mut first);
    let back: Option<GetNodeStatusResponse> = decode(&first);
    assert_eq!(
        back.unwrap().current_best_block,
        Some(BestBlock { block_hash: "aa".to_string(), height: 7 })
    );
}

#[test]
fn merging_takes_fields_on_top_of_what_is_held() {
    let mut held =
        BestBlock { block_hash: "aa".to_string(), height: 3 };
    assert!(merge(&mut held, &[0x10, 0x09]));
    assert_eq!(held, BestBlock { block_hash: "aa".to_string(), height: 9 });
}

#[test]
fn an_envelope_writes_the_one_payload_under_its_own_number() {
    let inner = ClaimableOnChannelClose {
        channel_id: "ab".to_string(),
        counterparty_node_id: "cd".to_string(),
        amount_satoshis: 1,
    };
    let envelope = LightningBalance {
        balance_type: Some(lightning_balance::BalanceType::ClaimableOnChannelClose(inner.clone())),
    };
    let mut expected: Vec<u8> = Vec::new();
    put_bytes(1, &encode(&inner), &mut expected);
    assert_eq!(encode(&envelope), expected);
    round_trip(envelope);

    let contentious = LightningBalance {
        balance_type: Some(lightning_balance::BalanceType::ContentiousClaimable(
            ContentiousClaimable {
                channel_id: "ab".to_string(),
                counterparty_node_id: "cd".to_string(),
                amount_satoshis: 1,
                timeout_height: 2,
                payment_hash: "ef".to_string(),
                payment_preimage: "01".to_string(),
            },
        )),
    };
    assert_eq!(encode(&contentious)[0], 0x1a);
    round_trip(contentious);
}

#[test]
fn an_empty_payload_is_still_written() {
    let envelope = PaymentKind { kind: Some(payment_kind::Kind::Onchain(Onchain {})) };
    assert_eq!(encode(&envelope), vec![0x0a, 0x00]);
    round_trip(envelope);
    round_trip(PaymentKind { kind: None });
    round_trip(PendingSweepBalance { balance_type: None });
}

#[test]
fn a_later_payload_of_another_kind_replaces_the_earlier() {
    let bolt11 = Bolt11 { hash: "aa".to_string(), preimage: None, secret: Some(vec![1, 2]) };
    let mut bytes: Vec<u8> = Vec::new();
    put_bytes(1, &[], &mut bytes);
    put_bytes(2, &encode(&bolt11), &mut bytes);
    let back: Option<PaymentKind> = decode(&bytes);
    assert_eq!(back, Some(PaymentKind { kind: Some(payment_kind::Kind::Bolt11(bolt11)) }));
}

#[test]
fn lists_keep_their_order() {
    let payment = |stamp: u64, direction: i32| PaymentDetails {
        id: Some(PaymentId { data: vec![stamp as u8; 32] }),
        kind: Some(PaymentKind { kind: Some(payment_kind::Kind::Onchain(Onchain {})) }),
        amount_msat: Some(stamp),
        direction,
        status: 2,
        latest_update_timestamp: stamp,
    };
    round_trip(PaymentsHistoryResponse {
        payments: vec![payment(3, 0), payment(1, 1), payment(2, -1)],
    });
    round_trip(PaymentsHistoryResponse { payments: vec![] });
    round_trip(GetBalancesResponse {
        total_onchain_balance_sats: 1,
        spendable_onchain_balance_sats: 2,
        total_anchor_channels_reserve_sats: 3,
        total_lightning_balance_sats: 4,
        lightning_balances: vec![LightningBalance { balance_type: None }],
        pending_balances_from_channel_closures: vec![],
    });
}

#[test]
fn a_negative_enumeration_number_takes_ten_bytes() {
    let details = PaymentDetails {
        id: None,
        kind: None,
        amount_msat: None,
        direction: -1,
        status: 0,
        latest_update_timestamp: 0,
    };
    let mut expected: Vec<u8> = Vec::new();
    prost::encoding::int32::encode(4, &-1, &mut expected);
    assert_eq!(encode(&details), expected);
    assert_eq!(expected.len(), 11);
    round_trip(details);
}

#[test]
fn a_channel_with_every_field_comes_back() {
    let channel = Channel {
        channel_id: "11".repeat(32),
        counterparty_node_id: "02".repeat(33),
        funding_txo: Some(Outpoint { txid: "33".repeat(32), vout: 1 }),
        channel_value_sats: 100_000,
        feerate_sat_per_1000_weight: 253,
        outbound_capacity_msat: 1,
        inbound_capacity_msat: 2,
        confirmations_required: Some(6),
        confirmations: Some(0),
        is_outbound: true,
        is_channel_ready: false,
        is_usable: true,
        is_public: false,
        cltv_expiry_delta: Some(65_535),
        counterparty_outbound_htlc_minimum_msat: None,
        counterparty_outbound_htlc_maximum_msat: Some(u64::MAX),
        next_outbound_htlc_limit_msat: 3,
        next_outbound_htlc_minimum_msat: 4,
        force_close_spend_delay: None,
        forwarding_fee_proportional_millionths: 5,
        forwarding_fee_base_msat: 6,
    };
    let bytes = encode(&channel);
    let mut tail: Vec<u8> = Vec::new();
    prost::encoding::uint32::encode(20, &5, &mut tail);
    prost::encoding::uint32::encode(21, &6, &mut tail);
    assert!(bytes.ends_with(&tail));
    round_trip(channel);
}

#[test]
fn the_blank_message_has_every_field_at_its_default() {
    let blank = OpenChannelRequest::fresh();
    assert_eq!(
        blank,
        OpenChannelRequest {
            node_id: String::new(),
            address: String::new(),
            channel_amount_sats: 0,
            push_to_counterparty_msat: None,
            announce_channel: false,
        }
    );
    let empty: Option<OpenChannelRequest> = decode(&[]);
    assert_eq!(empty, Some(blank));
}

/// The request for an invoice as prost would hold it, with the trait
/// written out by hand.
#[derive(Debug, Default, PartialEq)]
struct ProstBolt11ReceiveRequest {
    description: String,
    expiry_secs: u32,
    amount_msat: Option<u64>,
}

impl prost::Message for ProstBolt11ReceiveRequest {
    fn encode_raw<B: prost::bytes::BufMut>(&self, buf: &mut B) {
        if !self.description.is_empty() {
            prost::encoding::string::encode(1, &self.description, buf);
        }
        if self.expiry_secs != 0 {
            prost::encoding::uint32::encode(2, &self.expiry_secs, buf);
        }
        if let Some(value) = &self.amount_msat {
            prost::encoding::uint64::encode(3, value, buf);
        }
    }

    fn merge_field<B: prost::bytes::Buf>(
        &mut self,
        tag: u32,
        wire_type: prost::encoding::WireType,
        buf: &mut B,
        ctx: prost::encoding::DecodeContext,
    ) -> Result<(), prost::DecodeError> {
        match tag {
            1 => prost::encoding::string::merge(wire_type, &mut self.description, buf, ctx),
            2 => prost::encoding::uint32::merge(wire_type, &mut self.expiry_secs, buf, ctx),
            3 => prost::encoding::uint64::merge(
                wire_type,
                self.amount_msat.get_or_insert(0),
                buf,
                ctx,
            ),
            _ => prost::encoding::skip_field(wire_type, tag, buf, ctx),
        }
    }

    fn encoded_len(&self) -> usize {
        let mut len = 0;
        if !self.description.is_empty() {
            len += prost::encoding::string::encoded_len(1, &self.description);
        }
        if self.expiry_secs != 0 {
            len += prost::encoding::uint32::encoded_len(2, &self.expiry_secs);
        }
        if let Some(value) = &self.amount_msat {
            len += prost::encoding::uint64::encoded_len(3, value);
        }
        len
    }

    fn clear(&mut self) {
        self.description.clear();
        self.expiry_secs = 0;
        self.amount_msat = None;
    }
}

#[test]
fn prost_reads_what_is_written_here_and_the_other_way_round() {
    use_prost_both_ways("desc", 10, None);
    use_prost_both_ways("", 0, Some(0));
    use_prost_both_ways("caf\u{e9}", u32::MAX, Some(u64::MAX));
}

fn use_prost_both_ways(description: &str, expiry_secs: u32, amount_msat: Option<u64>) {
    let ours = Bolt11ReceiveRequest {
        description: description.to_string(),
        expiry_secs,
        amount_msat,
    };
    let theirs = ProstBolt11ReceiveRequest {
        description: description.to_string(),
        expiry_secs,
        amount_msat,
    };
    let written_here = encode(&ours);
    let written_there = prost::Message::encode_to_vec(&theirs);
    assert_eq!(written_here, written_there);
    let read_there: ProstBolt11ReceiveRequest =
        prost::Message::decode(written_here.as_slice()).unwrap();
    assert_eq!(read_there, theirs);
    let read_here: Option<Bolt11ReceiveRequest> = decode(&written_there);
    assert_eq!(read_here, Some(ours));
}

#[test]
fn prost_and_this_codec_refuse_the_same_broken_bodies() {
    let bodies: Vec<Vec<u8>> = vec![
        vec![0x0a],
        vec![0x0a, 0x05, b'a'],
        vec![0x0a, 0x01, 0xff],
        vec![0x08, 0x01],
        vec![0x10],
        vec![0x00, 0x00],
        vec![0x0e, 0x00],
        vec![0x10, 0x80, 0x80, 0x80, 0x80, 0x80, 0x80, 0x80, 0x80, 0x80, 0x02],
        vec![0x19, 1, 2, 3],
    ];
    for body in bodies {
        let there: Result<ProstBolt11ReceiveRequest, prost::DecodeError> =
            prost::Message::decode(body.as_slice());
        let here: Option<Bolt11ReceiveRequest> = decode(&body);
        assert!(there.is_err(), "{:?}", body);
        assert_eq!(here, None, "{:?}", body);
    }
    let fine: Vec<Vec<u8>> = vec![
        vec![],
        vec![0x10, 0x85, 0x80, 0x00],
        vec![0x10, 0x81, 0x80, 0x80, 0x80, 0x10],
        vec![0x18, 0xff, 0xff, 0xff, 0xff, 0xff, 0xff, 0xff, 0xff, 0xff, 0x01],
        vec![0x60, 0x07, 0x6a, 0x00, 0x10, 0x01, 0x10, 0x02],
    ];
    for body in fine {
        let there: ProstBolt11ReceiveRequest = prost::Message::decode(body.as_slice()).unwrap();
        let here: Bolt11ReceiveRequest = decode(&body).unwrap();
        assert_eq!(here.description, there.description, "{:?}", body);
        assert_eq!(here.expiry_secs, there.expiry_secs, "{:?}", body);
        assert_eq!(here.amount_msat, there.amount_msat, "{:?}", body);
    }
}

#[test]
fn rereading_gives_the_message_back() {
    let request = Bolt12SendRequest {
        offer: "lno1".to_string(),
        amount_msat: Some(0),
        payer_note: Some(String::new()),
    };
    assert_eq!(node_gateway::codec::message::reread(&request), request);
    let id = PaymentId { data: vec![0, 1, 2, 255] };
    assert_eq!(node_gateway::codec::message::reread(&id), id);
}
