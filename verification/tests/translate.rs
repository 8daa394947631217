use ldk_node::bitcoin::hashes::Hash as _;
use ldk_node::bitcoin::{BlockHash, Txid};
use ldk_node::lightning::ln::{ChannelId, PaymentHash, PaymentPreimage};
use node_gateway::codec::message::{decode, encode};
use node_gateway::ids::NodeId;
use node_gateway::node::{
    BalanceDetails, BestBlock, ChannelDetails, LSPFeeLimits, LightningBalance, NodeStatus,
    PaymentDetails, PaymentDirection, PaymentKind, PaymentStatus, PendingSweepBalance,
};
use node_gateway::protos;
use node_gateway::protos::lightning_balance::BalanceType as LightningType;
use node_gateway::protos::payment_kind::Kind;
use node_gateway::protos::pending_sweep_balance::BalanceType as SweepType;
use node_gateway::translate::{
    to_balances_proto, to_channel_proto, to_channels_proto, to_lightning_balance_proto,
    to_node_status_proto, to_payment_details_proto, to_payment_kind_proto,
    to_payments_history_proto, to_pending_sweep_balance_proto,
};

const KEY: &str = "027100442c3b79f606f80f322d98d499eefcb060599efc5d4ecb00209c2cb54190";

fn peer() -> NodeId {
    NodeId::parse(KEY).unwrap()
}

fn run(first: u8) -> [u8; 32] {
    let mut bytes = [0u8; 32];
    for (i, b) in bytes.iter_mut().enumerate() {
        *b = first.wrapping_add(i as u8);
    }
    bytes
}

fn hex(bytes: &[u8]) -> String {
    bytes.iter().map(|b| format!("{:02x}", b)).collect()
}

fn reversed_hex(bytes: &[u8]) -> String {
    bytes.iter().rev().map(|b| format!("{:02x}", b)).collect()
}

fn one_payload_and_back(envelope: &protos::LightningBalance) {
    assert!(envelope.balance_type.is_some());
    let back: Option<protos::LightningBalance> = decode(&encode(envelope));
    assert_eq!(back.as_ref(), Some(envelope));
}

#[test]
fn claimable_on_channel_close_goes_to_its_payload() {
    let wire = to_lightning_balance_proto(&LightningBalance::ClaimableOnChannelClose {
        channel_id: run(1),
        counterparty_node_id: peer(),
        amount_satoshis: 42,
    });
    assert_eq!(
        wire.balance_type,
        Some(LightningType::ClaimableOnChannelClose(protos::ClaimableOnChannelClose {
            channel_id: hex(&run(1)),
            counterparty_node_id: KEY.to_string(),
            amount_satoshis: 42,
        }))
    );
    one_payload_and_back(&wire);
}

#[test]
fn claimable_awaiting_confirmations_goes_to_its_payload() {
    let wire = to_lightning_balance_proto(&LightningBalance::ClaimableAwaitingConfirmations {
        channel_id: run(2),
        counterparty_node_id: peer(),
        amount_satoshis: 43,
        confirmation_height: 800_000,
    });
    assert_eq!(
        wire.balance_type,
        Some(LightningType::ClaimableAwaitingConfirmations(
            protos::ClaimableAwaitingConfirmations {
                channel_id: hex(&run(2)),
                counterparty_node_id: KEY.to_string(),
                amount_satoshis: 43,
                confirmation_height: 800_000,
            }
        ))
    );
    one_payload_and_back(&wire);
}

#[test]
fn contentious_claimable_goes_to_its_payload() {
    let wire = to_lightning_balance_proto(&LightningBalance::ContentiousClaimable {
        channel_id: run(3),
        counterparty_node_id: peer(),
        amount_satoshis: 44,
        timeout_height: 7,
        payment_hash: run(0x80),
        payment_preimage: run(0xf0),
    });
    assert_eq!(
        wire.balance_type,
        Some(LightningType::ContentiousClaimable(protos::ContentiousClaimable {
            channel_id: ChannelId(run(3)).to_string(),
            counterparty_node_id: KEY.to_string(),
            amount_satoshis: 44,
            timeout_height: 7,
            payment_hash: PaymentHash(run(0x80)).to_string(),
            payment_preimage: PaymentPreimage(run(0xf0)).to_string(),
        }))
    );
    match &wire.balance_type {
        Some(LightningType::ContentiousClaimable(inner)) => {
            assert_eq!(inner.payment_hash, hex(&run(0x80)));
            assert_eq!(inner.payment_preimage, hex(&run(0xf0)));
        },
        other => panic!("{:?}", other),
    }
    one_payload_and_back(&wire);
}

#[test]
fn maybe_timeout_claimable_htlc_goes_to_its_payload() {
    let wire = to_lightning_balance_proto(&LightningBalance::MaybeTimeoutClaimableHTLC {
        channel_id: run(4),
        counterparty_node_id: peer(),
        amount_satoshis: 45,
        claimable_height: 8,
        payment_hash: run(9),
    });
    assert_eq!(
        wire.balance_type,
        Some(LightningType::MaybeTimeoutClaimableHtlc(protos::MaybeTimeoutClaimableHtlc {
            channel_id: hex(&run(4)),
            counterparty_node_id: KEY.to_string(),
            amount_satoshis: 45,
            claimable_height: 8,
            payment_hash: hex(&run(9)),
        }))
    );
    one_payload_and_back(&wire);
}

#[test]
fn maybe_preimage_claimable_htlc_goes_to_its_payload() {
    let wire = to_lightning_balance_proto(&LightningBalance::MaybePreimageClaimableHTLC {
        channel_id: run(5),
        counterparty_node_id: peer(),
        amount_satoshis: 46,
        expiry_height: 9,
        payment_hash: run(10),
    });
    assert_eq!(
        wire.balance_type,
        Some(LightningType::MaybePreimageClaimableHtlc(protos::MaybePreimageClaimableHtlc {
            channel_id: hex(&run(5)),
            counterparty_node_id: KEY.to_string(),
            amount_satoshis: 46,
            expiry_height: 9,
            payment_hash: hex(&run(10)),
        }))
    );
    one_payload_and_back(&wire);
}

#[test]
fn counterparty_revoked_output_claimable_goes_to_its_payload() {
    let wire = to_lightning_balance_proto(&LightningBalance::CounterpartyRevokedOutputClaimable {
        channel_id: run(6),
        counterparty_node_id: peer(),
        amount_satoshis: 47,
    });
    assert_eq!(
        wire.balance_type,
        Some(LightningType::CounterpartyRevokedOutputClaimable(
            protos::CounterpartyRevokedOutputClaimable {
                channel_id: hex(&run(6)),
                counterparty_node_id: KEY.to_string(),
                amount_satoshis: 47,
            }
        ))
    );
    one_payload_and_back(&wire);
}

#[test]
fn two_kinds_with_the_same_fields_have_different_envelopes() {
    let open = to_lightning_balance_proto(&LightningBalance::ClaimableOnChannelClose {
        channel_id: run(1),
        counterparty_node_id: peer(),
        amount_satoshis: 1,
    });
    let revoked = to_lightning_balance_proto(&LightningBalance::CounterpartyRevokedOutputClaimable {
        channel_id: run(1),
        counterparty_node_id: peer(),
        amount_satoshis: 1,
    });
    assert_ne!(open, revoked);
    assert_ne!(encode(&open), encode(&revoked));
}

#[test]
fn a_pending_broadcast_with_its_channel_goes_to_its_payload() {
    let wire = to_pending_sweep_balance_proto(&PendingSweepBalance::PendingBroadcast {
        channel_id: Some(run(7)),
        amount_satoshis: 5,
    })
    .unwrap();
    assert_eq!(
        wire.balance_type,
        Some(SweepType::PendingBroadcast(protos::PendingBroadcast {
            channel_id: hex(&run(7)),
            amount_satoshis: 5,
        }))
    );
    let back: Option<protos::PendingSweepBalance> = decode(&encode(&wire));
    assert_eq!(back, Some(wire));
}

#[test]
fn a_pending_broadcast_without_a_channel_is_refused() {
    let wire = to_pending_sweep_balance_proto(&PendingSweepBalance::PendingBroadcast {
        channel_id: None,
        amount_satoshis: 5,
    });
    assert_eq!(wire, None);
}

#[test]
fn a_broadcast_awaiting_confirmation_goes_to_its_payload() {
    for channel_id in [None, Some(run(8))] {
        let wire =
            to_pending_sweep_balance_proto(&PendingSweepBalance::BroadcastAwaitingConfirmation {
                channel_id,
                latest_broadcast_height: 11,
                latest_spending_txid: run(0x20),
                amount_satoshis: 6,
            })
            .unwrap();
        assert_eq!(
            wire.balance_type,
            Some(SweepType::BroadcastAwaitingConfirmation(
                protos::BroadcastAwaitingConfirmation {
                    channel_id: channel_id.map(|id| hex(&id)),
                    latest_broadcast_height: 11,
                    latest_spending_txid: Txid::from_byte_array(run(0x20)).to_string(),
                    amount_satoshis: 6,
                }
            ))
        );
        let back: Option<protos::PendingSweepBalance> = decode(&encode(&wire));
        assert_eq!(back, Some(wire));
    }
}

#[test]
fn an_awaiting_threshold_confirmations_goes_to_its_payload() {
    for channel_id in [None, Some(run(9))] {
        let wire =
            to_pending_sweep_balance_proto(&PendingSweepBalance::AwaitingThresholdConfirmations {
                channel_id,
                latest_spending_txid: run(0x30),
                confirmation_hash: run(0x40),
                confirmation_height: 12,
                amount_satoshis: 7,
            })
            .unwrap();
        assert_eq!(
            wire.balance_type,
            Some(SweepType::AwaitingThresholdConfirmations(
                protos::AwaitingThresholdConfirmations {
                    channel_id: channel_id.map(|id| hex(&id)),
                    latest_spending_txid: reversed_hex(&run(0x30)),
                    confirmation_hash: BlockHash::from_byte_array(run(0x40)).to_string(),
                    confirmation_height: 12,
                    amount_satoshis: 7,
                }
            ))
        );
        match &wire.balance_type {
            Some(SweepType::AwaitingThresholdConfirmations(inner)) => {
                assert_eq!(inner.confirmation_hash, reversed_hex(&run(0x40)));
            },
            other => panic!("{:?}", other),
        }
        let back: Option<protos::PendingSweepBalance> = decode(&encode(&wire));
        assert_eq!(back, Some(wire));
    }
}

#[test]
fn every_kind_of_payment_goes_to_its_payload() {
    let limits = LSPFeeLimits {
        max_total_opening_fee_msat: Some(1000),
        max_proportional_opening_fee_ppm_msat: None,
    };
    let cases: Vec<(PaymentKind, Kind)> = vec![
        (PaymentKind::Onchain, Kind::Onchain(protos::Onchain {})),
        (
            PaymentKind::Bolt11 { hash: run(1), preimage: Some(run(2)), secret: Some(run(3)) },
            Kind::Bolt11(protos::Bolt11 {
                hash: hex(&run(1)),
                preimage: Some(hex(&run(2))),
                secret: Some(run(3).to_vec()),
            }),
        ),
        (
            PaymentKind::Bolt11 { hash: run(1), preimage: None, secret: None },
            Kind::Bolt11(protos::Bolt11 { hash: hex(&run(1)), preimage: None, secret: None }),
        ),
        (
            PaymentKind::Bolt11Jit {
                hash: run(4),
                preimage: None,
                secret: Some(run(5)),
                lsp_fee_limits: limits,
            },
            Kind::Bolt11Jit(protos::Bolt11Jit {
                hash: hex(&run(4)),
                preimage: None,
                secret: Some(run(5).to_vec()),
                lsp_fee_limits: Some(protos::LspFeeLimits {
                    max_total_opening_fee_msat: Some(1000),
                    max_proportional_opening_fee_ppm_msat: None,
                }),
            }),
        ),
        (
            PaymentKind::Bolt12Offer {
                hash: Some(run(6)),
                preimage: Some(run(7)),
                secret: None,
                offer_id: run(8),
            },
            Kind::Bolt12offer(protos::Bolt12Offer {
                hash: Some(hex(&run(6))),
                preimage: Some(hex(&run(7))),
                secret: None,
                offer_id: run(8).to_vec(),
            }),
        ),
        (
            PaymentKind::Bolt12Refund { hash: None, preimage: None, secret: Some(run(9)) },
            Kind::Bolt12refund(protos::Bolt12Refund {
                hash: None,
                preimage: None,
                secret: Some(run(9).to_vec()),
            }),
        ),
        (
            PaymentKind::Spontaneous { hash: run(10), preimage: Some(run(11)) },
            Kind::Spontaneous(protos::Spontaneous {
                hash: hex(&run(10)),
                preimage: Some(hex(&run(11))),
            }),
        ),
    ];
    for (kind, expected) in cases {
        let wire = to_payment_kind_proto(&kind);
        assert_eq!(wire.kind, Some(expected));
        let back: Option<protos::PaymentKind> = decode(&encode(&wire));
        assert_eq!(back, Some(wire));
    }
}

#[test]
fn the_record_of_a_payment_keeps_every_field() {
    let payment = PaymentDetails {
        id: run(0x55),
        kind: PaymentKind::Spontaneous { hash: run(1), preimage: None },
        amount_msat: Some(12_345),
        direction: PaymentDirection::Outbound,
        status: PaymentStatus::Failed,
        latest_update_timestamp: 1_700_000_000,
    };
    let wire = to_payment_details_proto(&payment);
    assert_eq!(wire.id, Some(protos::PaymentId { data: run(0x55).to_vec() }));
    assert_eq!(wire.kind, Some(to_payment_kind_proto(&payment.kind)));
    assert_eq!(wire.amount_msat, Some(12_345));
    assert_eq!(wire.direction, 1);
    assert_eq!(wire.status, 2);
    assert_eq!(wire.latest_update_timestamp, 1_700_000_000);
    assert_eq!(protos::PaymentDirection::from_number(wire.direction), Some(protos::PaymentDirection::Outbound));
    assert_eq!(protos::PaymentStatus::from_number(wire.status), Some(protos::PaymentStatus::Failed));

    let inbound = PaymentDetails {
        direction: PaymentDirection::Inbound,
        status: PaymentStatus::Pending,
        amount_msat: None,
        ..payment
    };
    let wire = to_payment_details_proto(&inbound);
    assert_eq!((wire.direction, wire.status, wire.amount_msat), (0, 0, None));
    let succeeded = PaymentDetails { status: PaymentStatus::Succeeded, ..payment };
    assert_eq!(to_payment_details_proto(&succeeded).status, 1);
    assert_eq!(protos::PaymentStatus::from_number(3), None);
    assert_eq!(protos::PaymentDirection::from_number(-1), None);
}

#[test]
fn a_history_is_translated_in_order() {
    let payment = |stamp: u64| PaymentDetails {
        id: run(stamp as u8),
        kind: PaymentKind::Onchain,
        amount_msat: None,
        direction: PaymentDirection::Inbound,
        status: PaymentStatus::Pending,
        latest_update_timestamp: stamp,
    };
    let wire = to_payments_history_proto(&vec![payment(3), payment(1), payment(2)]);
    let stamps: Vec<u64> = wire.payments.iter().map(|p| p.latest_update_timestamp).collect();
    assert_eq!(stamps, vec![3, 1, 2]);
    assert_eq!(wire.payments[1], to_payment_details_proto(&payment(1)));
    assert_eq!(to_payments_history_proto(&vec![]).payments, vec![]);
}

fn channel(seed: u8) -> ChannelDetails {
    ChannelDetails {
        channel_id: run(seed),
        counterparty_node_id: peer(),
        funding_txo: None,
        channel_value_sats: 1,
        feerate_sat_per_1000_weight: 2,
        outbound_capacity_msat: 3,
        inbound_capacity_msat: 4,
        confirmations_required: Some(5),
        confirmations: None,
        is_outbound: true,
        is_channel_ready: false,
        is_usable: true,
        is_public: false,
        cltv_expiry_delta: Some(u16::MAX),
        counterparty_outbound_htlc_minimum_msat: Some(6),
        counterparty_outbound_htlc_maximum_msat: None,
        next_outbound_htlc_limit_msat: 7,
        next_outbound_htlc_minimum_msat: 8,
        force_close_spend_delay: Some(144),
        forwarding_fee_proportional_millionths: 9,
        forwarding_fee_base_msat: 10,
    }
}

#[test]
fn a_channel_keeps_every_field_and_widens_the_16_bit_ones() {
    let wire = to_channel_proto(&channel(1));
    assert_eq!(
        wire,
        protos::Channel {
            channel_id: hex(&run(1)),
            counterparty_node_id: KEY.to_string(),
            funding_txo: None,
            channel_value_sats: 1,
            feerate_sat_per_1000_weight: 2,
            outbound_capacity_msat: 3,
            inbound_capacity_msat: 4,
            confirmations_required: Some(5),
            confirmations: None,
            is_outbound: true,
            is_channel_ready: false,
            is_usable: true,
            is_public: false,
            cltv_expiry_delta: Some(65_535),
            counterparty_outbound_htlc_minimum_msat: Some(6),
            counterparty_outbound_htlc_maximum_msat: None,
            next_outbound_htlc_limit_msat: 7,
            next_outbound_htlc_minimum_msat: 8,
            force_close_spend_delay: Some(144),
            forwarding_fee_proportional_millionths: 9,
            forwarding_fee_base_msat: 10,
        }
    );
    let list = to_channels_proto(&vec![channel(2), channel(1)]);
    assert_eq!(list.channels, vec![to_channel_proto(&channel(2)), wire]);
}

#[test]
fn balances_keep_totals_and_order() {
    let details = BalanceDetails {
        total_onchain_balance_sats: 10,
        spendable_onchain_balance_sats: 9,
        total_anchor_channels_reserve_sats: 1,
        total_lightning_balance_sats: 20,
        lightning_balances: vec![
            LightningBalance::ClaimableOnChannelClose {
                channel_id: run(1),
                counterparty_node_id: peer(),
                amount_satoshis: 12,
            },
            LightningBalance::CounterpartyRevokedOutputClaimable {
                channel_id: run(2),
                counterparty_node_id: peer(),
                amount_satoshis: 8,
            },
        ],
        pending_balances_from_channel_closures: vec![
            PendingSweepBalance::PendingBroadcast { channel_id: Some(run(3)), amount_satoshis: 1 },
            PendingSweepBalance::BroadcastAwaitingConfirmation {
                channel_id: None,
                latest_broadcast_height: 2,
                latest_spending_txid: run(4),
                amount_satoshis: 3,
            },
        ],
    };
    let wire = to_balances_proto(&details).unwrap();
    assert_eq!(wire.total_onchain_balance_sats, 10);
    assert_eq!(wire.spendable_onchain_balance_sats, 9);
    assert_eq!(wire.total_anchor_channels_reserve_sats, 1);
    assert_eq!(wire.total_lightning_balance_sats, 20);
    assert_eq!(
        wire.lightning_balances,
        vec![
            to_lightning_balance_proto(&details.lightning_balances[0]),
            to_lightning_balance_proto(&details.lightning_balances[1]),
        ]
    );
    assert_eq!(
        wire.pending_balances_from_channel_closures,
        vec![
            to_pending_sweep_balance_proto(&details.pending_balances_from_channel_closures[0])
                .unwrap(),
            to_pending_sweep_balance_proto(&details.pending_balances_from_channel_closures[1])
                .unwrap(),
        ]
    );
    let back: Option<protos::GetBalancesResponse> = decode(&encode(&wire));
    assert_eq!(back, Some(wire));
}

#[test]
fn balances_with_an_unattributed_pending_broadcast_are_refused() {
    let details = BalanceDetails {
        total_onchain_balance_sats: 0,
        spendable_onchain_balance_sats: 0,
        total_anchor_channels_reserve_sats: 0,
        total_lightning_balance_sats: 0,
        lightning_balances: vec![],
        pending_balances_from_channel_closures: vec![
            PendingSweepBalance::PendingBroadcast { channel_id: Some(run(3)), amount_satoshis: 1 },
            PendingSweepBalance::PendingBroadcast { channel_id: None, amount_satoshis: 2 },
        ],
    };
    assert_eq!(to_balances_proto(&details), None);
}

#[test]
fn the_status_names_the_node_and_the_best_block() {
    let status = NodeStatus {
        is_running: true,
        is_listening: true,
        current_best_block: BestBlock { block_hash: run(0x10), height: 123 },
        latest_wallet_sync_timestamp: Some(1),
        latest_onchain_wallet_sync_timestamp: None,
        latest_fee_rate_cache_update_timestamp: Some(3),
        latest_rgs_snapshot_timestamp: None,
        latest_node_announcement_broadcast_timestamp: Some(5),
    };
    let wire = to_node_status_proto(&peer(), &status);
    assert_eq!(
        wire,
        protos::GetNodeStatusResponse {
            public_key: KEY.to_string(),
            current_best_block: Some(protos::BestBlock {
                block_hash: reversed_hex(&run(0x10)),
                height: 123,
            }),
            latest_wallet_sync_timestamp: Some(1),
            latest_onchain_wallet_sync_timestamp: None,
            latest_fee_rate_cache_update_timestamp: Some(3),
            latest_rgs_snapshot_timestamp: None,
            latest_node_announcement_broadcast_timestamp: Some(5),
        }
    );
}
