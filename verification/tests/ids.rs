use ldk_node::bitcoin::secp256k1::PublicKey;
use ldk_node::lightning::ln::ChannelId;
use node_gateway::ids::NodeId;
use node_gateway::node::{ChannelDetails, OutPoint};
use node_gateway::translate::to_channel_proto;
use std::str::FromStr;

const KEY: &str = "027100442c3b79f606f80f322d98d499eefcb060599efc5d4ecb00209c2cb54190";

#[test]
fn a_node_id_is_read_from_its_text_and_written_back() {
    let id = NodeId::parse(KEY).unwrap();
    assert_eq!(id.text(), KEY);
    assert_eq!(id.bytes()[0], 0x02);
    assert_eq!(id.bytes()[1], 0x71);
    assert_eq!(id.bytes()[32], 0x90);
    let key = PublicKey::from_str(KEY).unwrap();
    assert_eq!(id.bytes(), key.serialize());
    assert_eq!(id.text(), key.to_string());
}

#[test]
fn a_node_id_is_made_from_its_compressed_form_only() {
    let key = PublicKey::from_str(KEY).unwrap();
    let id = NodeId::from_bytes(key.serialize()).unwrap();
    assert_eq!(Some(id), NodeId::parse(KEY));
    assert_eq!(NodeId::from_bytes([0u8; 33]), None);
    let mut wrong = key.serialize();
    wrong[0] = 0x04;
    assert_eq!(NodeId::from_bytes(wrong), None);
}

#[test]
fn a_text_that_is_no_key_is_no_node_id() {
    assert_eq!(NodeId::parse(""), None);
    assert_eq!(NodeId::parse("02"), None);
    assert_eq!(NodeId::parse("zz7100442c3b79f606f80f322d98d499eefcb060599efc5d4ecb00209c2cb54190"), None);
    assert_eq!(NodeId::parse(&KEY[..64]), None);
}

#[test]
fn an_uncompressed_key_is_held_compressed() {
    let key = PublicKey::from_str(KEY).unwrap();
    let long: String = key.serialize_uncompressed().iter().map(|b| format!("{:02x}", b)).collect();
    let id = NodeId::parse(&long).unwrap();
    assert_eq!(id.text(), KEY);
}

#[test]
fn a_channel_id_is_written_in_lowercase_hexadecimal() {
    let mut bytes = [0u8; 32];
    for (i, b) in bytes.iter_mut().enumerate() {
        *b = (i as u8) * 8 + 0xa0;
    }
    let channel = ChannelDetails {
        channel_id: bytes,
        counterparty_node_id: NodeId::parse(KEY).unwrap(),
        funding_txo: Some(OutPoint { txid: bytes, vout: 3 }),
        channel_value_sats: 0,
        feerate_sat_per_1000_weight: 0,
        outbound_capacity_msat: 0,
        inbound_capacity_msat: 0,
        confirmations_required: None,
        confirmations: None,
        is_outbound: false,
        is_channel_ready: false,
        is_usable: false,
        is_public: false,
        cltv_expiry_delta: None,
        counterparty_outbound_htlc_minimum_msat: None,
        counterparty_outbound_htlc_maximum_msat: None,
        next_outbound_htlc_limit_msat: 0,
        next_outbound_htlc_minimum_msat: 0,
        force_close_spend_delay: None,
        forwarding_fee_proportional_millionths: 0,
        forwarding_fee_base_msat: 0,
    };
    let wire = to_channel_proto(&channel);
    assert_eq!(
        wire.channel_id,
        "a0a8b0b8c0c8d0d8e0e8f0f800081018202830384048505860687078808890"
            .to_string()
            + "98"
    );
    assert_eq!(wire.channel_id, ChannelId(bytes).to_string());
    assert_eq!(wire.channel_id.len(), 64);
    let txo = wire.funding_txo.unwrap();
    assert_eq!(&txo.txid[..4], "9890");
    assert_eq!(&txo.txid[60..], "a8a0");
    assert_eq!(txo.vout, 3);
}
