//! Identifiers and their textual forms: hexadecimal for channel ids, payment
//! hashes, preimages and public keys; hexadecimal in reverse byte order for
//! transaction ids and block hashes.

use ldk_node::bitcoin::secp256k1::PublicKey;
use ldk_node::bitcoin::{BlockHash, Txid};
use ldk_node::lightning::ln::{ChannelId, PaymentHash, PaymentPreimage};
use std::str::FromStr;
use vstd::prelude::*;

verus! {

/// The lowercase hexadecimal digit of a value below sixteen.
pub open spec fn hex_digit(nibble: int) -> char {
    if nibble < 10 {
        (48 + nibble) as char
    } else {
        (87 + nibble) as char
    }
}

/// Two lowercase hexadecimal digits for each byte, the high half first.
pub open spec fn lower_hex(bytes: Seq<u8>) -> Seq<char> {
    Seq::new(
        2 * bytes.len(),
        |i: int|
            hex_digit(
                if i % 2 == 0 {
                    bytes[i / 2] as int / 16
                } else {
                    bytes[i / 2] as int % 16
                },
            ),
    )
}

/// Different bytes have different hexadecimal forms.
pub proof fn lemma_lower_hex_injective(a: Seq<u8>, b: Seq<u8>)
    requires
        lower_hex(a) == lower_hex(b),
    ensures
        a == b,
{
    assert(lower_hex(a).len() == 2 * a.len());
    assert(lower_hex(b).len() == 2 * b.len());
    assert forall|k: int| 0 <= k < a.len() implies a[k] == b[k] by {
        let high = lower_hex(a)[2 * k];
        let low = lower_hex(a)[2 * k + 1];
        assert(high == lower_hex(b)[2 * k]);
        assert(low == lower_hex(b)[2 * k + 1]);
        assert(high == hex_digit(a[k] as int / 16));
        assert(low == hex_digit(a[k] as int % 16));
        assert(high == hex_digit(b[k] as int / 16));
        assert(low == hex_digit(b[k] as int % 16));
        assert(hex_digit(a[k] as int / 16) as int == hex_digit(b[k] as int / 16) as int);
        assert(hex_digit(a[k] as int % 16) as int == hex_digit(b[k] as int % 16) as int);
    }
    assert(a =~= b);
}

/// The hexadecimal form of bytes takes two bytes of text for each.
pub proof fn lemma_lower_hex_size(bytes: Seq<u8>)
    ensures
        vstd::utf8::encode_utf8(lower_hex(bytes)).len() == 2 * bytes.len(),
{
    assert(vstd::utf8::is_ascii_chars(lower_hex(bytes)));
    vstd::utf8::is_ascii_chars_encode_utf8(lower_hex(bytes));
}

/// Whether 33 bytes are the compressed form of a public key: what
/// `PublicKey::from_slice` accepts.
pub uninterp spec fn public_key_accepted(bytes: Seq<u8>) -> bool;

/// The compressed form of the public key that a text stands for, where it
/// stands for one: what `PublicKey::from_str` reads.
pub uninterp spec fn public_key_parsed(text: Seq<char>) -> Option<Seq<u8>>;

/// The text of a channel id.
///
/// Calls `Display` of `lightning::ln::ChannelId`, which writes each of the
/// 32 bytes as two lowercase hexadecimal digits.
#[verifier::external_body]
pub(crate) fn channel_id_text(bytes: &[u8; 32]) -> (r: String)
    ensures
        r@ == lower_hex(bytes@),
{
    ChannelId(*bytes).to_string()
}

/// The text of a payment hash.
///
/// Calls `Display` of `lightning::ln::PaymentHash`, which writes each of the
/// 32 bytes as two lowercase hexadecimal digits.
#[verifier::external_body]
pub(crate) fn payment_hash_text(bytes: &[u8; 32]) -> (r: String)
    ensures
        r@ == lower_hex(bytes@),
{
    PaymentHash(*bytes).to_string()
}

/// The text of a payment preimage.
///
/// Calls `Display` of `lightning::ln::PaymentPreimage`, which writes each of
/// the 32 bytes as two lowercase hexadecimal digits.
#[verifier::external_body]
pub(crate) fn payment_preimage_text(bytes: &[u8; 32]) -> (r: String)
    ensures
        r@ == lower_hex(bytes@),
{
    PaymentPreimage(*bytes).to_string()
}

/// The text of a transaction id.
///
/// Calls `Display` of `bitcoin::Txid`, which writes the 32 bytes of the hash
/// last byte first, each as two lowercase hexadecimal digits.
#[verifier::external_body]
pub(crate) fn txid_text(bytes: &[u8; 32]) -> (r: String)
    ensures
        r@ == lower_hex(bytes@.reverse()),
{
    let id: Txid = ldk_node::bitcoin::hashes::Hash::from_byte_array(*bytes);
    id.to_string()
}

/// The text of a block hash.
///
/// Calls `Display` of `bitcoin::BlockHash`, which writes the 32 bytes of the
/// hash last byte first, each as two lowercase hexadecimal digits.
#[verifier::external_body]
pub(crate) fn block_hash_text(bytes: &[u8; 32]) -> (r: String)
    ensures
        r@ == lower_hex(bytes@.reverse()),
{
    let hash: BlockHash = ldk_node::bitcoin::hashes::Hash::from_byte_array(*bytes);
    hash.to_string()
}

/// The text of the public key with this compressed form, where it is one.
///
/// Calls `PublicKey::from_slice` of secp256k1, which accepts 33 bytes only
/// where they are the compressed form of a point of the curve, and `Display`
/// of the key, which writes its compressed form, the same 33 bytes, each as
/// two lowercase hexadecimal digits.
#[verifier::external_body]
pub(crate) fn public_key_text(bytes: &[u8; 33]) -> (r: Option<String>)
    ensures
        r is Some <==> public_key_accepted(bytes@),
        r matches Some(text) ==> text@ == lower_hex(bytes@),
{
    PublicKey::from_slice(bytes).ok().map(|key| key.to_string())
}

/// The compressed form of the public key that `text` stands for.
///
/// Calls `PublicKey::from_str` of secp256k1, which reads the hexadecimal
/// form of a key, and `serialize`, which gives the key's compressed form:
/// 33 bytes that `PublicKey::from_slice` accepts.
#[verifier::external_body]
pub(crate) fn public_key_bytes(text: &str) -> (r: Option<[u8; 33]>)
    ensures
        match public_key_parsed(text@) {
            Some(bytes) => r matches Some(found) && found@ == bytes && public_key_accepted(bytes),
            None => r is None,
        },
{
    PublicKey::from_str(text).ok().map(|key| key.serialize())
}

/// The number that `bytes` stand for, most significant byte first.
pub open spec fn be_value(bytes: Seq<u8>) -> nat
    decreases bytes.len(),
{
    if bytes.len() == 0 {
        0
    } else {
        be_value(bytes.drop_last()) * 256 + bytes.last() as nat
    }
}

/// The `width` bytes that stand for `value`, most significant byte first.
pub open spec fn be_bytes(value: nat, width: nat) -> Seq<u8>
    decreases width,
{
    if width == 0 {
        Seq::empty()
    } else {
        be_bytes(value / 256, (width - 1) as nat).push((value % 256) as u8)
    }
}

/// The exclusive bound on what `width` bytes can hold.
pub open spec fn be_room(width: nat) -> nat
    decreases width,
{
    if width == 0 {
        1
    } else {
        256 * be_room((width - 1) as nat)
    }
}

/// A value that the bytes have room for is read back from its bytes.
pub proof fn lemma_be_round_trip(value: nat, width: nat)
    requires
        value < be_room(width),
    ensures
        be_bytes(value, width).len() == width,
        be_value(be_bytes(value, width)) == value,
    decreases width,
{
    if width > 0 {
        let rest = be_bytes(value / 256, (width - 1) as nat);
        lemma_be_round_trip(value / 256, (width - 1) as nat);
        let all = be_bytes(value, width);
        assert(all.drop_last() =~= rest);
        assert(all.last() == (value % 256) as u8);
    }
}

/// Sixteen bytes have room for every 128-bit value.
pub proof fn lemma_be_room_16(value: u128)
    ensures
        value < be_room(16),
{
    reveal_with_fuel(be_room, 17);
}

/// The sixteen bytes of a local channel id.
///
/// Calls `u128::to_be_bytes`, which gives the bytes of the value in
/// big-endian order.
#[verifier::external_body]
pub(crate) fn be_bytes_of(value: u128) -> (r: [u8; 16])
    ensures
        r@ == be_bytes(value as nat, 16),
{
    value.to_be_bytes()
}

/// The local channel id that sixteen bytes stand for.
///
/// Calls `u128::from_be_bytes`, which reads the bytes as a value in
/// big-endian order.
#[verifier::external_body]
pub(crate) fn be_value_of(bytes: [u8; 16]) -> (r: u128)
    ensures
        r == be_value(bytes@),
{
    u128::from_be_bytes(bytes)
}

/// The public key that names a node, held in its compressed form.
#[derive(Clone, Copy, Debug, PartialEq, Eq)]
pub struct NodeId {
    bytes: [u8; 33],
}

impl View for NodeId {
    type V = Seq<u8>;

    closed spec fn view(&self) -> Seq<u8> {
        self.bytes@
    }
}

impl NodeId {
    #[verifier::type_invariant]
    spec fn accepted(self) -> bool {
        public_key_accepted(self.bytes@)
    }

    /// The node id with this compressed form, where the bytes are the
    /// compressed form of a public key.
    pub fn from_bytes(bytes: [u8; 33]) -> (r: Option<NodeId>)
        ensures
            r is Some <==> public_key_accepted(bytes@),
            r matches Some(id) ==> id@ == bytes@,
    {
        match public_key_text(&bytes) {
            Some(_) => Some(NodeId { bytes }),
            None => None,
        }
    }

    /// The node id that a text stands for, where it stands for one.
    pub fn parse(text: &str) -> (r: Option<NodeId>)
        ensures
            match public_key_parsed(text@) {
                Some(bytes) => r matches Some(id) && id@ == bytes,
                None => r is None,
            },
    {
        match public_key_bytes(text) {
            Some(bytes) => Some(NodeId { bytes }),
            None => None,
        }
    }

    /// Two node ids with the same compressed form are the same.
    pub proof fn lemma_same(self, other: NodeId)
        requires
            self@ == other@,
        ensures
            self == other,
    {
        assert(self.bytes =~= other.bytes);
    }

    /// A node id is 33 bytes.
    pub proof fn lemma_len(self)
        ensures
            self@.len() == 33,
    {
    }

    /// The compressed form: 33 bytes.
    pub fn bytes(&self) -> (r: [u8; 33])
        ensures
            r@ == self@,
    {
        self.bytes
    }

    /// The hexadecimal text of the key.
    pub fn text(&self) -> (r: String)
        ensures
            r@ == lower_hex(self@),
    {
        proof {
            use_type_invariant(self);
        }
        match public_key_text(&self.bytes) {
            Some(text) => text,
            None => String::new(),
        }
    }
}

} // verus!
