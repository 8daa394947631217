//! Whether a text is what a request says it is: an address of the node's
//! network, an invoice, an offer, a peer's network address.

use crate::node::Network;
use ldk_node::bitcoin::Address;
use ldk_node::lightning::ln::msgs::SocketAddress;
use ldk_node::lightning::offers::offer::Offer;
use ldk_node::lightning_invoice::Bolt11Invoice;
use std::str::FromStr;
use vstd::prelude::*;

verus! {

/// Whether a text is an on-chain address that is valid on a network: what
/// `Address::from_str` reads and `require_network` then lets pass.
pub uninterp spec fn address_accepted(text: Seq<char>, network: Network) -> bool;

/// Whether a text is an invoice: what `Bolt11Invoice::from_str` reads.
pub uninterp spec fn invoice_accepted(text: Seq<char>) -> bool;

/// Whether a text is an offer: what `Offer::from_str` reads.
pub uninterp spec fn offer_accepted(text: Seq<char>) -> bool;

/// Whether a text is the network address of a peer: what
/// `SocketAddress::from_str` reads.
pub uninterp spec fn socket_address_accepted(text: Seq<char>) -> bool;

/// Tells whether `text` is an address that can be paid on `network`.
///
/// Calls `bitcoin::Address::from_str`, which reads an address of any
/// network, and then `require_network`, which passes the address only where
/// it is valid on the network asked for.
#[verifier::external_body]
pub(crate) fn address_is_valid(text: &str, network: Network) -> (r: bool)
    ensures
        r == address_accepted(text@, network),
{
    let required = match network {
        Network::Bitcoin => ldk_node::bitcoin::Network::Bitcoin,
        Network::Testnet => ldk_node::bitcoin::Network::Testnet,
        Network::Signet => ldk_node::bitcoin::Network::Signet,
        Network::Regtest => ldk_node::bitcoin::Network::Regtest,
    };
    match Address::from_str(text) {
        Ok(address) => address.require_network(required).is_ok(),
        Err(_) => false,
    }
}

/// Tells whether `text` is an invoice.
///
/// Calls `Bolt11Invoice::from_str` of lightning-invoice, which reads the
/// text, checks its signature and its required fields, and fails otherwise.
#[verifier::external_body]
pub(crate) fn invoice_is_valid(text: &str) -> (r: bool)
    ensures
        r == invoice_accepted(text@),
{
    Bolt11Invoice::from_str(text).is_ok()
}

/// Tells whether `text` is an offer.
///
/// Calls `Offer::from_str` of lightning, which reads the bech32 text of an
/// offer and fails otherwise.
#[verifier::external_body]
pub(crate) fn offer_is_valid(text: &str) -> (r: bool)
    ensures
        r == offer_accepted(text@),
{
    Offer::from_str(text).is_ok()
}

/// Tells whether `text` is the network address of a peer.
///
/// Calls `SocketAddress::from_str` of lightning, which reads an IP address
/// or a host name with a port, or an onion address, and fails otherwise.
#[verifier::external_body]
pub(crate) fn socket_address_is_valid(text: &str) -> (r: bool)
    ensures
        r == socket_address_accepted(text@),
{
    SocketAddress::from_str(text).is_ok()
}

} // verus!
