//! The node's errors that the gateway raises itself, before it asks the
//! node for anything, and the diagnostic text of each.

use vstd::prelude::*;

verus! {

/// A reason to turn a request down without calling the node.
#[derive(Clone, Copy, Debug, PartialEq, Eq, Structural)]
pub enum NodeError {
    /// The address is no address of the node's network.
    InvalidAddress,
    /// The network address of a peer could not be read.
    InvalidSocketAddress,
    /// The public key of a peer could not be read.
    InvalidNodeId,
    /// The payment id has the wrong length, or names no payment.
    InvalidPaymentId,
    /// The invoice or the offer could not be read.
    InvalidInvoice,
    /// The channel id has the wrong length.
    InvalidChannelId,
}

/// The diagnostic that the node gives for an error.
pub open spec fn node_error_text(error: NodeError) -> Seq<char> {
    match error {
        NodeError::InvalidAddress => "The given address is invalid."@,
        NodeError::InvalidSocketAddress => "The given network address is invalid."@,
        NodeError::InvalidNodeId => "The given node id is invalid."@,
        NodeError::InvalidPaymentId => "The given payment id is invalid."@,
        NodeError::InvalidInvoice => "The given invoice is invalid."@,
        NodeError::InvalidChannelId => "The given channel ID is invalid."@,
    }
}

/// The diagnostic of an error, as the node words it.
///
/// Calls `Display` of `ldk_node::NodeError` on the variant of the same
/// name, which writes one fixed sentence for each variant.
#[verifier::external_body]
pub(crate) fn error_text(error: NodeError) -> (r: String)
    ensures
        r@ == node_error_text(error),
{
    let outside = match error {
        NodeError::InvalidAddress => ldk_node::NodeError::InvalidAddress,
        NodeError::InvalidSocketAddress => ldk_node::NodeError::InvalidSocketAddress,
        NodeError::InvalidNodeId => ldk_node::NodeError::InvalidNodeId,
        NodeError::InvalidPaymentId => ldk_node::NodeError::InvalidPaymentId,
        NodeError::InvalidInvoice => ldk_node::NodeError::InvalidInvoice,
        NodeError::InvalidChannelId => ldk_node::NodeError::InvalidChannelId,
    };
    outside.to_string()
}

impl NodeError {
    /// The diagnostic text of the error.
    pub fn message(self) -> (r: String)
        ensures
            r@ == node_error_text(self),
    {
        error_text(self)
    }
}

} // verus!
