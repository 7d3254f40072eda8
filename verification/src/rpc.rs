//! The errors that peers get back from requests over the custom message protocol.

use vstd::prelude::*;
use vstd::string::*;

use crate::text::text;

verus! {

/// The class of an error.
#[derive(Clone, Copy, Debug, PartialEq, Eq, Structural)]
pub enum RpcErrorKind {
    InvalidParams,
    InternalError,
    /// An asset of a link is not known.
    UnknownAsset,
    /// Two assets are not linked.
    UnknownLink,
    DuplicatePaymentHash,
    InsufficientLiquidity,
    StaleFlow,
    InvoiceHashMismatch,
}

/// An error that a peer gets back.
#[derive(Clone, Debug, PartialEq, Eq)]
pub struct RpcError {
    pub kind: RpcErrorKind,
    pub message: String,
}

/// Whether an error has a kind and a message.
pub open spec fn is_rpc(e: RpcError, kind: RpcErrorKind, message: Seq<char>) -> bool {
    e.kind == kind && e.message@ == message
}

/// An error with a fixed message.
pub fn rpc_error(kind: RpcErrorKind, message: &str) -> (r: RpcError)
    ensures
        is_rpc(r, kind, message@),
{
    RpcError { kind, message: text(message) }
}

} // verus!
