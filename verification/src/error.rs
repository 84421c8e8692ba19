//! Error taxonomy of the transport core. Every failure is terminal to the
//! affected exchange or connection; the variant says which kind it was and
//! carries the payload worth logging.

use vstd::prelude::*;
use crate::common::WSMsg;

verus! {

/// One failure of the transport core.
///
/// - `IoError`, `SocketError`, `UrlError`: descriptions of failures raised by
///   the surrounding I/O layer, carried as plain text.
/// - `JsonError`: an inbound frame was not the wire encoding of any message;
///   fatal to that connection, never retried. Carries the offending frame.
/// - `MpscRecvError`: the producer side of a mailbox is permanently gone.
/// - `NoOpen`: the client's first event was something other than `Open`.
/// - `UnexpectedResponse`: the client's second event was not a response
///   message.
/// - `Generic`: anything else, e.g. a command not yet implemented.
#[derive(Clone, Debug, PartialEq)]
pub enum DoodleError {
    IoError(String),
    JsonError(String),
    MpscRecvError,
    NoOpen(WSMsg),
    SocketError(String),
    UnexpectedResponse(WSMsg),
    UrlError(String),
    Generic(String),
}

} // verus!
