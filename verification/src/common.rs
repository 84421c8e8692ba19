//! Message and event value types shared by the client and the server.

use vstd::prelude::*;

verus! {

/// Payload of a `Request::Play` command. No fields yet.
#[derive(Clone, Copy, Debug, PartialEq, Eq, Structural)]
pub struct PlayReq;

/// A command sent by a client.
#[derive(Clone, Copy, Debug, PartialEq, Eq, Structural)]
pub enum Request {
    Play(PlayReq),
    Shutdown,
}

/// A reply sent by the server. Only a success marker exists so far.
#[derive(Clone, Copy, Debug, PartialEq, Eq, Structural)]
pub enum Response {
    Okay,
}

/// The wire unit: every frame sent in either direction is one `Message`.
#[derive(Clone, Copy, Debug, PartialEq, Eq, Structural)]
pub enum Message {
    Request(Request),
    Response(Response),
}

/// Process-unique identifier for one live connection, assigned at open time
/// and never reused while the listener lives.
#[derive(Clone, Copy, Debug, PartialEq, Eq, Structural, Hash)]
pub struct ConnId(pub u64);

/// A remote endpoint: host name plus port number.
#[derive(Clone, Debug, PartialEq)]
pub struct Address {
    pub host: String,
    pub port: u16,
}

/// One unit of work handed to the server worker: the decoded request together
/// with the identity of the connection that sent it. The worker routes its
/// response back to that same connection.
#[derive(Clone, Copy, Debug, PartialEq, Eq, Structural)]
pub struct ServerRequest(pub Request, pub ConnId);

/// Socket lifecycle occurrences the server surfaces per connection, with the
/// close code and reason, or the error description, carried as plain values.
#[derive(Clone, Debug, PartialEq)]
pub enum WSEvent {
    Timeout,
    Shutdown,
    Close(u16, String),
    Error(String),
}

/// Everything the client's consumer thread can receive from its connection:
/// a decoded message, a lifecycle occurrence, or a connection-establishment
/// failure.
#[derive(Clone, Debug, PartialEq)]
pub enum WSMsg {
    Open,
    Message(Message),
    Timeout,
    Shutdown,
    Close(u16, String),
    Error(String),
    InitError(String),
}

impl WSEvent {
    /// Whether this occurrence is reported at error severity (timeouts and
    /// socket errors) rather than as an ordinary lifecycle note (shutdown,
    /// close).
    pub fn is_error(&self) -> (r: bool)
        ensures
            r == (self matches WSEvent::Timeout || self matches WSEvent::Error(_)),
    {
        match self {
            WSEvent::Timeout => true,
            WSEvent::Error(_) => true,
            WSEvent::Shutdown => false,
            WSEvent::Close(_, _) => false,
        }
    }
}

} // verus!
