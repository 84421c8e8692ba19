//! Client-side logic: turning a command into the one message to send, and the
//! exchange state machine the client's main thread drives. The client expects
//! `Open` first, then sends its request, then expects exactly one response
//! message; anything else is a terminal failure, and a failed exchange never
//! sends.

use vstd::prelude::*;
use crate::cmdline;
use crate::cmdline::ClientCommand;
use crate::common::{Message, PlayReq, Request, Response, WSMsg};
use crate::error::DoodleError;

verus! {

/// The message a client command sends, if the command is implemented.
pub open spec fn message_of_command(command: ClientCommand) -> Option<Message> {
    match command {
        ClientCommand::Play(_) => Some(Message::Request(Request::Play(PlayReq))),
        ClientCommand::Shutdown => Some(Message::Request(Request::Shutdown)),
        ClientCommand::Pause => None,
        ClientCommand::Queue(_) => None,
        ClientCommand::Status => None,
    }
}

/// Build the request message for a client invocation. Commands the server
/// cannot serve yet (`Pause`, `Queue`, `Status`) are rejected here, before
/// anything touches the network.
pub fn make_message(command: &cmdline::Client) -> (r: Result<Message, DoodleError>)
    ensures
        match r {
            Ok(m) => message_of_command(command.command) == Some(m),
            Err(e) => message_of_command(command.command) is None
                && (e matches DoodleError::Generic(t) && t@ == "Not Implemented"@),
        },
{
    match &command.command {
        ClientCommand::Play(_) => Ok(Message::Request(Request::Play(PlayReq))),
        ClientCommand::Shutdown => Ok(Message::Request(Request::Shutdown)),
        ClientCommand::Pause => Err(DoodleError::Generic("Not Implemented".to_owned())),
        ClientCommand::Queue(_) => Err(DoodleError::Generic("Not Implemented".to_owned())),
        ClientCommand::Status => Err(DoodleError::Generic("Not Implemented".to_owned())),
    }
}

/// Where the client's exchange stands.
#[derive(Clone, Debug, PartialEq)]
pub enum ClientState {
    /// Nothing received yet; the handshake must complete first.
    AwaitOpen,
    /// The request was sent; exactly one response message is owed.
    AwaitResponse,
    /// The exchange finished with this response.
    Done(Response),
    /// The exchange failed; terminal.
    Failed(DoodleError),
}

/// What one step asks the surrounding I/O layer to do, beyond updating the
/// state: send the request message, or nothing.
pub open spec fn client_step_spec(state: ClientState, request: Message, event: WSMsg) -> (
    ClientState,
    Option<Message>,
) {
    match state {
        ClientState::AwaitOpen => {
            if (event matches WSMsg::Open) {
                (ClientState::AwaitResponse, Some(request))
            } else {
                (ClientState::Failed(DoodleError::NoOpen(event)), None)
            }
        },
        ClientState::AwaitResponse => match event {
            WSMsg::Message(Message::Response(rsp)) => (ClientState::Done(rsp), None),
            _ => (ClientState::Failed(DoodleError::UnexpectedResponse(event)), None),
        },
        _ => (state, None),
    }
}

/// The client's exchange state machine: one request, one response. The caller
/// feeds it every event received from the connection, in order, and performs
/// the send it asks for.
pub struct ClientFsm {
    pub state: ClientState,
    pub request: Message,
}

impl ClientFsm {
    /// A fresh exchange that will send `request` once the connection opens.
    pub fn new(request: Message) -> (r: ClientFsm)
        ensures
            r.state == ClientState::AwaitOpen,
            r.request == request,
    {
        ClientFsm { state: ClientState::AwaitOpen, request }
    }

    /// Feed one received event; returns the message to send now, if any.
    pub fn step(&mut self, event: WSMsg) -> (action: Option<Message>)
        ensures
            final(self).request == old(self).request,
            (final(self).state, action) == client_step_spec(
                old(self).state,
                old(self).request,
                event,
            ),
    {
        let action: Option<Message>;
        if matches!(self.state, ClientState::AwaitOpen) {
            if matches!(event, WSMsg::Open) {
                self.state = ClientState::AwaitResponse;
                action = Some(self.request);
            } else {
                self.state = ClientState::Failed(DoodleError::NoOpen(event));
                action = None;
            }
        } else if matches!(self.state, ClientState::AwaitResponse) {
            match event {
                WSMsg::Message(Message::Response(rsp)) => {
                    self.state = ClientState::Done(rsp);
                    action = None;
                },
                other => {
                    self.state = ClientState::Failed(DoodleError::UnexpectedResponse(other));
                    action = None;
                },
            }
        } else {
            action = None;
        }
        action
    }
}

/// Law: a first event other than `Open` fails the exchange with a `NoOpen`
/// error carrying that event, and asks for no send.
pub proof fn lemma_first_event_not_open(request: Message, event: WSMsg)
    requires
        !(event matches WSMsg::Open),
    ensures
        client_step_spec(ClientState::AwaitOpen, request, event) == (
            ClientState::Failed(DoodleError::NoOpen(event)),
            None::<Message>,
        ),
{
}

/// Law: a second event that is not a response message fails the exchange with
/// an `UnexpectedResponse` error carrying that event, and asks for no send.
pub proof fn lemma_second_event_not_response(request: Message, event: WSMsg)
    requires
        !(event matches WSMsg::Message(Message::Response(_))),
    ensures
        client_step_spec(ClientState::AwaitResponse, request, event) == (
            ClientState::Failed(DoodleError::UnexpectedResponse(event)),
            None::<Message>,
        ),
{
}

/// Law: the exchange sends at most once. A step asks for a send only from the
/// initial state, on `Open`, and what it sends is the one stored request; no
/// step ever returns to the initial state, so no second send can follow.
pub proof fn lemma_sends_only_on_open(state: ClientState, request: Message, event: WSMsg)
    ensures
        client_step_spec(state, request, event).1 is Some ==> state == ClientState::AwaitOpen
            && (event matches WSMsg::Open) && client_step_spec(state, request, event) == (
            ClientState::AwaitResponse,
            Some(request),
        ),
        client_step_spec(state, request, event).0 != ClientState::AwaitOpen,
{
}

/// Law: failure is terminal and silent. Whatever arrives after a failure, the
/// state stays that same failure and nothing is ever sent.
pub proof fn lemma_failed_absorbs(err: DoodleError, request: Message, event: WSMsg)
    ensures
        client_step_spec(ClientState::Failed(err), request, event) == (
            ClientState::Failed(err),
            None::<Message>,
        ),
{
}

} // verus!
