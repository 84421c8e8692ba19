use doodle::client::{make_message, ClientFsm, ClientState};
use doodle::cmdline::{Client, ClientCommand, Music, Play, Queue};
use doodle::common::{Message, PlayReq, Request, Response, WSMsg};
use doodle::error::DoodleError;

fn play_command() -> Client {
    Client {
        command: ClientCommand::Play(Play {
            shuffled: false,
            repeat: false,
            command: None,
        }),
    }
}

#[test]
fn make_message_play() {
    let r = make_message(&play_command());
    assert_eq!(r, Ok(Message::Request(Request::Play(PlayReq))));
}

#[test]
fn make_message_shutdown() {
    let r = make_message(&Client {
        command: ClientCommand::Shutdown,
    });
    assert_eq!(r, Ok(Message::Request(Request::Shutdown)));
}

#[test]
fn make_message_pause_rejected_locally() {
    let r = make_message(&Client {
        command: ClientCommand::Pause,
    });
    assert_eq!(r, Err(DoodleError::Generic("Not Implemented".to_owned())));
}

#[test]
fn make_message_queue_rejected_locally() {
    let r = make_message(&Client {
        command: ClientCommand::Queue(Queue {
            shuffled: true,
            command: Music::AllSongs,
        }),
    });
    assert_eq!(r, Err(DoodleError::Generic("Not Implemented".to_owned())));
}

#[test]
fn make_message_status_rejected_locally() {
    let r = make_message(&Client {
        command: ClientCommand::Status,
    });
    assert_eq!(r, Err(DoodleError::Generic("Not Implemented".to_owned())));
}

#[test]
fn exchange_happy_path() {
    let request = Message::Request(Request::Play(PlayReq));
    let mut fsm = ClientFsm::new(request);
    assert_eq!(fsm.state, ClientState::AwaitOpen);

    let action = fsm.step(WSMsg::Open);
    assert_eq!(action, Some(request));
    assert_eq!(fsm.state, ClientState::AwaitResponse);

    let action = fsm.step(WSMsg::Message(Message::Response(Response::Okay)));
    assert_eq!(action, None);
    assert_eq!(fsm.state, ClientState::Done(Response::Okay));
}

#[test]
fn first_event_not_open_fails_without_send() {
    let request = Message::Request(Request::Play(PlayReq));
    let mut fsm = ClientFsm::new(request);

    let action = fsm.step(WSMsg::Timeout);
    assert_eq!(action, None);
    assert_eq!(fsm.state, ClientState::Failed(DoodleError::NoOpen(WSMsg::Timeout)));

    // Failure is terminal: even an Open afterwards triggers no send.
    let action = fsm.step(WSMsg::Open);
    assert_eq!(action, None);
    assert_eq!(fsm.state, ClientState::Failed(DoodleError::NoOpen(WSMsg::Timeout)));
}

#[test]
fn second_event_not_response_fails() {
    let request = Message::Request(Request::Play(PlayReq));
    let mut fsm = ClientFsm::new(request);
    fsm.step(WSMsg::Open);

    let event = WSMsg::Close(1000, "bye".to_owned());
    let action = fsm.step(event.clone());
    assert_eq!(action, None);
    assert_eq!(
        fsm.state,
        ClientState::Failed(DoodleError::UnexpectedResponse(event))
    );
}

#[test]
fn second_event_request_message_fails() {
    let request = Message::Request(Request::Play(PlayReq));
    let mut fsm = ClientFsm::new(request);
    fsm.step(WSMsg::Open);

    let event = WSMsg::Message(Message::Request(Request::Shutdown));
    let action = fsm.step(event.clone());
    assert_eq!(action, None);
    assert_eq!(
        fsm.state,
        ClientState::Failed(DoodleError::UnexpectedResponse(event))
    );
}
