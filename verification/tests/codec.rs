use doodle::codec::{decode_message, encode_message};
use doodle::common::{Message, PlayReq, Request, Response};
use doodle::error::DoodleError;

#[test]
fn encode_play_frame() {
    let m = Message::Request(Request::Play(PlayReq));
    assert_eq!(encode_message(&m), "{\"Request\":{\"Play\":null}}");
}

#[test]
fn encode_shutdown_frame() {
    let m = Message::Request(Request::Shutdown);
    assert_eq!(encode_message(&m), "{\"Request\":\"Shutdown\"}");
}

#[test]
fn encode_response_frame() {
    let m = Message::Response(Response::Okay);
    assert_eq!(encode_message(&m), "{\"Response\":\"Ok\"}");
}

#[test]
fn round_trip_all_messages() {
    let all = vec![
        Message::Request(Request::Play(PlayReq)),
        Message::Request(Request::Shutdown),
        Message::Response(Response::Okay),
    ];
    for m in all {
        let frame = encode_message(&m);
        assert_eq!(decode_message(&frame), Ok(m));
    }
}

#[test]
fn decode_rejects_garbage() {
    let r = decode_message("{\"Request\":\"Dance\"}");
    assert_eq!(
        r,
        Err(DoodleError::JsonError("{\"Request\":\"Dance\"}".to_owned()))
    );
}

#[test]
fn decode_rejects_empty() {
    assert!(matches!(decode_message(""), Err(DoodleError::JsonError(_))));
}

#[test]
fn decode_is_exact_about_whitespace() {
    assert!(decode_message("{\"Response\": \"Ok\"}").is_err());
}

#[test]
fn frames_are_json_with_expected_shape() {
    let play: serde_json::Value =
        serde_json::from_str(&encode_message(&Message::Request(Request::Play(PlayReq)))).unwrap();
    let mut inner = serde_json::Map::new();
    inner.insert("Play".to_owned(), serde_json::Value::Null);
    let mut outer = serde_json::Map::new();
    outer.insert("Request".to_owned(), serde_json::Value::Object(inner));
    assert_eq!(play, serde_json::Value::Object(outer));

    let shutdown: serde_json::Value =
        serde_json::from_str(&encode_message(&Message::Request(Request::Shutdown))).unwrap();
    let mut outer = serde_json::Map::new();
    outer.insert(
        "Request".to_owned(),
        serde_json::Value::String("Shutdown".to_owned()),
    );
    assert_eq!(shutdown, serde_json::Value::Object(outer));

    let okay: serde_json::Value =
        serde_json::from_str(&encode_message(&Message::Response(Response::Okay))).unwrap();
    let mut outer = serde_json::Map::new();
    outer.insert(
        "Response".to_owned(),
        serde_json::Value::String("Ok".to_owned()),
    );
    assert_eq!(okay, serde_json::Value::Object(outer));
}
