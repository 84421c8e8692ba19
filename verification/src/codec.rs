//! The wire codec. Each frame on the socket is the JSON encoding of one
//! `Message` value; the message space is small enough that the format is a
//! closed set of canonical frames, stated here exactly and proved to round
//! trip.

use vstd::prelude::*;
use crate::common::{Message, PlayReq, Request, Response};
use crate::error::DoodleError;

verus! {

/// The frame for `Message::Request(Request::Play(..))`.
pub open spec fn frame_play() -> Seq<char> {
    "{\"Request\":{\"Play\":null}}"@
}

/// The frame for `Message::Request(Request::Shutdown)`.
pub open spec fn frame_shutdown() -> Seq<char> {
    "{\"Request\":\"Shutdown\"}"@
}

/// The frame for `Message::Response(Response::Okay)`.
pub open spec fn frame_okay() -> Seq<char> {
    "{\"Response\":\"Ok\"}"@
}

/// What the encoder produces for each message value.
pub open spec fn encode_spec(m: Message) -> Seq<char> {
    match m {
        Message::Request(Request::Play(_)) => frame_play(),
        Message::Request(Request::Shutdown) => frame_shutdown(),
        Message::Response(Response::Okay) => frame_okay(),
    }
}

/// What the decoder accepts: exactly the canonical frames, each mapped back
/// to its message value.
pub open spec fn decode_spec(s: Seq<char>) -> Option<Message> {
    if s == frame_play() {
        Some(Message::Request(Request::Play(PlayReq)))
    } else if s == frame_shutdown() {
        Some(Message::Request(Request::Shutdown))
    } else if s == frame_okay() {
        Some(Message::Response(Response::Okay))
    } else {
        None
    }
}

/// Encode one message as its wire frame.
pub fn encode_message(m: &Message) -> (r: String)
    ensures
        r@ == encode_spec(*m),
{
    match m {
        Message::Request(Request::Play(_)) => "{\"Request\":{\"Play\":null}}".to_owned(),
        Message::Request(Request::Shutdown) => "{\"Request\":\"Shutdown\"}".to_owned(),
        Message::Response(Response::Okay) => "{\"Response\":\"Ok\"}".to_owned(),
    }
}

/// Decode one inbound frame. A frame that is not the wire encoding of any
/// message is a `JsonError` carrying the offending text: fatal to the
/// connection, never retried.
pub fn decode_message(text: &str) -> (r: Result<Message, DoodleError>)
    ensures
        match r {
            Ok(m) => decode_spec(text@) == Some(m),
            Err(e) => decode_spec(text@) is None && (e matches DoodleError::JsonError(t)
                && t@ == text@),
        },
{
    let owned = text.to_owned();
    if owned == "{\"Request\":{\"Play\":null}}".to_owned() {
        Ok(Message::Request(Request::Play(PlayReq)))
    } else if owned == "{\"Request\":\"Shutdown\"}".to_owned() {
        Ok(Message::Request(Request::Shutdown))
    } else if owned == "{\"Response\":\"Ok\"}".to_owned() {
        Ok(Message::Response(Response::Okay))
    } else {
        Err(DoodleError::JsonError(owned))
    }
}

/// The three canonical frames are pairwise distinct (their lengths differ),
/// so the encoding is injective.
proof fn lemma_frames_distinct()
    ensures
        frame_play() != frame_shutdown(),
        frame_play() != frame_okay(),
        frame_shutdown() != frame_okay(),
{
    reveal_strlit("{\"Request\":{\"Play\":null}}");
    reveal_strlit("{\"Request\":\"Shutdown\"}");
    reveal_strlit("{\"Response\":\"Ok\"}");
    assert(frame_play().len() == 25);
    assert(frame_shutdown().len() == 22);
    assert(frame_okay().len() == 17);
}

/// Law: the wire format round trips. Decoding the encoding of any valid
/// message yields that same message.
pub proof fn lemma_codec_round_trip(m: Message)
    ensures
        decode_spec(encode_spec(m)) == Some(m),
{
    lemma_frames_distinct();
}

/// Law: the encoding is injective — distinct messages never share a frame.
pub proof fn lemma_encode_injective(m1: Message, m2: Message)
    requires
        encode_spec(m1) == encode_spec(m2),
    ensures
        m1 == m2,
{
    lemma_codec_round_trip(m1);
    lemma_codec_round_trip(m2);
}

/// Law: decoding is sound. Whatever frame decodes to a message is exactly
/// that message's encoding.
pub proof fn lemma_decode_sound(s: Seq<char>, m: Message)
    requires
        decode_spec(s) == Some(m),
    ensures
        s == encode_spec(m),
{
}

} // verus!
