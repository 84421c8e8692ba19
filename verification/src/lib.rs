//! Core of a minimal remote-control transport: a client sends one command to
//! a server over a persistent socket; the server executes it against a single
//! "currently playing" slot owned by one worker thread and returns exactly one
//! response, routed back to the originating connection.
//!
//! This crate holds the verified logic: the message and event value types, the
//! wire codec, the connection-identity allocator, the client exchange state
//! machine and the server worker state machine. Socket and thread plumbing
//! lives outside, handing plain values in and taking plain values back.

pub mod common;
pub mod error;
pub mod codec;
pub mod cmdline;
pub mod client;
pub mod server;
