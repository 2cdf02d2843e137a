//! A rotating one-shot rendezvous protocol: a long-lived server accepts one
//! envelope per endpoint, replies with the address of its next endpoint (or
//! with a farewell), and a transient client performs one round trip.
//!
//! The transport is left to the caller: the reply capability carried by an
//! envelope is a type parameter, and the server and client logic are pure
//! transitions whose effects the caller performs.
pub mod client;
pub mod packet;
pub mod round_trip;
pub mod server;

pub use client::{
    interpret_reply, parse_args, sent_message, ArgWarning, ClientArgs, ReplyMeaning, ReplyOutcome,
    UsageError,
};
pub use packet::{Envelope, Packet, FAREWELL};
pub use server::{Accepted, Effect, Listening, Outcome, Publication, ServerState};
