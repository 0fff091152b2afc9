//! A verified core for a chat content-moderation relay.
//!
//! Messages are scored by a generative-AI endpoint against a written
//! policy; the reply is expected in a `score|reason` shape.  This crate
//! holds the parts of that pipeline whose behaviour can be pinned down
//! exactly: the wire-string codecs for the endpoint's closed enums, the
//! request builder, the verdict parser, and the threshold decision
//! engine.  The network transport and the chat-gateway plumbing live
//! outside, in an unverified shell that hands plain values in and out.

pub mod defs;
pub mod enums;
pub mod pipeline;
pub mod policy;
pub mod text;
pub mod verdict;
