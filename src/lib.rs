//! A client library for a streamed, token-guarded chat service: the
//! conversation session, the framing of its requests, and the decoder that
//! turns the line-oriented reply stream into text fragments.

pub mod config;
pub mod ddg;
pub mod wire;
