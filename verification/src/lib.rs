//! Client library for a cloud platform's REST API (applications,
//! container-image builds, secrets).
//!
//! The heart of the crate is [`event_source::SseDecoder`], an incremental
//! decoder for `"data: {json}\n"` frames arriving over a chunked byte
//! stream.  The surrounding modules hold the typed request and response
//! models, the URL paths and query parameters of each endpoint, and the
//! classification of HTTP responses into errors.  The HTTP transport
//! itself lives outside this crate.

pub mod event_source;

pub mod stream_model;

pub mod strings;

pub mod error;

pub mod applications;

pub mod images;

pub mod secrets;
