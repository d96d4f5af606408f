//! Connection-to-response dispatch core: typed extraction, handler dispatch,
//! a conditional-GET and byte-range file responder, and the per-connection
//! HTTP/2 bootstrap state machine.

pub mod text;
pub mod http;
pub mod words;
pub mod range;
pub mod named;
pub mod serving;
pub mod chunked;
pub mod json;
pub mod data;
pub mod handler;
pub mod builder;
pub mod h2;
