//! The computing half of a bridge to a generative-language service.
//!
//! A caller hands over a key and a prompt. [`request::build_request`]
//! describes the one `POST` that carries the prompt; the caller sends it and
//! comes back with the answer's body, or with the reason why there is none;
//! [`report::conclude`] reads the body and decides what the host is told.
//! Nothing here touches the network.
//!
//! JSON text is read and written by `serde_json`. What is assumed of it, and
//! not proved, stands in [`codec`]; everything else is verified.

pub mod codec;
pub mod failure;
pub mod json;
pub mod reply;
pub mod report;
pub mod request;
