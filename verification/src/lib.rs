//! A synchronous request/response bridge to a line-oriented JSON worker
//! process: a wire document model, a codec over serde_json, request-id
//! correlation, the startup handshake state machine, and fully specified
//! typed decoding of the worker's replies.

pub mod errors;
pub mod wire;
pub mod codec;
pub mod bridge;
pub mod domain;
pub mod interpret;
pub mod numlist;
pub mod catalogue;
