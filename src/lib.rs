//! Client side of a JSON-RPC 2.0 interface: call identifiers, request
//! envelopes, response decoding and the transport capability that carries
//! them.
pub mod client;
pub mod error;
pub mod ids;
pub mod method;
pub mod request;
pub mod response;
