//! Wire protocol: versioned handshake, request/response messages, and
//! length-delimited framing.
//!
//! Connection lifecycle: raw 6-byte [`handshake`] first, then [`codec`] frames
//! carrying [`wire::Request`] / [`wire::Response`].

pub mod codec;
pub mod handshake;
pub mod wire;
