//! A minimal HTTP/1.1 request pipeline: request-line scanning, routing,
//! response rendering and wire framing, all working on raw bytes.
//!
//! The surrounding binary owns the sockets; it hands each connection's raw
//! request bytes to [`handle::handle_request`] and writes the returned wire
//! bytes back. Everything in this crate is a pure function of those bytes.

pub mod handle;
pub mod laws;
pub mod render;
pub mod router;
pub mod scan;
pub mod wire;
