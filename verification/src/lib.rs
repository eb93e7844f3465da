//! Receiving one length-prefixed text message from a single stream of one
//! secure connection.
//!
//! A frame is an eight-byte header followed by a body. The header carries a
//! protocol version, a message type and the body length; the body is UTF-8
//! text.
//!
//! - [`listener`]: the address, the host names and the protocol the server
//!   presents, and the handshake settings built from them;
//! - [`header`], [`body`], [`text`]: parsing the header, filling the body
//!   from one read, decoding it;
//! - [`flow`]: the state machine that orders these stages and decides what
//!   each outcome leads to;
//! - [`error`]: the failures and which of them end the flow;
//! - [`laws`]: what holds of the flow as a whole;
//! - [`client`]: the certificate policy of a client used to try the server.

pub mod body;
pub mod client;
pub mod error;
pub mod flow;
pub mod header;
pub mod laws;
pub mod listener;
pub mod text;
