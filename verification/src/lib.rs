//! Protocol core of a realtime WebSocket connector for the FTX exchange.
//!
//! The crate holds the decisions of the connector and none of its I/O: how a
//! session signs in, which control frames it writes, how it waits for a
//! confirmation, which inbound frames become events and in what order. A
//! driver owns the socket and the timer, performs what these functions hand
//! back and feeds them what arrived.

pub mod codec;
pub mod common;
pub mod ftx_auth_settings;
pub mod ws;
