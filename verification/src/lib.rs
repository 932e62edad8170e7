//! Core logic of a PostgreSQL-protocol intercepting proxy.
//!
//! The library models the startup-phase protocol state machine
//! (encryption negotiation, startup parameters, cancel requests), the
//! table that correlates cancel keys with live sessions, the per-session
//! pipeline from authentication to the byte relay, and the byte counters
//! kept per destination. All I/O sits outside the library: a driver reads
//! messages from the wire, feeds them to the state machines here, and
//! performs the actions they return.

pub mod cancellation;
pub mod counters;
pub mod errors;
pub mod handshake;
pub mod messages;
pub mod relay;
pub mod session;
