//! A request/response correlation layer over a one-way publish/subscribe
//! transport: wire framing of each call (compression selection, versioning,
//! correlation identifier, per-call timeout hint), the correlation table that
//! matches an inbound response to its originating call, and the keep-alive
//! scheduling that keeps the underlying connection alive across idle periods.
pub mod client;
pub mod codec;
pub mod httpc;
pub mod keepalive;
pub mod table;

