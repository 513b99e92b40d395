//! Role bootstrap and replication rules for a two-role host/peer session.
//!
//! A process first negotiates its role: it tries to host on a fixed loopback
//! address and falls back to joining that address as a peer. The negotiation
//! is a state machine that reads outcomes of outside work (clock reads, socket
//! binds, transport construction) as events and answers with actions.
//! Afterwards, two per-tick rules react to replicated markers: one attaches a
//! child to each childless marker, one recolours a label when a marker is new.
pub mod endpoint;
pub mod negotiation;
pub mod scene;
