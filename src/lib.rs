//! Settlement handshake of a peer-to-peer mutual-credit transaction.
//!
//! Two agents, each with a private append-only log and no shared ledger, agree
//! that a transaction took place: `offer` holds the offer lifecycle and the
//! private record store, `handshake` the protocol's decisions on both sides,
//! `snapshot` log excerpts used as evidence, and `laws` what holds across steps.

pub mod address;
pub mod offer;
pub mod handshake;
pub mod laws;
pub mod snapshot;
