//! Block- and storage-synchronization engine for a trusted light client that
//! tracks a proof-of-finality blockchain, and optionally a parachain anchored
//! to it.  Batches of headers and storage deltas arrive from an untrusted
//! relay; the synchronizer validates chain continuity and finality, bridges
//! relaychain state roots into parachain header validation, and gates storage
//! commits on state-root agreement.

pub mod actions;
pub mod blocks;
pub mod chain_client;
pub mod codec;
pub mod extra;
pub mod storage;
pub mod storage_sync;
