//! Peer-to-peer space routing core: content-address hashes, the event
//! surface, and the decision logic of the space routing actor with its
//! fetch/gossip coordination pipeline.
//!
//! The routing actor itself runs as an asynchronous task outside this
//! crate; everything it decides — space lookup and lazy creation, the
//! unknown-space fallback policy, fetch-pool merging and retry, pending
//! delegate resolution, permit accounting — is implemented and verified
//! here as functions from state and event to next state and action.

pub mod byte_ops;
pub mod delegate;
pub mod dispatch;
pub mod error;
pub mod event;
pub mod fetch_pool;
pub mod hash;
pub mod hash_type;
pub mod permit;
pub mod registry;
pub mod router;
pub mod stats;
pub mod types;
