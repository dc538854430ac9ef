//! Client-side tracking of a submitted ledger transaction.
//!
//! The crate follows one transaction from submission through inclusion and
//! finality: raw chain notifications are classified onto a closed set of
//! lifecycle states, a block's raw event records are decoded into inspectable
//! events, decoded events are scanned for a dispatch failure that can coexist
//! with successful inclusion, and an orchestrator folds the whole notification
//! stream into one terminal `TransactionResult`.
//!
//! Around that core sit the small data models the same client carries:
//! soulbound tokens with their reputation bookkeeping, the call-data encoders
//! for the identity extrinsics, the on-chain bridge contract state, and an
//! owned metadata cache.

pub mod account;
pub mod analytics;
pub mod cache;
pub mod calls;
pub mod emotional_bridge;
pub mod events;
pub mod json;
pub mod laws;
pub mod outcome;
pub mod soulbound;
pub mod status;
pub mod tracker;
pub mod xcm;

pub use account::AccountId;
