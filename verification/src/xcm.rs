//! Configuration of one cross-chain message bridge.

use vstd::prelude::*;

verus! {

/// One configured bridge between two chains: the endpoints, whether the
/// bridge is live, and when it last synchronized. The message processing
/// that reads this configuration handles opaque JSON payloads and lives
/// with the client shell.
#[derive(Clone, Debug)]
pub struct XcmBridgeConfig {
    pub bridge_id: String,
    pub source_chain: String,
    pub target_chain: String,
    pub source_contract: String,
    pub target_contract: String,
    pub is_active: bool,
    pub last_sync_timestamp: u64,
}

} // verus!
