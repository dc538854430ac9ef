//! The status classifier: raw chain notifications mapped onto a closed set of
//! lifecycle states.

use vstd::prelude::*;

verus! {

/// One raw notification about a submitted transaction, as the chain
/// connection reports it. Block references are carried as the textual block
/// hash.
#[derive(Clone, Debug)]
pub enum ChainNotification {
    /// The transaction passed the node's validity checks.
    Validated,
    /// The transaction was announced to peers.
    Broadcast,
    /// The transaction is part of the named candidate block.
    InBestBlock(String),
    /// A candidate block that held the transaction was retracted.
    NoLongerInBestBlock,
    /// The named block holding the transaction became final.
    InFinalizedBlock(String),
    /// The transaction left the node's submission pool.
    Dropped,
    /// The node rejected the transaction as invalid.
    Invalid,
}

/// The classifier's closed output set: what one notification means for the
/// tracked transaction's lifecycle.
#[derive(Clone, Debug)]
pub enum LifecycleState {
    /// Nothing decided yet; keep waiting.
    Pending,
    /// Included in the referenced block; not yet guaranteed permanent.
    InBlock(String),
    /// The referenced block, and the transaction with it, is irreversible.
    Finalized(String),
    /// Removed from the submission pool; terminal.
    Dropped,
    /// Rejected outright; terminal.
    Invalid,
    /// Any other notification: treated as a no-op.
    Unrecognized,
}

/// What `classify` returns for each notification.
pub open spec fn classify_spec(n: ChainNotification) -> LifecycleState {
    match n {
        ChainNotification::Validated => LifecycleState::Pending,
        ChainNotification::Broadcast => LifecycleState::Pending,
        ChainNotification::InBestBlock(b) => LifecycleState::InBlock(b),
        ChainNotification::NoLongerInBestBlock => LifecycleState::Unrecognized,
        ChainNotification::InFinalizedBlock(b) => LifecycleState::Finalized(b),
        ChainNotification::Dropped => LifecycleState::Dropped,
        ChainNotification::Invalid => LifecycleState::Invalid,
    }
}

/// Map one raw chain notification onto exactly one lifecycle state.
pub fn classify(n: &ChainNotification) -> (r: LifecycleState)
    ensures
        r == classify_spec(*n),
{
    match n {
        ChainNotification::Validated => LifecycleState::Pending,
        ChainNotification::Broadcast => LifecycleState::Pending,
        ChainNotification::InBestBlock(b) => LifecycleState::InBlock(b.clone()),
        ChainNotification::NoLongerInBestBlock => LifecycleState::Unrecognized,
        ChainNotification::InFinalizedBlock(b) => LifecycleState::Finalized(b.clone()),
        ChainNotification::Dropped => LifecycleState::Dropped,
        ChainNotification::Invalid => LifecycleState::Invalid,
    }
}

/// The fixed diagnostic attached when the pool drops the transaction.
pub open spec fn dropped_msg() -> Seq<char> {
    "transaction dropped from the submission pool"@
}

/// The fixed diagnostic attached when the node rejects the transaction.
pub open spec fn invalid_msg() -> Seq<char> {
    "transaction rejected as invalid"@
}

/// The fixed diagnostic attached when the stream ends with nothing decided.
pub open spec fn stream_ended_msg() -> Seq<char> {
    "monitoring stopped unexpectedly"@
}

/// The fixed diagnostic for events not obtainable from an included block.
pub open spec fn fetch_failed_msg() -> Seq<char> {
    "could not fetch events for the included block"@
}

/// The dropped-from-pool diagnostic as an owned string.
pub fn dropped_message() -> (s: String)
    ensures
        s@ == dropped_msg(),
{
    String::from_str("transaction dropped from the submission pool")
}

/// The rejected-as-invalid diagnostic as an owned string.
pub fn invalid_message() -> (s: String)
    ensures
        s@ == invalid_msg(),
{
    String::from_str("transaction rejected as invalid")
}

/// The stream-exhausted diagnostic as an owned string.
pub fn stream_ended_message() -> (s: String)
    ensures
        s@ == stream_ended_msg(),
{
    String::from_str("monitoring stopped unexpectedly")
}

/// The failed-fetch diagnostic as an owned string.
pub fn fetch_failed_message() -> (s: String)
    ensures
        s@ == fetch_failed_msg(),
{
    String::from_str("could not fetch events for the included block")
}

} // verus!
