//! The terminal summary of one submitted transaction.

use vstd::prelude::*;

use crate::events::RawEventRecord;
use crate::events::TransactionEvent;
use crate::events::events_match_records;

verus! {

/// Lifecycle status of a submitted transaction.
#[derive(Clone, Copy, Debug, PartialEq, Eq, Structural)]
pub enum TransactionStatus {
    Pending,
    InBlock,
    Finalized,
    Failed,
}

/// The terminal, immutable summary of one submission.
#[derive(Clone, Debug)]
pub struct TransactionResult {
    /// Stable identifier of the transaction, known upon submission.
    pub hash: String,
    /// Identifier of the block that included the transaction; absent until
    /// inclusion.
    pub block_hash: Option<String>,
    /// Where the submission stands.
    pub status: TransactionStatus,
    /// Ordered decoded events from the relevant block; empty until inclusion.
    pub events: Vec<TransactionEvent>,
    /// Present exactly when `status` is `Failed`: the human-readable cause.
    pub error: Option<String>,
}

impl TransactionResult {
    /// The structural invariant of a reported result: an error is carried
    /// exactly by a failed result, a block reference accompanies every
    /// included or finalized result, and events are only ever populated
    /// together with a block reference.
    pub open spec fn wf(&self) -> bool {
        &&& self.error is Some <==> self.status is Failed
        &&& (self.status is InBlock || self.status is Finalized) ==> self.block_hash is Some
        &&& self.events@.len() > 0 ==> self.block_hash is Some
    }
}

/// The mathematical shape of a reported result: views of the optional
/// strings, and the raw records that back the decoded events.
pub struct ResultModel {
    pub status: TransactionStatus,
    pub block: Option<Seq<char>>,
    pub events: Seq<RawEventRecord>,
    pub error: Option<Seq<char>>,
}

/// An optional owned string seen through its view.
pub open spec fn opt_str_matches(o: Option<String>, m: Option<Seq<char>>) -> bool {
    match o {
        Option::None => m is None,
        Option::Some(s) => m matches Option::Some(v) && s@ == v,
    }
}

/// A concrete result carries exactly what the model prescribes: the given
/// hash, the model's status, block reference and error text, and one decoded
/// event per backing record, in order.
pub open spec fn result_matches(r: TransactionResult, hash: Seq<char>, m: ResultModel) -> bool {
    &&& r.hash@ == hash
    &&& r.status == m.status
    &&& opt_str_matches(r.block_hash, m.block)
    &&& events_match_records(r.events@, m.events)
    &&& opt_str_matches(r.error, m.error)
}

/// A model is well formed under the same rules as a concrete result.
pub open spec fn model_wf(m: ResultModel) -> bool {
    &&& m.error is Some <==> m.status is Failed
    &&& (m.status is InBlock || m.status is Finalized) ==> m.block is Some
    &&& m.events.len() > 0 ==> m.block is Some
}

} // verus!
