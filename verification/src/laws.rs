//! The guarantees of the submission orchestrator, stated and proved once and
//! for all over the specification-level interpreter [`interp`]. The driver
//! [`crate::tracker::track_submission`] is proved to return exactly what
//! `interp` prescribes, so each statement here is a statement about what the
//! executable watch operations return.

use vstd::prelude::*;

use crate::events::RawEventRecord;
use crate::events::all_records_readable;
use crate::events::records_have_failure;
use crate::status::LifecycleState;
use crate::status::classify_spec;
use crate::status::dropped_msg;
use crate::status::invalid_msg;
use crate::status::stream_ended_msg;
use crate::tracker::BlockEvents;
use crate::tracker::StreamItem;
use crate::tracker::TrackOutcome;
use crate::tracker::WatchMode;
use crate::tracker::chain_has_block;
use crate::tracker::chain_records;
use crate::tracker::dispatch_failed_model;
use crate::tracker::failed_model;
use crate::tracker::finalized_model;
use crate::tracker::included_model;
use crate::tracker::interp;

verus! {

/// A notification the orchestrator passes over: classified pending or
/// unrecognized.
pub open spec fn item_is_noop(it: StreamItem) -> bool {
    it matches StreamItem::Status(n) && (classify_spec(n) is Pending || classify_spec(n)
        is Unrecognized)
}

/// The chain can deliver the block's events, and every record decodes.
pub open spec fn block_ok(chain: Seq<BlockEvents>, b: Seq<char>) -> bool {
    chain_has_block(chain, b) && all_records_readable(chain_records(chain, b))
}

/// A deliverable, decodable block whose events carry no dispatch failure.
pub open spec fn block_clean(chain: Seq<BlockEvents>, b: Seq<char>) -> bool {
    block_ok(chain, b) && !records_have_failure(chain_records(chain, b))
}

/// An inclusion notification whose block is deliverable, decodable and
/// clean.
pub open spec fn item_is_clean_inclusion(it: StreamItem, chain: Seq<BlockEvents>) -> bool {
    it matches StreamItem::Status(n) && (classify_spec(n) matches LifecycleState::InBlock(b)
        && block_clean(chain, b@))
}

/// An item that a finality-mode watch consumes without settling: a no-op
/// notification, or a clean inclusion it keeps while waiting for finality.
pub open spec fn item_is_inert(it: StreamItem, chain: Seq<BlockEvents>) -> bool {
    item_is_noop(it) || item_is_clean_inclusion(it, chain)
}

/// An item that either mode consumes without settling: a no-op always, and a
/// clean inclusion only while driving to finality.
pub open spec fn item_is_inert_for(it: StreamItem, chain: Seq<BlockEvents>, mode: WatchMode) -> bool {
    item_is_noop(it) || (mode is UntilFinalized && item_is_clean_inclusion(it, chain))
}

/// Every notification sequence that ends in finality settles at that block:
/// the watch reports the finalized block, with status finalized and no error
/// when the block's events are clean, and status failed with an error when
/// they carry the ledger's failure signal. Holds for any inclusion already
/// observed, provided everything before the finality notification is inert.
pub proof fn finalized_stream_settles(
    items: Seq<StreamItem>,
    chain: Seq<BlockEvents>,
    seen: Option<(Seq<char>, Seq<RawEventRecord>)>,
    b: String,
)
    requires
        items.len() > 0,
        items[items.len() - 1] matches StreamItem::Status(n) && classify_spec(n)
            == LifecycleState::Finalized(b),
        block_ok(chain, b@),
        forall|j: int| 0 <= j < items.len() - 1 ==> item_is_inert(#[trigger] items[j], chain),
    ensures
        interp(WatchMode::UntilFinalized, seen, items, chain) == (if records_have_failure(
            chain_records(chain, b@),
        ) {
            TrackOutcome::Report(dispatch_failed_model(b@, chain_records(chain, b@)))
        } else {
            TrackOutcome::Report(finalized_model(b@, chain_records(chain, b@)))
        }),
    decreases items.len(),
{
    if items.len() == 1 {
    } else {
        let first = items[0];
        assert(item_is_inert(first, chain));
        let rest = items.drop_first();
        assert(rest[rest.len() - 1] == items[items.len() - 1]);
        assert(forall|j: int| 0 <= j < rest.len() - 1 ==> item_is_inert(#[trigger] rest[j], chain));
        if item_is_noop(first) {
            finalized_stream_settles(rest, chain, seen, b);
        } else {
            match first {
                StreamItem::Status(n0) => {
                    match classify_spec(n0) {
                        LifecycleState::InBlock(b0) => {
                            finalized_stream_settles(
                                rest,
                                chain,
                                Some((b0@, chain_records(chain, b0@))),
                                b,
                            );
                        },
                        _ => {
                            assert(false);
                        },
                    }
                },
                _ => {
                    assert(false);
                },
            }
        }
    }
}

/// The settled outcome of an inclusion whose block carries the failure
/// signal, reached across any inert prefix.
proof fn lemma_dispatch_failure_settles(
    items: Seq<StreamItem>,
    chain: Seq<BlockEvents>,
    seen: Option<(Seq<char>, Seq<RawEventRecord>)>,
    i: int,
    b: String,
)
    requires
        0 <= i < items.len(),
        items[i] matches StreamItem::Status(n) && classify_spec(n) == LifecycleState::InBlock(b),
        block_ok(chain, b@),
        records_have_failure(chain_records(chain, b@)),
        forall|j: int| 0 <= j < i ==> item_is_inert(#[trigger] items[j], chain),
    ensures
        interp(WatchMode::UntilFinalized, seen, items, chain) == TrackOutcome::Report(
            dispatch_failed_model(b@, chain_records(chain, b@)),
        ),
    decreases i,
{
    if i == 0 {
    } else {
        let first = items[0];
        assert(item_is_inert(first, chain));
        let rest = items.drop_first();
        assert(rest[i - 1] == items[i]);
        assert(forall|j: int| 0 <= j < i - 1 ==> item_is_inert(#[trigger] rest[j], chain));
        if item_is_noop(first) {
            lemma_dispatch_failure_settles(rest, chain, seen, i - 1, b);
        } else {
            match first {
                StreamItem::Status(n0) => {
                    match classify_spec(n0) {
                        LifecycleState::InBlock(b0) => {
                            lemma_dispatch_failure_settles(
                                rest,
                                chain,
                                Some((b0@, chain_records(chain, b0@))),
                                i - 1,
                                b,
                            );
                        },
                        _ => {
                            assert(false);
                        },
                    }
                },
                _ => {
                    assert(false);
                },
            }
        }
    }
}

/// Fail-fast: once an inclusion notification names a block whose events
/// carry the ledger's failure signal, the finality-mode watch settles as
/// failed at that very item. Whatever follows in the stream — a later
/// finality notification included — changes nothing: the outcome equals the
/// outcome of the stream truncated right after that item.
pub proof fn dispatch_failure_fails_fast(
    items: Seq<StreamItem>,
    chain: Seq<BlockEvents>,
    seen: Option<(Seq<char>, Seq<RawEventRecord>)>,
    i: int,
    b: String,
)
    requires
        0 <= i < items.len(),
        items[i] matches StreamItem::Status(n) && classify_spec(n) == LifecycleState::InBlock(b),
        block_ok(chain, b@),
        records_have_failure(chain_records(chain, b@)),
        forall|j: int| 0 <= j < i ==> item_is_inert(#[trigger] items[j], chain),
    ensures
        interp(WatchMode::UntilFinalized, seen, items, chain) == TrackOutcome::Report(
            dispatch_failed_model(b@, chain_records(chain, b@)),
        ),
        interp(WatchMode::UntilFinalized, seen, items, chain) == interp(
            WatchMode::UntilFinalized,
            seen,
            items.take(i + 1),
            chain,
        ),
{
    lemma_dispatch_failure_settles(items, chain, seen, i, b);
    let cut = items.take(i + 1);
    assert(cut[i] == items[i]);
    assert(forall|j: int| 0 <= j < i ==> cut[j] == items[j]);
    assert(forall|j: int| 0 <= j < i ==> item_is_inert(#[trigger] cut[j], chain));
    lemma_dispatch_failure_settles(cut, chain, seen, i, b);
}

/// When the first terminal notification is dropped or invalid, the watch
/// reports a failed result carrying the corresponding fixed diagnostic and
/// no events, in either mode.
pub proof fn dropped_or_invalid_fails_immediately(
    items: Seq<StreamItem>,
    chain: Seq<BlockEvents>,
    seen: Option<(Seq<char>, Seq<RawEventRecord>)>,
    mode: WatchMode,
    i: int,
)
    requires
        0 <= i < items.len(),
        items[i] matches StreamItem::Status(n) && (classify_spec(n) is Dropped || classify_spec(n)
            is Invalid),
        forall|j: int| 0 <= j < i ==> item_is_inert_for(#[trigger] items[j], chain, mode),
    ensures
        items[i] matches StreamItem::Status(n) ==> interp(mode, seen, items, chain)
            == TrackOutcome::Report(
            failed_model(
                if classify_spec(n) is Dropped {
                    dropped_msg()
                } else {
                    invalid_msg()
                },
            ),
        ),
    decreases i,
{
    if i == 0 {
    } else {
        let first = items[0];
        assert(item_is_inert_for(first, chain, mode));
        let rest = items.drop_first();
        assert(rest[i - 1] == items[i]);
        assert(forall|j: int|
            0 <= j < i - 1 ==> item_is_inert_for(#[trigger] rest[j], chain, mode));
        if item_is_noop(first) {
            dropped_or_invalid_fails_immediately(rest, chain, seen, mode, i - 1);
        } else {
            match first {
                StreamItem::Status(n0) => {
                    match classify_spec(n0) {
                        LifecycleState::InBlock(b0) => {
                            dropped_or_invalid_fails_immediately(
                                rest,
                                chain,
                                Some((b0@, chain_records(chain, b0@))),
                                mode,
                                i - 1,
                            );
                        },
                        _ => {
                            assert(false);
                        },
                    }
                },
                _ => {
                    assert(false);
                },
            }
        }
    }
}

/// When the stream ends without any terminal notification, the watch reports
/// a failed result carrying the fixed stream-exhausted diagnostic, in either
/// mode.
pub proof fn exhausted_stream_reports_failure(
    items: Seq<StreamItem>,
    chain: Seq<BlockEvents>,
    seen: Option<(Seq<char>, Seq<RawEventRecord>)>,
    mode: WatchMode,
)
    requires
        forall|j: int| 0 <= j < items.len() ==> item_is_inert_for(#[trigger] items[j], chain, mode),
    ensures
        interp(mode, seen, items, chain) matches TrackOutcome::Report(m) && m.status is Failed
            && m.error == Some(stream_ended_msg()),
    decreases items.len(),
{
    if items.len() == 0 {
    } else {
        let first = items[0];
        assert(item_is_inert_for(first, chain, mode));
        let rest = items.drop_first();
        assert(forall|j: int|
            0 <= j < rest.len() ==> item_is_inert_for(#[trigger] rest[j], chain, mode));
        if item_is_noop(first) {
            exhausted_stream_reports_failure(rest, chain, seen, mode);
        } else {
            match first {
                StreamItem::Status(n0) => {
                    match classify_spec(n0) {
                        LifecycleState::InBlock(b0) => {
                            exhausted_stream_reports_failure(
                                rest,
                                chain,
                                Some((b0@, chain_records(chain, b0@))),
                                mode,
                            );
                        },
                        _ => {
                            assert(false);
                        },
                    }
                },
                _ => {
                    assert(false);
                },
            }
        }
    }
}

/// In the inclusion-only mode the watch settles at the first inclusion or
/// finality notification: a clean block is reported as included, with its
/// events and no error, whatever may follow in the stream — even when that
/// first notification already announces finality.
pub proof fn inclusion_mode_settles_at_inclusion(
    items: Seq<StreamItem>,
    chain: Seq<BlockEvents>,
    seen: Option<(Seq<char>, Seq<RawEventRecord>)>,
    i: int,
    b: String,
)
    requires
        0 <= i < items.len(),
        items[i] matches StreamItem::Status(n) && (classify_spec(n) == LifecycleState::InBlock(b)
            || classify_spec(n) == LifecycleState::Finalized(b)),
        block_clean(chain, b@),
        forall|j: int| 0 <= j < i ==> item_is_noop(#[trigger] items[j]),
    ensures
        interp(WatchMode::UntilInBlock, seen, items, chain) == TrackOutcome::Report(
            included_model(b@, chain_records(chain, b@)),
        ),
    decreases i,
{
    if i == 0 {
    } else {
        let rest = items.drop_first();
        assert(rest[i - 1] == items[i]);
        assert(forall|j: int| 0 <= j < i - 1 ==> item_is_noop(#[trigger] rest[j]));
        inclusion_mode_settles_at_inclusion(rest, chain, seen, i - 1, b);
    }
}

/// The inclusion-only watch never reports past inclusion: whatever the
/// stream and the chain hold, and whatever was already observed, a reported
/// result's status is included or failed — never pending, never finalized.
/// A block that is already final when first seen is reported as included.
pub proof fn inclusion_mode_reports_inclusion_or_failure(
    items: Seq<StreamItem>,
    chain: Seq<BlockEvents>,
    seen: Option<(Seq<char>, Seq<RawEventRecord>)>,
)
    ensures
        interp(WatchMode::UntilInBlock, seen, items, chain) matches TrackOutcome::Report(m) ==> (
        m.status is InBlock || m.status is Failed),
    decreases items.len(),
{
    if items.len() > 0 {
        match items[0] {
            StreamItem::Status(n0) => {
                match classify_spec(n0) {
                    LifecycleState::Pending => {
                        inclusion_mode_reports_inclusion_or_failure(
                            items.drop_first(),
                            chain,
                            seen,
                        );
                    },
                    LifecycleState::Unrecognized => {
                        inclusion_mode_reports_inclusion_or_failure(
                            items.drop_first(),
                            chain,
                            seen,
                        );
                    },
                    _ => {},
                }
            },
            _ => {},
        }
    }
}

} // verus!
