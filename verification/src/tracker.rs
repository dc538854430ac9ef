//! The submission orchestrator: one notification stream folded into one
//! terminal [`TransactionResult`].
//!
//! [`SubmissionTracker`] consumes the stream one notification at a time and
//! tells its driver what to do next: keep reading, fetch an included block's
//! events, or stop. [`track_submission`] drives a tracker over a whole
//! in-memory stream and is proved equal to the specification-level
//! interpreter [`interp`].

use vstd::prelude::*;

use crate::events::DecodeError;
use crate::events::RawEventRecord;
use crate::events::TransactionEvent;
use crate::events::all_records_readable;
use crate::events::check_dispatch_error;
use crate::events::decode_events;
use crate::events::dispatch_failure_msg;
use crate::events::events_match_records;
use crate::events::first_malformed_msg;
use crate::events::lemma_failure_correspondence;
use crate::events::records_have_failure;
use crate::outcome::ResultModel;
use crate::outcome::TransactionResult;
use crate::outcome::TransactionStatus;
use crate::outcome::model_wf;
use crate::outcome::result_matches;
use crate::status::ChainNotification;
use crate::status::LifecycleState;
use crate::status::classify;
use crate::status::classify_spec;
use crate::status::dropped_message;
use crate::status::dropped_msg;
use crate::status::fetch_failed_message;
use crate::status::fetch_failed_msg;
use crate::status::invalid_message;
use crate::status::invalid_msg;
use crate::status::stream_ended_message;
use crate::status::stream_ended_msg;

verus! {

/// One item of the notification stream: a status notification, or the
/// connection reporting that it failed.
#[derive(Clone, Debug)]
pub enum StreamItem {
    Status(ChainNotification),
    ConnectionError(String),
}

/// The raw event records the chain connection returns for one block.
#[derive(Clone, Debug)]
pub struct BlockEvents {
    pub block_hash: String,
    pub records: Vec<RawEventRecord>,
}

/// How far the caller wants the submission driven: to finality, or only to
/// inclusion.
#[derive(Clone, Copy, Debug, PartialEq, Eq, Structural)]
pub enum WatchMode {
    UntilFinalized,
    UntilInBlock,
}

/// Why an observation could not produce a `TransactionResult`: the
/// connection failed, or a block's events could not be decoded. Either is
/// distinct from the ledger itself reporting a failed transaction, which is
/// a result, not an error.
#[derive(Clone, Debug)]
pub enum TrackError {
    Transport(String),
    Decode(DecodeError),
}

/// The specification-level outcome of consuming a stream.
pub enum TrackOutcome {
    Transport(Seq<char>),
    Decode(Seq<char>),
    Report(ResultModel),
}

/// Whether the chain holds events for the referenced block.
pub open spec fn chain_has_block(chain: Seq<BlockEvents>, b: Seq<char>) -> bool
    decreases chain.len(),
{
    if chain.len() == 0 {
        false
    } else {
        chain[0].block_hash@ == b || chain_has_block(chain.drop_first(), b)
    }
}

/// The raw records of the first entry for the referenced block.
pub open spec fn chain_records(chain: Seq<BlockEvents>, b: Seq<char>) -> Seq<RawEventRecord>
    decreases chain.len(),
{
    if chain.len() == 0 {
        Seq::empty()
    } else if chain[0].block_hash@ == b {
        chain[0].records@
    } else {
        chain_records(chain.drop_first(), b)
    }
}

/// Entries that do not name the block do not affect the lookup.
proof fn lemma_chain_lookup_skip(chain: Seq<BlockEvents>, b: Seq<char>, i: int)
    requires
        0 <= i <= chain.len(),
        forall|j: int| 0 <= j < i ==> (#[trigger] chain[j]).block_hash@ != b,
    ensures
        chain_has_block(chain, b) == chain_has_block(chain.skip(i), b),
        chain_records(chain, b) == chain_records(chain.skip(i), b),
    decreases i,
{
    if i == 0 {
        assert(chain.skip(0) =~= chain);
    } else {
        assert(chain[0].block_hash@ != b);
        let rest = chain.drop_first();
        assert forall|j: int| 0 <= j < i - 1 implies (#[trigger] rest[j]).block_hash@ != b by {
            assert(rest[j] == chain[j + 1]);
        }
        lemma_chain_lookup_skip(rest, b, i - 1);
        assert(rest.skip(i - 1) =~= chain.skip(i));
        assert(chain_has_block(chain, b) == chain_has_block(rest, b));
        assert(chain_records(chain, b) == chain_records(rest, b));
    }
}

/// Look up the raw events for one block, as the connection returned them.
pub fn fetch_block_events<'a>(chain: &'a Vec<BlockEvents>, block: &String) -> (r: Option<
    &'a Vec<RawEventRecord>,
>)
    ensures
        r is Some <==> chain_has_block(chain@, block@),
        r matches Some(v) ==> v@ == chain_records(chain@, block@),
{
    let mut i: usize = 0;
    while i < chain.len()
        invariant
            i <= chain@.len(),
            forall|j: int| 0 <= j < i ==> (#[trigger] chain@[j]).block_hash@ != block@,
        decreases chain@.len() - i,
    {
        if chain[i].block_hash == *block {
            proof {
                lemma_chain_lookup_skip(chain@, block@, i as int);
                assert(chain@.skip(i as int)[0] == chain@[i as int]);
            }
            return Some(&chain[i].records);
        }
        i += 1;
    }
    proof {
        lemma_chain_lookup_skip(chain@, block@, chain@.len() as int);
        assert(chain@.skip(chain@.len() as int) =~= Seq::<BlockEvents>::empty());
    }
    None
}

/// The result reported when a terminal notification carries no block: failed,
/// no events, with the given cause.
pub open spec fn failed_model(msg: Seq<char>) -> ResultModel {
    ResultModel {
        status: TransactionStatus::Failed,
        block: None,
        events: Seq::empty(),
        error: Some(msg),
    }
}

/// The block reference recorded by a clean inclusion, if any.
pub open spec fn seen_block_of(seen: Option<(Seq<char>, Seq<RawEventRecord>)>) -> Option<
    Seq<char>,
> {
    match seen {
        Some(p) => Some(p.0),
        None => None,
    }
}

/// The event records recorded by a clean inclusion; empty before inclusion.
pub open spec fn seen_records_of(seen: Option<(Seq<char>, Seq<RawEventRecord>)>) -> Seq<
    RawEventRecord,
> {
    match seen {
        Some(p) => p.1,
        None => Seq::empty(),
    }
}

/// The result reported when the stream ends with nothing decided: failed,
/// with the fixed diagnostic, keeping whatever inclusion was observed.
pub open spec fn stream_end_model(seen: Option<(Seq<char>, Seq<RawEventRecord>)>) -> ResultModel {
    ResultModel {
        status: TransactionStatus::Failed,
        block: seen_block_of(seen),
        events: seen_records_of(seen),
        error: Some(stream_ended_msg()),
    }
}

/// The result reported when an included block's events carry the ledger's
/// failure signal.
pub open spec fn dispatch_failed_model(b: Seq<char>, rs: Seq<RawEventRecord>) -> ResultModel {
    ResultModel {
        status: TransactionStatus::Failed,
        block: Some(b),
        events: rs,
        error: Some(dispatch_failure_msg()),
    }
}

/// The result reported on clean inclusion when the caller only wants
/// inclusion.
pub open spec fn included_model(b: Seq<char>, rs: Seq<RawEventRecord>) -> ResultModel {
    ResultModel { status: TransactionStatus::InBlock, block: Some(b), events: rs, error: None }
}

/// The result reported on clean finality.
pub open spec fn finalized_model(b: Seq<char>, rs: Seq<RawEventRecord>) -> ResultModel {
    ResultModel { status: TransactionStatus::Finalized, block: Some(b), events: rs, error: None }
}

/// The specification of the whole watch operation: consume the stream in
/// order, classify each notification, fetch and inspect events on inclusion
/// and finality, and settle on the first terminal outcome. `seen` carries a
/// clean inclusion already observed while waiting for finality.
pub open spec fn interp(
    mode: WatchMode,
    seen: Option<(Seq<char>, Seq<RawEventRecord>)>,
    items: Seq<StreamItem>,
    chain: Seq<BlockEvents>,
) -> TrackOutcome
    decreases items.len(),
{
    if items.len() == 0 {
        TrackOutcome::Report(stream_end_model(seen))
    } else {
        match items[0] {
            StreamItem::ConnectionError(m) => TrackOutcome::Transport(m@),
            StreamItem::Status(n) => match classify_spec(n) {
                LifecycleState::Pending => interp(mode, seen, items.drop_first(), chain),
                LifecycleState::Unrecognized => interp(mode, seen, items.drop_first(), chain),
                LifecycleState::Dropped => TrackOutcome::Report(failed_model(dropped_msg())),
                LifecycleState::Invalid => TrackOutcome::Report(failed_model(invalid_msg())),
                LifecycleState::InBlock(b) => {
                    if !chain_has_block(chain, b@) {
                        TrackOutcome::Transport(fetch_failed_msg())
                    } else {
                        let rs = chain_records(chain, b@);
                        if !all_records_readable(rs) {
                            TrackOutcome::Decode(first_malformed_msg(rs))
                        } else if records_have_failure(rs) {
                            TrackOutcome::Report(dispatch_failed_model(b@, rs))
                        } else if mode is UntilInBlock {
                            TrackOutcome::Report(included_model(b@, rs))
                        } else {
                            interp(mode, Some((b@, rs)), items.drop_first(), chain)
                        }
                    }
                },
                LifecycleState::Finalized(b) => {
                    if !chain_has_block(chain, b@) {
                        TrackOutcome::Transport(fetch_failed_msg())
                    } else {
                        let rs = chain_records(chain, b@);
                        if !all_records_readable(rs) {
                            TrackOutcome::Decode(first_malformed_msg(rs))
                        } else if records_have_failure(rs) {
                            TrackOutcome::Report(dispatch_failed_model(b@, rs))
                        } else if mode is UntilInBlock {
                            // The inclusion-only watch stops at inclusion;
                            // a finalized block is reported as included.
                            TrackOutcome::Report(included_model(b@, rs))
                        } else {
                            TrackOutcome::Report(finalized_model(b@, rs))
                        }
                    }
                },
            },
        }
    }
}

/// A returned error corresponds to the specification outcome.
pub open spec fn error_matches(e: TrackError, o: TrackOutcome) -> bool {
    match e {
        TrackError::Transport(s) => o matches TrackOutcome::Transport(v) && s@ == v,
        TrackError::Decode(d) => o matches TrackOutcome::Decode(v) && d.message@ == v,
    }
}

/// A returned value corresponds to the specification outcome: a result
/// exactly when the outcome is a report, matching it; an error exactly
/// matching a transport or decode outcome.
pub open spec fn track_result_matches(
    r: Result<TransactionResult, TrackError>,
    hash: Seq<char>,
    o: TrackOutcome,
) -> bool {
    match r {
        Ok(res) => o matches TrackOutcome::Report(m) && result_matches(res, hash, m),
        Err(e) => error_matches(e, o),
    }
}

/// What the driver must do next.
#[derive(Clone, Debug)]
pub enum Directive {
    /// Read the next stream item.
    Continue,
    /// Fetch the named block's raw events and hand them to
    /// `on_block_events`.
    FetchEvents(String),
    /// The terminal result is ready; collect it with `take_result`.
    Finished,
}

/// Tracks one submission across the notification stream. The driver feeds
/// notifications and fetched block events; the tracker owns every decision.
pub struct SubmissionTracker {
    mode: WatchMode,
    hash: String,
    done: bool,
    // Some((block, finality)) between an inclusion or finality notification
    // and the arrival of that block's events.
    pending_fetch: Option<(String, bool)>,
    seen_block: Option<String>,
    seen_events: Vec<TransactionEvent>,
    seen_records: Ghost<Seq<RawEventRecord>>,
    report: Option<TransactionResult>,
    report_model: Ghost<ResultModel>,
}

impl SubmissionTracker {
    /// The mode the tracker was created with.
    pub closed spec fn mode_spec(self) -> WatchMode {
        self.mode
    }

    /// The submitted transaction's hash.
    pub closed spec fn hash_spec(self) -> Seq<char> {
        self.hash@
    }

    /// Ready for the next stream item.
    pub closed spec fn is_streaming(self) -> bool {
        !self.done && self.pending_fetch is None
    }

    /// Waiting for a block's events.
    pub closed spec fn is_awaiting(self) -> bool {
        !self.done && self.pending_fetch is Some
    }

    /// The block whose events are awaited.
    pub closed spec fn awaited_block(self) -> Seq<char> {
        match self.pending_fetch {
            Some(p) => p.0@,
            None => Seq::empty(),
        }
    }

    /// Whether the awaited events belong to a finality notification.
    pub closed spec fn awaiting_finality(self) -> bool {
        match self.pending_fetch {
            Some(p) => p.1,
            None => false,
        }
    }

    /// The terminal result has been reached.
    pub closed spec fn is_done(self) -> bool {
        self.done
    }

    /// The clean inclusion observed so far, if any.
    pub closed spec fn seen_model(self) -> Option<(Seq<char>, Seq<RawEventRecord>)> {
        match self.seen_block {
            Some(b) => Some((b@, self.seen_records@)),
            None => None,
        }
    }

    /// The model of the terminal result, meaningful once done.
    pub closed spec fn report_model(self) -> ResultModel {
        self.report_model@
    }

    /// Internal consistency: recorded events match their records, and a
    /// finished tracker holds a well-formed result matching its model.
    pub closed spec fn wf(self) -> bool {
        &&& match self.seen_block {
            Some(_) => events_match_records(self.seen_events@, self.seen_records@),
            None => self.seen_events@.len() == 0 && self.seen_records@.len() == 0,
        }
        &&& self.done ==> (self.report matches Some(r) && result_matches(
            r,
            self.hash@,
            self.report_model@,
        ) && model_wf(self.report_model@))
        &&& !self.done ==> self.report is None
    }

    /// Start tracking one submission identified by its hash.
    pub fn new(mode: WatchMode, hash: String) -> (t: SubmissionTracker)
        ensures
            t.wf(),
            t.is_streaming(),
            t.mode_spec() == mode,
            t.hash_spec() == hash@,
            t.seen_model() is None,
    {
        SubmissionTracker {
            mode,
            hash,
            done: false,
            pending_fetch: None,
            seen_block: None,
            seen_events: Vec::new(),
            seen_records: Ghost(Seq::empty()),
            report: None,
            report_model: Ghost(failed_model(stream_ended_msg())),
        }
    }

    /// Whether the terminal result is ready.
    pub fn finished(&self) -> (b: bool)
        ensures
            b == self.is_done(),
    {
        self.done
    }

    /// Consume one status notification.
    ///
    /// A pending or unrecognized notification changes nothing. A dropped or
    /// invalid notification settles the submission as failed with its fixed
    /// diagnostic. An inclusion or finality notification asks the driver to
    /// fetch the referenced block's events.
    pub fn on_status(&mut self, n: &ChainNotification) -> (d: Directive)
        requires
            old(self).wf(),
            old(self).is_streaming(),
        ensures
            final(self).wf(),
            final(self).mode_spec() == old(self).mode_spec(),
            final(self).hash_spec() == old(self).hash_spec(),
            (classify_spec(*n) is Pending || classify_spec(*n) is Unrecognized) ==> (final(self).is_streaming() && final(self).seen_model() == old(self).seen_model()
                && d is Continue),
            classify_spec(*n) is Dropped ==> (final(self).is_done() && final(self).report_model()
                == failed_model(dropped_msg()) && d is Finished),
            classify_spec(*n) is Invalid ==> (final(self).is_done() && final(self).report_model()
                == failed_model(invalid_msg()) && d is Finished),
            classify_spec(*n) matches LifecycleState::InBlock(b) ==> (final(self).is_awaiting()
                && final(self).awaited_block() == b@ && !final(self).awaiting_finality() && final(self).seen_model() == old(self).seen_model() && (d matches Directive::FetchEvents(x)
                && x@ == b@)),
            classify_spec(*n) matches LifecycleState::Finalized(b) ==> (final(self).is_awaiting()
                && final(self).awaited_block() == b@ && final(self).awaiting_finality() && final(self).seen_model() == old(self).seen_model() && (d matches Directive::FetchEvents(x)
                && x@ == b@)),
    {
        match classify(n) {
            LifecycleState::Pending => Directive::Continue,
            LifecycleState::Unrecognized => Directive::Continue,
            LifecycleState::Dropped => {
                self.report = Some(
                    TransactionResult {
                        hash: self.hash.clone(),
                        block_hash: None,
                        status: TransactionStatus::Failed,
                        events: Vec::new(),
                        error: Some(dropped_message()),
                    },
                );
                self.report_model = Ghost(failed_model(dropped_msg()));
                self.done = true;
                Directive::Finished
            },
            LifecycleState::Invalid => {
                self.report = Some(
                    TransactionResult {
                        hash: self.hash.clone(),
                        block_hash: None,
                        status: TransactionStatus::Failed,
                        events: Vec::new(),
                        error: Some(invalid_message()),
                    },
                );
                self.report_model = Ghost(failed_model(invalid_msg()));
                self.done = true;
                Directive::Finished
            },
            LifecycleState::InBlock(b) => {
                let target = b.clone();
                self.pending_fetch = Some((b, false));
                Directive::FetchEvents(target)
            },
            LifecycleState::Finalized(b) => {
                let target = b.clone();
                self.pending_fetch = Some((b, true));
                Directive::FetchEvents(target)
            },
        }
    }

    /// Consume the awaited block's raw events.
    ///
    /// The records are decoded as a whole; one malformed record aborts the
    /// operation with a decode error. The decoded events are inspected for
    /// the ledger's failure signal: on failure the submission settles as
    /// failed at once, whatever the mode. Otherwise the inclusion-only mode
    /// settles as included — the block may even be final already, but this
    /// mode never reports past inclusion — while the finality mode settles
    /// only on a finality notification and records a plain inclusion to
    /// keep streaming.
    pub fn on_block_events(&mut self, records: &Vec<RawEventRecord>) -> (r: Result<
        Directive,
        DecodeError,
    >)
        requires
            old(self).wf(),
            old(self).is_awaiting(),
        ensures
            final(self).mode_spec() == old(self).mode_spec(),
            final(self).hash_spec() == old(self).hash_spec(),
            r matches Err(e) ==> (!all_records_readable(records@) && e.message@
                == first_malformed_msg(records@) && *final(self) == *old(self)),
            r matches Ok(d) ==> {
                &&& final(self).wf()
                &&& all_records_readable(records@)
                &&& if records_have_failure(records@) {
                    final(self).is_done() && final(self).report_model() == dispatch_failed_model(
                        old(self).awaited_block(),
                        records@,
                    ) && d is Finished
                } else if old(self).mode_spec() is UntilInBlock {
                    final(self).is_done() && final(self).report_model() == included_model(
                        old(self).awaited_block(),
                        records@,
                    ) && d is Finished
                } else if old(self).awaiting_finality() {
                    final(self).is_done() && final(self).report_model() == finalized_model(
                        old(self).awaited_block(),
                        records@,
                    ) && d is Finished
                } else {
                    final(self).is_streaming() && final(self).seen_model() == Some(
                        (old(self).awaited_block(), records@),
                    ) && d is Continue
                }
            },
    {
        let decoded = match decode_events(records) {
            Ok(evs) => evs,
            Err(e) => {
                return Err(e);
            },
        };
        let failure = check_dispatch_error(&decoded);
        proof {
            lemma_failure_correspondence(decoded@, records@);
        }
        let (block, finality) = match self.pending_fetch.take() {
            Some(p) => p,
            None => {
                proof {
                    assert(false);
                }
                vstd::pervasive::unreached()
            },
        };
        match failure {
            Some(msg) => {
                self.report = Some(
                    TransactionResult {
                        hash: self.hash.clone(),
                        block_hash: Some(block),
                        status: TransactionStatus::Failed,
                        events: decoded,
                        error: Some(msg),
                    },
                );
                self.report_model = Ghost(
                    dispatch_failed_model(old(self).awaited_block(), records@),
                );
                self.done = true;
                Ok(Directive::Finished)
            },
            None => {
                if self.mode == WatchMode::UntilInBlock {
                    // The inclusion-only watch stops here whether the block
                    // was merely included or already final.
                    self.report = Some(
                        TransactionResult {
                            hash: self.hash.clone(),
                            block_hash: Some(block),
                            status: TransactionStatus::InBlock,
                            events: decoded,
                            error: None,
                        },
                    );
                    self.report_model = Ghost(
                        included_model(old(self).awaited_block(), records@),
                    );
                    self.done = true;
                    Ok(Directive::Finished)
                } else if finality {
                    self.report = Some(
                        TransactionResult {
                            hash: self.hash.clone(),
                            block_hash: Some(block),
                            status: TransactionStatus::Finalized,
                            events: decoded,
                            error: None,
                        },
                    );
                    self.report_model = Ghost(
                        finalized_model(old(self).awaited_block(), records@),
                    );
                    self.done = true;
                    Ok(Directive::Finished)
                } else {
                    self.seen_block = Some(block);
                    self.seen_events = decoded;
                    self.seen_records = Ghost(records@);
                    Ok(Directive::Continue)
                }
            },
        }
    }

    /// The stream ended with nothing decided: settle as failed with the
    /// fixed diagnostic, keeping whatever inclusion was observed.
    pub fn on_stream_end(&mut self)
        requires
            old(self).wf(),
            old(self).is_streaming(),
        ensures
            final(self).wf(),
            final(self).mode_spec() == old(self).mode_spec(),
            final(self).hash_spec() == old(self).hash_spec(),
            final(self).is_done(),
            final(self).report_model() == stream_end_model(old(self).seen_model()),
    {
        let block = self.seen_block.take();
        let mut evs: Vec<TransactionEvent> = Vec::new();
        core::mem::swap(&mut evs, &mut self.seen_events);
        self.seen_records = Ghost(Seq::empty());
        self.report = Some(
            TransactionResult {
                hash: self.hash.clone(),
                block_hash: block,
                status: TransactionStatus::Failed,
                events: evs,
                error: Some(stream_ended_message()),
            },
        );
        self.report_model = Ghost(stream_end_model(old(self).seen_model()));
        self.done = true;
    }

    /// Collect the terminal result of a finished tracker.
    pub fn take_result(self) -> (r: TransactionResult)
        requires
            self.wf(),
            self.is_done(),
        ensures
            result_matches(r, self.hash_spec(), self.report_model()),
            model_wf(self.report_model()),
            r.wf(),
    {
        match self.report {
            Some(r) => r,
            None => {
                proof {
                    assert(false);
                }
                vstd::pervasive::unreached()
            },
        }
    }
}

/// Drive one submission over a whole in-memory stream: feed every item to a
/// tracker, fetch block events on demand from `chain`, and return the
/// terminal result or the first transport or decode error.
///
/// The returned value is exactly what the specification-level interpreter
/// prescribes for the same stream and chain.
pub fn track_submission(
    mode: WatchMode,
    hash: String,
    items: &Vec<StreamItem>,
    chain: &Vec<BlockEvents>,
) -> (r: Result<TransactionResult, TrackError>)
    ensures
        track_result_matches(r, hash@, interp(mode, None, items@, chain@)),
        r matches Ok(res) ==> res.wf(),
{
    let ghost full: TrackOutcome = interp(mode, None, items@, chain@);
    let mut t = SubmissionTracker::new(mode, hash.clone());
    let mut i: usize = 0;
    proof {
        assert(items@.skip(0) =~= items@);
    }
    while i < items.len()
        invariant
            i <= items@.len(),
            t.wf(),
            t.is_streaming(),
            t.mode_spec() == mode,
            t.hash_spec() == hash@,
            full == interp(mode, None, items@, chain@),
            interp(mode, t.seen_model(), items@.skip(i as int), chain@) == full,
        decreases items@.len() - i,
    {
        let ghost s = items@.skip(i as int);
        proof {
            assert(s.len() > 0);
            assert(s[0] == items@[i as int]);
            assert(s.drop_first() =~= items@.skip(i as int + 1));
        }
        match &items[i] {
            StreamItem::ConnectionError(m) => {
                return Err(TrackError::Transport(m.clone()));
            },
            StreamItem::Status(n) => {
                let d = t.on_status(n);
                match d {
                    Directive::Continue => {},
                    Directive::Finished => {
                        return Ok(t.take_result());
                    },
                    Directive::FetchEvents(b) => {
                        match fetch_block_events(chain, &b) {
                            None => {
                                return Err(TrackError::Transport(fetch_failed_message()));
                            },
                            Some(rv) => {
                                match t.on_block_events(rv) {
                                    Err(e) => {
                                        return Err(TrackError::Decode(e));
                                    },
                                    Ok(Directive::Continue) => {},
                                    Ok(Directive::Finished) => {
                                        return Ok(t.take_result());
                                    },
                                    Ok(Directive::FetchEvents(_)) => {
                                        proof {
                                            assert(false);
                                        }
                                        return vstd::pervasive::unreached();
                                    },
                                }
                            },
                        }
                    },
                }
            },
        }
        i += 1;
    }
    proof {
        assert(items@.skip(i as int) =~= Seq::<StreamItem>::empty());
    }
    t.on_stream_end();
    Ok(t.take_result())
}

} // verus!
