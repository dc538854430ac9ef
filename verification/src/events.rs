//! The event decoder and the dispatch-outcome inspector.
//!
//! A block's raw event records become an ordered sequence of decoded
//! [`TransactionEvent`]s; one malformed record fails the whole decode, so a
//! caller never acts on a partial or ambiguous event list. The inspector then
//! scans the decoded sequence for the ledger's own failure signal, which can
//! coexist with successful inclusion.

use vstd::prelude::*;

verus! {

/// A best-effort rendering of one event field value.
#[derive(Clone, Debug)]
pub enum FieldValue {
    Null,
    Bool(bool),
    Text(String),
}

/// One named field of an emitted event.
#[derive(Clone, Debug)]
pub struct EventField {
    pub name: String,
    pub value: FieldValue,
}

/// One raw event record as fetched from a block: either readable labels and
/// fields, or a record the connection could not decode.
#[derive(Clone, Debug)]
pub enum RawEventRecord {
    Event { pallet: String, variant: String, fields: Vec<EventField> },
    Malformed { message: String },
}

/// One decoded ledger-emitted event.
#[derive(Clone, Debug)]
pub struct TransactionEvent {
    /// Namespace/module that emitted the event.
    pub pallet: String,
    /// Event name within that namespace.
    pub variant: String,
    /// Structured field values.
    pub data: Vec<EventField>,
}

/// A block's events could not be decoded; no partial list is returned.
#[derive(Clone, Debug)]
pub struct DecodeError {
    pub message: String,
}

/// Whether every record of the sequence is readable.
pub open spec fn all_records_readable(rs: Seq<RawEventRecord>) -> bool {
    forall|i: int| 0 <= i < rs.len() ==> rs[i] is Event
}

/// A decoded event carries exactly the labels and fields of the given record.
pub open spec fn event_matches_record(e: TransactionEvent, r: RawEventRecord) -> bool {
    &&& r is Event
    &&& e.pallet@ == r->Event_pallet@
    &&& e.variant@ == r->Event_variant@
    &&& e.data@ == r->Event_fields@
}

/// A decoded sequence corresponds to the raw records one for one, in order.
pub open spec fn events_match_records(
    evs: Seq<TransactionEvent>,
    rs: Seq<RawEventRecord>,
) -> bool {
    &&& evs.len() == rs.len()
    &&& forall|i: int| 0 <= i < rs.len() ==> event_matches_record(evs[i], rs[i])
}

/// The message of the first unreadable record; the empty sequence when every
/// record is readable.
pub open spec fn first_malformed_msg(rs: Seq<RawEventRecord>) -> Seq<char>
    decreases rs.len(),
{
    if rs.len() == 0 {
        Seq::empty()
    } else {
        match rs[0] {
            RawEventRecord::Malformed { message } => message@,
            RawEventRecord::Event { .. } => first_malformed_msg(rs.drop_first()),
        }
    }
}

/// At the first unreadable record, `first_malformed_msg` is that record's
/// message.
pub proof fn lemma_first_malformed_msg_at(rs: Seq<RawEventRecord>, i: int)
    requires
        0 <= i < rs.len(),
        rs[i] is Malformed,
        forall|j: int| 0 <= j < i ==> rs[j] is Event,
    ensures
        first_malformed_msg(rs) == rs[i]->Malformed_message@,
    decreases i,
{
    if i == 0 {
    } else {
        assert(rs[0] is Event);
        assert(rs.drop_first()[i - 1] == rs[i]);
        assert(forall|j: int| 0 <= j < i - 1 ==> rs.drop_first()[j] == rs[j + 1]);
        lemma_first_malformed_msg_at(rs.drop_first(), i - 1);
    }
}

/// Copy one field value; the copy is the same value.
fn copy_value(v: &FieldValue) -> (r: FieldValue)
    ensures
        r == *v,
{
    match v {
        FieldValue::Null => FieldValue::Null,
        FieldValue::Bool(b) => FieldValue::Bool(*b),
        FieldValue::Text(s) => FieldValue::Text(s.clone()),
    }
}

/// Copy one event field; the copy is the same value.
fn copy_field(f: &EventField) -> (r: EventField)
    ensures
        r == *f,
{
    EventField { name: f.name.clone(), value: copy_value(&f.value) }
}

/// Copy a field list; the copy holds the same values in the same order.
fn copy_fields(fs: &Vec<EventField>) -> (r: Vec<EventField>)
    ensures
        r@ == fs@,
{
    let mut out: Vec<EventField> = Vec::new();
    let mut i: usize = 0;
    while i < fs.len()
        invariant
            i <= fs@.len(),
            out@ =~= fs@.take(i as int),
        decreases fs@.len() - i,
    {
        out.push(copy_field(&fs[i]));
        i += 1;
    }
    proof {
        assert(out@ =~= fs@);
    }
    out
}

/// Decode a block's raw event records into an ordered event sequence.
///
/// Succeeds exactly when every record is readable, and then returns one
/// decoded event per record, order-preserving. The first unreadable record
/// fails the whole decode with its own message.
pub fn decode_events(records: &Vec<RawEventRecord>) -> (r: Result<
    Vec<TransactionEvent>,
    DecodeError,
>)
    ensures
        r is Ok <==> all_records_readable(records@),
        r matches Ok(evs) ==> events_match_records(evs@, records@),
        r matches Err(e) ==> !all_records_readable(records@) && e.message@ == first_malformed_msg(
            records@,
        ),
{
    let mut out: Vec<TransactionEvent> = Vec::new();
    let mut i: usize = 0;
    while i < records.len()
        invariant
            i <= records@.len(),
            out@.len() == i,
            forall|j: int| 0 <= j < i ==> records@[j] is Event,
            forall|j: int| 0 <= j < i ==> event_matches_record(#[trigger] out@[j], records@[j]),
        decreases records@.len() - i,
    {
        match &records[i] {
            RawEventRecord::Event { pallet, variant, fields } => {
                out.push(
                    TransactionEvent {
                        pallet: pallet.clone(),
                        variant: variant.clone(),
                        data: copy_fields(fields),
                    },
                );
            },
            RawEventRecord::Malformed { message } => {
                proof {
                    lemma_first_malformed_msg_at(records@, i as int);
                }
                return Err(DecodeError { message: message.clone() });
            },
        }
        i += 1;
    }
    Ok(out)
}

/// The ledger's own failure signal: the system namespace reporting that the
/// included transaction's logic failed.
pub open spec fn is_failure_event(e: TransactionEvent) -> bool {
    e.pallet@ == "System"@ && e.variant@ == "ExtrinsicFailed"@
}

/// Whether a decoded event sequence reports a dispatch failure.
pub open spec fn has_dispatch_failure(evs: Seq<TransactionEvent>) -> bool {
    exists|i: int| 0 <= i < evs.len() && is_failure_event(evs[i])
}

/// The failure signal, seen on a raw record before decoding.
pub open spec fn record_is_failure(r: RawEventRecord) -> bool {
    &&& r is Event
    &&& r->Event_pallet@ == "System"@
    &&& r->Event_variant@ == "ExtrinsicFailed"@
}

/// Whether some raw record of the sequence carries the failure signal.
pub open spec fn records_have_failure(rs: Seq<RawEventRecord>) -> bool {
    exists|i: int| 0 <= i < rs.len() && record_is_failure(rs[i])
}

/// Decoding neither adds nor loses the failure signal: a decoded sequence
/// reports a dispatch failure exactly when its raw records carry one.
pub proof fn lemma_failure_correspondence(evs: Seq<TransactionEvent>, rs: Seq<RawEventRecord>)
    requires
        events_match_records(evs, rs),
    ensures
        has_dispatch_failure(evs) <==> records_have_failure(rs),
{
    if has_dispatch_failure(evs) {
        let i = choose|i: int| 0 <= i < evs.len() && is_failure_event(evs[i]);
        assert(record_is_failure(rs[i]));
    }
    if records_have_failure(rs) {
        let i = choose|i: int| 0 <= i < rs.len() && record_is_failure(rs[i]);
        assert(is_failure_event(evs[i]));
    }
}

/// The fixed reason reported for a dispatch failure.
pub open spec fn dispatch_failure_msg() -> Seq<char> {
    "Extrinsic failed - check dispatch error"@
}

/// The dispatch-failure reason as an owned string.
pub fn dispatch_failure_message() -> (s: String)
    ensures
        s@ == dispatch_failure_msg(),
{
    String::from_str("Extrinsic failed - check dispatch error")
}

/// Scan a decoded event sequence for a dispatch failure.
///
/// Returns the fixed failure reason exactly when some event is the system
/// namespace's failure signal; `None` means no failure was detected.
pub fn check_dispatch_error(events: &Vec<TransactionEvent>) -> (r: Option<String>)
    ensures
        r is Some <==> has_dispatch_failure(events@),
        r matches Some(m) ==> m@ == dispatch_failure_msg(),
{
    let system = String::from_str("System");
    let failed = String::from_str("ExtrinsicFailed");
    let mut i: usize = 0;
    while i < events.len()
        invariant
            i <= events@.len(),
            system@ == "System"@,
            failed@ == "ExtrinsicFailed"@,
            forall|j: int| 0 <= j < i ==> !is_failure_event(events@[j]),
        decreases events@.len() - i,
    {
        if events[i].pallet == system && events[i].variant == failed {
            return Some(dispatch_failure_message());
        }
        i += 1;
    }
    None
}

} // verus!
