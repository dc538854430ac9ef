use polkadot_client::events::check_dispatch_error;
use polkadot_client::events::decode_events;
use polkadot_client::events::RawEventRecord;
use polkadot_client::outcome::TransactionStatus;
use polkadot_client::status::classify;
use polkadot_client::status::ChainNotification;
use polkadot_client::status::LifecycleState;
use polkadot_client::tracker::track_submission;
use polkadot_client::tracker::BlockEvents;
use polkadot_client::tracker::Directive;
use polkadot_client::tracker::StreamItem;
use polkadot_client::tracker::SubmissionTracker;
use polkadot_client::tracker::TrackError;
use polkadot_client::tracker::WatchMode;

fn record(pallet: &str, variant: &str) -> RawEventRecord {
    RawEventRecord::Event {
        pallet: pallet.to_string(),
        variant: variant.to_string(),
        fields: vec![],
    }
}

fn in_block(b: &str) -> StreamItem {
    StreamItem::Status(ChainNotification::InBestBlock(b.to_string()))
}

fn finalized(b: &str) -> StreamItem {
    StreamItem::Status(ChainNotification::InFinalizedBlock(b.to_string()))
}

fn block(b: &str, records: Vec<RawEventRecord>) -> BlockEvents {
    BlockEvents { block_hash: b.to_string(), records }
}

#[test]
fn classifier_maps_every_notification() {
    assert!(matches!(classify(&ChainNotification::Validated), LifecycleState::Pending));
    assert!(matches!(classify(&ChainNotification::Broadcast), LifecycleState::Pending));
    match classify(&ChainNotification::InBestBlock("B1".to_string())) {
        LifecycleState::InBlock(b) => assert_eq!(b, "B1"),
        other => panic!("unexpected classification: {:?}", other),
    }
    assert!(matches!(
        classify(&ChainNotification::NoLongerInBestBlock),
        LifecycleState::Unrecognized
    ));
    match classify(&ChainNotification::InFinalizedBlock("B2".to_string())) {
        LifecycleState::Finalized(b) => assert_eq!(b, "B2"),
        other => panic!("unexpected classification: {:?}", other),
    }
    assert!(matches!(classify(&ChainNotification::Dropped), LifecycleState::Dropped));
    assert!(matches!(classify(&ChainNotification::Invalid), LifecycleState::Invalid));
}

#[test]
fn decode_preserves_count_and_order() {
    let records = vec![
        record("System", "ExtrinsicSuccess"),
        record("Balances", "Transfer"),
        record("Tokens", "Minted"),
    ];
    let events = decode_events(&records).unwrap();
    assert_eq!(events.len(), 3);
    assert_eq!(events[0].pallet, "System");
    assert_eq!(events[0].variant, "ExtrinsicSuccess");
    assert_eq!(events[1].pallet, "Balances");
    assert_eq!(events[1].variant, "Transfer");
    assert_eq!(events[2].pallet, "Tokens");
    assert_eq!(events[2].variant, "Minted");
}

#[test]
fn one_malformed_record_fails_the_whole_decode() {
    let records = vec![
        record("System", "ExtrinsicSuccess"),
        RawEventRecord::Malformed { message: "bad codec index".to_string() },
        record("Balances", "Transfer"),
    ];
    let err = decode_events(&records).unwrap_err();
    assert_eq!(err.message, "bad codec index");
}

#[test]
fn inspector_finds_the_failure_signal() {
    let events = decode_events(&vec![
        record("Balances", "Transfer"),
        record("System", "ExtrinsicFailed"),
    ])
    .unwrap();
    let reason = check_dispatch_error(&events);
    assert_eq!(reason, Some("Extrinsic failed - check dispatch error".to_string()));

    let clean = decode_events(&vec![record("System", "ExtrinsicSuccess")]).unwrap();
    assert_eq!(check_dispatch_error(&clean), None);
}

#[test]
fn finalized_stream_reports_finality() {
    let items = vec![
        StreamItem::Status(ChainNotification::Validated),
        in_block("B1"),
        finalized("B1"),
    ];
    let chain = vec![block("B1", vec![record("System", "ExtrinsicSuccess")])];
    let res =
        track_submission(WatchMode::UntilFinalized, "0xaa".to_string(), &items, &chain).unwrap();
    assert!(matches!(res.status, TransactionStatus::Finalized));
    assert_eq!(res.block_hash, Some("B1".to_string()));
    assert_eq!(res.error, None);
    assert_eq!(res.events.len(), 1);
}

#[test]
fn dispatch_failure_fails_fast_before_finality() {
    let items = vec![in_block("B1"), finalized("B2")];
    let chain = vec![
        block("B1", vec![record("System", "ExtrinsicFailed")]),
        block("B2", vec![record("System", "ExtrinsicSuccess")]),
    ];
    let res =
        track_submission(WatchMode::UntilFinalized, "0xbb".to_string(), &items, &chain).unwrap();
    assert!(matches!(res.status, TransactionStatus::Failed));
    assert_eq!(res.block_hash, Some("B1".to_string()));
    assert_eq!(res.error, Some("Extrinsic failed - check dispatch error".to_string()));
}

#[test]
fn wait_for_in_block_reports_inclusion() {
    let items = vec![in_block("B1")];
    let chain = vec![block("B1", vec![record("Balances", "Transfer")])];
    let res =
        track_submission(WatchMode::UntilInBlock, "0xcc".to_string(), &items, &chain).unwrap();
    assert!(matches!(res.status, TransactionStatus::InBlock));
    assert_eq!(res.block_hash, Some("B1".to_string()));
    assert_eq!(res.events.len(), 1);
    assert_eq!(res.events[0].pallet, "Balances");
    assert_eq!(res.events[0].variant, "Transfer");
    assert_eq!(res.error, None);
}

#[test]
fn dispatch_failure_fails_both_modes() {
    let items = vec![in_block("B1")];
    let chain = vec![block("B1", vec![record("System", "ExtrinsicFailed")])];
    for mode in [WatchMode::UntilFinalized, WatchMode::UntilInBlock] {
        let res = track_submission(mode, "0xdd".to_string(), &items, &chain).unwrap();
        assert!(matches!(res.status, TransactionStatus::Failed));
        assert!(res.error.is_some());
    }
}

#[test]
fn dropped_reports_the_fixed_message() {
    let items = vec![StreamItem::Status(ChainNotification::Dropped)];
    let chain: Vec<BlockEvents> = vec![];
    let res =
        track_submission(WatchMode::UntilFinalized, "0xee".to_string(), &items, &chain).unwrap();
    assert!(matches!(res.status, TransactionStatus::Failed));
    assert_eq!(res.error, Some("transaction dropped from the submission pool".to_string()));
    assert!(res.events.is_empty());
    assert_eq!(res.block_hash, None);
}

#[test]
fn invalid_reports_the_fixed_message() {
    let items = vec![StreamItem::Status(ChainNotification::Invalid)];
    let chain: Vec<BlockEvents> = vec![];
    let res =
        track_submission(WatchMode::UntilInBlock, "0xff".to_string(), &items, &chain).unwrap();
    assert!(matches!(res.status, TransactionStatus::Failed));
    assert_eq!(res.error, Some("transaction rejected as invalid".to_string()));
    assert!(res.events.is_empty());
}

#[test]
fn exhausted_stream_reports_failure() {
    let items = vec![
        StreamItem::Status(ChainNotification::Validated),
        StreamItem::Status(ChainNotification::Broadcast),
        StreamItem::Status(ChainNotification::NoLongerInBestBlock),
    ];
    let chain: Vec<BlockEvents> = vec![];
    let res =
        track_submission(WatchMode::UntilFinalized, "0x11".to_string(), &items, &chain).unwrap();
    assert!(matches!(res.status, TransactionStatus::Failed));
    assert_eq!(res.error, Some("monitoring stopped unexpectedly".to_string()));
}

#[test]
fn connection_error_is_a_transport_error() {
    let items = vec![StreamItem::ConnectionError("socket closed".to_string())];
    let chain: Vec<BlockEvents> = vec![];
    let err = track_submission(WatchMode::UntilFinalized, "0x22".to_string(), &items, &chain)
        .unwrap_err();
    match err {
        TrackError::Transport(m) => assert_eq!(m, "socket closed"),
        other => panic!("expected a transport error, got {:?}", other),
    }
}

#[test]
fn missing_block_is_a_transport_error() {
    let items = vec![in_block("B9")];
    let chain: Vec<BlockEvents> = vec![];
    let err = track_submission(WatchMode::UntilFinalized, "0x33".to_string(), &items, &chain)
        .unwrap_err();
    match err {
        TrackError::Transport(m) => {
            assert_eq!(m, "could not fetch events for the included block")
        },
        other => panic!("expected a transport error, got {:?}", other),
    }
}

#[test]
fn malformed_block_is_a_decode_error() {
    let items = vec![in_block("B1")];
    let chain = vec![block(
        "B1",
        vec![RawEventRecord::Malformed { message: "truncated".to_string() }],
    )];
    let err = track_submission(WatchMode::UntilFinalized, "0x44".to_string(), &items, &chain)
        .unwrap_err();
    match err {
        TrackError::Decode(e) => assert_eq!(e.message, "truncated"),
        other => panic!("expected a decode error, got {:?}", other),
    }
}

#[test]
fn tracker_steps_through_inclusion_and_finality() {
    let mut tracker =
        SubmissionTracker::new(WatchMode::UntilFinalized, "0x55".to_string());
    assert!(!tracker.finished());

    let d = tracker.on_status(&ChainNotification::Validated);
    assert!(matches!(d, Directive::Continue));

    let d = tracker.on_status(&ChainNotification::InBestBlock("B1".to_string()));
    match d {
        Directive::FetchEvents(b) => assert_eq!(b, "B1"),
        other => panic!("expected a fetch directive, got {:?}", other),
    }
    let d = tracker
        .on_block_events(&vec![record("Balances", "Transfer")])
        .unwrap();
    assert!(matches!(d, Directive::Continue));
    assert!(!tracker.finished());

    let d = tracker.on_status(&ChainNotification::InFinalizedBlock("B1".to_string()));
    assert!(matches!(d, Directive::FetchEvents(_)));
    let d = tracker
        .on_block_events(&vec![record("Balances", "Transfer")])
        .unwrap();
    assert!(matches!(d, Directive::Finished));
    assert!(tracker.finished());

    let res = tracker.take_result();
    assert!(matches!(res.status, TransactionStatus::Finalized));
    assert_eq!(res.hash, "0x55");
    assert_eq!(res.block_hash, Some("B1".to_string()));
    assert_eq!(res.error, None);
}

#[test]
fn tracker_keeps_inclusion_when_stream_ends() {
    let mut tracker =
        SubmissionTracker::new(WatchMode::UntilFinalized, "0x66".to_string());
    let _ = tracker.on_status(&ChainNotification::InBestBlock("B1".to_string()));
    let _ = tracker.on_block_events(&vec![record("Balances", "Transfer")]).unwrap();
    tracker.on_stream_end();
    let res = tracker.take_result();
    assert!(matches!(res.status, TransactionStatus::Failed));
    assert_eq!(res.error, Some("monitoring stopped unexpectedly".to_string()));
    assert_eq!(res.block_hash, Some("B1".to_string()));
    assert_eq!(res.events.len(), 1);
}

#[test]
fn wait_for_in_block_reports_inclusion_even_when_final() {
    let items = vec![finalized("B1")];
    let chain = vec![block("B1", vec![record("Balances", "Transfer")])];
    let res =
        track_submission(WatchMode::UntilInBlock, "0x77".to_string(), &items, &chain).unwrap();
    assert!(matches!(res.status, TransactionStatus::InBlock));
    assert_eq!(res.block_hash, Some("B1".to_string()));
    assert_eq!(res.events.len(), 1);
    assert_eq!(res.error, None);
}
