use polkadot_client::account::AccountId;
use polkadot_client::emotional_bridge::EmotionalBridge;

fn account(byte: u8) -> AccountId {
    AccountId { bytes: vec![byte; 32] }
}

#[test]
fn test_store_emotional_data() {
    let mut contract = EmotionalBridge::new(account(1));
    let (token_id, _event) = contract.store_emotional_data(
        account(1),
        75, // valence (positive)
        80, // arousal (high intensity)
        60, // dominance
        b"Excited".to_vec(),
        1_000,
    );

    assert_eq!(token_id, 0);
    assert_eq!(contract.get_token_count(), 1);
}

#[test]
fn test_bridge_token() {
    let mut contract = EmotionalBridge::new(account(1));
    let (token_id, _event) = contract.store_emotional_data(
        account(1),
        50,
        70,
        40,
        b"Happy".to_vec(),
        1_000,
    );

    let result = contract.bridge_token(
        token_id,
        b"Ethereum".to_vec(),
        b"0x1234567890abcdef".to_vec(),
        2_000,
    );

    assert!(result.is_ok());
    assert_eq!(contract.get_total_bridged(), 1);
}

#[test]
fn test_contract_info() {
    let contract = EmotionalBridge::new(account(1));
    let info = contract.get_contract_info();

    assert_eq!(info.token_counter, 0);
    assert_eq!(info.total_bridged, 0);
    assert_eq!(info.version, b"1.0.0".to_vec());
}

#[test]
fn stored_event_echoes_the_reading() {
    let mut contract = EmotionalBridge::new(account(1));
    let (token_id, event) = contract.store_emotional_data(
        account(7),
        -20,
        30,
        10,
        b"Calm".to_vec(),
        5_000,
    );
    assert_eq!(event.token_id, token_id);
    assert_eq!(event.owner.bytes, vec![7u8; 32]);
    assert_eq!(event.valence, -20);
    assert_eq!(event.arousal, 30);
    assert_eq!(event.emotional_category, b"Calm".to_vec());
}

#[test]
fn bridge_event_names_the_fixed_source_chain() {
    let mut contract = EmotionalBridge::new(account(1));
    let event = contract
        .bridge_token(9, b"Ethereum".to_vec(), b"0xdead".to_vec(), 42)
        .unwrap();
    assert_eq!(event.token_id, 9);
    assert_eq!(event.source_chain, b"PolkadotRococo".to_vec());
    assert_eq!(event.target_chain, b"Ethereum".to_vec());
    assert_eq!(event.bridge_timestamp, 42);
    assert_eq!(event.emotional_preservation, 95);
}

#[test]
fn token_ids_count_up_from_zero() {
    let mut contract = EmotionalBridge::new(account(2));
    let (first, _) = contract.store_emotional_data(account(2), 1, 2, 3, b"a".to_vec(), 1);
    let (second, _) = contract.store_emotional_data(account(2), 4, 5, 6, b"b".to_vec(), 2);
    assert_eq!(first, 0);
    assert_eq!(second, 1);
    assert_eq!(contract.get_token_count(), 2);
}
