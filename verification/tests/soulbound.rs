use polkadot_client::account::AccountId;
use polkadot_client::soulbound::ReputationData;
use polkadot_client::soulbound::SoulboundToken;
use polkadot_client::soulbound::SoulboundTokenClient;
use polkadot_client::soulbound::TokenType;

#[test]
fn new_token_carries_its_arguments() {
    let token: SoulboundToken = SoulboundTokenClient::new_soulbound_token(
        AccountId { bytes: vec![3u8; 32] },
        17,
        TokenType::CreatorIdentity,
        b"profile".to_vec(),
        1_700_000_000,
    );
    assert_eq!(token.owner.bytes, vec![3u8; 32]);
    assert_eq!(token.token_id, 17);
    assert_eq!(token.token_type, TokenType::CreatorIdentity);
    assert_eq!(token.metadata, b"profile".to_vec());
    assert_eq!(token.issued_at, 1_700_000_000);
    assert!(!token.is_revoked);
}

#[test]
fn reputation_gains_a_positive_delta() {
    let mut reputation = ReputationData { score: 10, total_interactions: 2, badges: 1 };
    let outcome = SoulboundTokenClient::update_reputation(&mut reputation, 5);
    assert!(outcome.is_ok());
    assert_eq!(reputation.score, 15);
    assert_eq!(reputation.total_interactions, 3);
    assert_eq!(reputation.badges, 1);
}

#[test]
fn reputation_saturates_at_zero() {
    let mut reputation = ReputationData { score: 5, total_interactions: 0, badges: 0 };
    let outcome = SoulboundTokenClient::update_reputation(&mut reputation, -10);
    assert!(outcome.is_ok());
    assert_eq!(reputation.score, 0);
    assert_eq!(reputation.total_interactions, 1);
}

#[test]
fn reputation_above_the_cap_is_refused() {
    let mut reputation = ReputationData { score: 9_999, total_interactions: 4, badges: 0 };
    let outcome = SoulboundTokenClient::update_reputation(&mut reputation, 100);
    assert_eq!(outcome, Err("Reputation score too high"));
    assert_eq!(reputation.score, 9_999);
    assert_eq!(reputation.total_interactions, 4);
}

#[test]
fn reputation_may_land_exactly_on_the_cap() {
    let mut reputation = ReputationData { score: 9_900, total_interactions: 0, badges: 0 };
    let outcome = SoulboundTokenClient::update_reputation(&mut reputation, 100);
    assert!(outcome.is_ok());
    assert_eq!(reputation.score, 10_000);
}

#[test]
fn default_reputation_is_all_zero() {
    let reputation = ReputationData::default();
    assert_eq!(reputation.score, 0);
    assert_eq!(reputation.total_interactions, 0);
    assert_eq!(reputation.badges, 0);
}

#[test]
fn provenance_records_each_chain_once() {
    let mut provenance: Vec<String> = vec!["polkadot".to_string()];
    SoulboundTokenClient::add_cross_chain_provenance(&mut provenance, "kusama".to_string());
    assert_eq!(provenance, vec!["polkadot".to_string(), "kusama".to_string()]);
    SoulboundTokenClient::add_cross_chain_provenance(&mut provenance, "kusama".to_string());
    assert_eq!(provenance, vec!["polkadot".to_string(), "kusama".to_string()]);
}

#[test]
fn account_id_requires_exactly_32_bytes() {
    assert!(AccountId::from_bytes(vec![0u8; 31]).is_err());
    let account = AccountId::from_bytes(vec![5u8; 32]).unwrap();
    assert_eq!(account.bytes, vec![5u8; 32]);
}
