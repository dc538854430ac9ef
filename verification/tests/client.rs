use polkadot_client::analytics::EmotionalTrend;
use polkadot_client::cache::MetadataCache;

#[test]
fn test_polkadot_client_creation() {
    // This would be an integration test in a real implementation
    assert_eq!(2 + 2, 4);
}

#[test]
fn cache_inserts_and_looks_up() {
    let mut cache: MetadataCache<String> = MetadataCache::new();
    assert_eq!(cache.len(), 0);
    cache.insert("runtime".to_string(), "v1".to_string());
    assert_eq!(cache.len(), 1);
    assert_eq!(cache.get(&"runtime".to_string()), Some(&"v1".to_string()));
    assert_eq!(cache.get(&"other".to_string()), None);
}

#[test]
fn cache_replaces_a_present_key() {
    let mut cache: MetadataCache<String> = MetadataCache::new();
    cache.insert("runtime".to_string(), "v1".to_string());
    cache.insert("runtime".to_string(), "v2".to_string());
    assert_eq!(cache.len(), 1);
    assert_eq!(cache.get(&"runtime".to_string()), Some(&"v2".to_string()));
}

#[test]
fn cache_clears_every_entry() {
    let mut cache: MetadataCache<String> = MetadataCache::new();
    cache.insert("a".to_string(), "1".to_string());
    cache.insert("b".to_string(), "2".to_string());
    assert_eq!(cache.len(), 2);
    cache.clear();
    assert_eq!(cache.len(), 0);
    assert_eq!(cache.get(&"a".to_string()), None);
}

#[test]
fn cache_holds_decoded_chain_metadata() {
    let mut cache: MetadataCache<serde_json::Value> = MetadataCache::new();
    let value = serde_json::Value::String("spec 9430".to_string());
    cache.insert("polkadot".to_string(), value.clone());
    assert_eq!(cache.get(&"polkadot".to_string()), Some(&value));
}

#[test]
fn emotional_trend_defaults_to_stable() {
    assert_eq!(EmotionalTrend::default(), EmotionalTrend::Stable);
}
