use kvcache::hashmap::HashMap;
use kvcache::store::Store;

fn fresh_map() -> HashMap {
    HashMap::new(Store::new())
}

#[test]
fn get_of_never_written_key_is_absent() {
    let mut m = fresh_map();
    assert_eq!(m.get("user:1"), None);
    assert_eq!(m.get(""), None);
}

#[test]
fn set_then_get_returns_value() {
    let mut m = fresh_map();
    let v = b"{\"n\":1}".to_vec();
    assert!(m.set("user:1", v.clone()).is_ok());
    assert_eq!(m.get("user:1"), Some(v));
}

#[test]
fn set_is_durable_past_cache_invalidation() {
    let mut m = fresh_map();
    let v = vec![1u8, 2, 3];
    assert!(m.set("k", v.clone()).is_ok());
    m.clear_cache();
    assert_eq!(m.get("k"), Some(v));
}

#[test]
fn set_then_update_then_get_returns_second_value() {
    let mut m = fresh_map();
    let v1 = b"{\"n\":1}".to_vec();
    let v2 = b"{\"n\":2}".to_vec();
    assert!(m.set("user:1", v1).is_ok());
    assert!(m.update("user:1", v2.clone()).is_ok());
    assert_eq!(m.get("user:1"), Some(v2.clone()));
    m.clear_cache();
    assert_eq!(m.get("user:1"), Some(v2));
}

#[test]
fn set_overwrites_existing_row() {
    let mut m = fresh_map();
    assert!(m.set("k", vec![1u8]).is_ok());
    assert!(m.set("k", vec![2u8]).is_ok());
    assert_eq!(m.get("k"), Some(vec![2u8]));
    m.clear_cache();
    assert_eq!(m.get("k"), Some(vec![2u8]));
}

#[test]
fn delete_removes_from_cache_and_store() {
    let mut m = fresh_map();
    assert!(m.set("k", vec![5u8]).is_ok());
    assert!(m.delete("k").is_ok());
    assert_eq!(m.get("k"), None);
    m.clear_cache();
    assert_eq!(m.get("k"), None);
}

#[test]
fn delete_of_absent_key_succeeds() {
    let mut m = fresh_map();
    assert!(m.delete("never-written").is_ok());
    assert!(m.set("k", vec![5u8]).is_ok());
    assert!(m.delete("k").is_ok());
    assert!(m.delete("k").is_ok());
    assert_eq!(m.get("k"), None);
}

#[test]
fn update_of_absent_key_succeeds_and_populates_only_the_cache() {
    let mut m = fresh_map();
    let v = vec![9u8];
    assert!(m.update("ghost", v.clone()).is_ok());
    // The cache answers with the updated value even though no row exists.
    assert_eq!(m.get("ghost"), Some(v));
    // A cache-miss-forcing read shows the table was never written.
    m.clear_cache();
    assert_eq!(m.get("ghost"), None);
}

#[test]
fn cache_converges_to_store_after_invalidation() {
    let mut m = fresh_map();
    for i in 0u8..8 {
        assert!(m.set("contended", vec![i]).is_ok());
    }
    // The table holds exactly one of the written values; after the cache is
    // cleared, reads agree with it.
    m.clear_cache();
    assert_eq!(m.get("contended"), Some(vec![7u8]));
    assert_eq!(m.get("contended"), Some(vec![7u8]));
}

#[test]
fn payload_sizes_round_trip_unchanged() {
    let mut m = fresh_map();
    for (key, len) in [("zero", 0usize), ("one", 1), ("buffer", 64 * 1024)] {
        let v: Vec<u8> = (0..len).map(|i| (i % 251) as u8).collect();
        assert!(m.set(key, v.clone()).is_ok());
        assert_eq!(m.get(key), Some(v.clone()));
        m.clear_cache();
        assert_eq!(m.get(key), Some(v));
    }
}

#[test]
fn distinct_keys_do_not_interfere() {
    let mut m = fresh_map();
    assert!(m.set("a", vec![1u8]).is_ok());
    assert!(m.set("b", vec![2u8]).is_ok());
    assert!(m.delete("a").is_ok());
    assert_eq!(m.get("a"), None);
    assert_eq!(m.get("b"), Some(vec![2u8]));
}
