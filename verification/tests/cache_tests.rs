use trailerfin::cache::RedbDatabase;
use trailerfin::cache::TmdbToImdbCache;

fn fresh_cache() -> TmdbToImdbCache {
    let db = RedbDatabase::new_in_memory().expect("in-memory store");
    TmdbToImdbCache::new(db).expect("cache schema")
}

#[test]
fn test_cache_add_then_get_returns_entry() {
    let mut cache = fresh_cache();
    cache.add("603", "tt0133093").unwrap();
    assert_eq!(cache.try_get_imdb_id("603").unwrap(), Some("tt0133093".to_string()));
}

#[test]
fn test_cache_add_overwrites_not_appends() {
    let mut cache = fresh_cache();
    cache.add("603", "ttAAAA").unwrap();
    assert_eq!(cache.try_get_imdb_id("603").unwrap(), Some("ttAAAA".to_string()));
    cache.add("603", "ttBBBB").unwrap();
    assert_eq!(cache.try_get_imdb_id("603").unwrap(), Some("ttBBBB".to_string()));
}

#[test]
fn test_cache_miss_returns_nothing() {
    let cache = fresh_cache();
    assert_eq!(cache.try_get_imdb_id("42").unwrap(), None);
}

#[test]
fn test_cache_keys_are_independent() {
    let mut cache = fresh_cache();
    cache.add("1", "tt1").unwrap();
    cache.add("2", "tt2").unwrap();
    assert_eq!(cache.try_get_imdb_id("1").unwrap(), Some("tt1".to_string()));
    assert_eq!(cache.try_get_imdb_id("2").unwrap(), Some("tt2".to_string()));
}
