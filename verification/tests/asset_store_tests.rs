use gateway_core::automation::asset_store::{AssetStoreConfig, AssetStoreError, MemoryAssetStore};
use gateway_core::automation::types::{AssetQuery, GeneratedScript, Ratio, ScriptAsset, ScriptType};

fn create_test_asset(id: &str) -> ScriptAsset {
    let script = GeneratedScript::new(
        ScriptType::Playwright,
        "console.log('test');",
        "javascript",
        "hash123",
        "task_sig",
    );
    let mut asset = ScriptAsset::from_script(&script);
    asset.id = id.to_string();
    asset
}

#[test]
fn test_memory_store_save_and_get() {
    let mut store = MemoryAssetStore::new();

    let asset = create_test_asset("test-1");
    let id = store.save(asset.clone()).unwrap();

    let retrieved = store.get(&id).unwrap().unwrap();
    assert_eq!(retrieved.id, id);
    assert_eq!(retrieved.code, asset.code);
}

#[test]
fn test_memory_store_find() {
    let mut store = MemoryAssetStore::new();

    // Success rates of 0.9 and 0.8.
    let mut asset1 = create_test_asset("test-1");
    asset1.task_signature = "google_sheets_fill".to_string();
    asset1.total_executions = 10;
    asset1.successful_executions = 9;

    let mut asset2 = create_test_asset("test-2");
    asset2.task_signature = "notion_update".to_string();
    asset2.total_executions = 10;
    asset2.successful_executions = 8;

    store.save(asset1).unwrap();
    store.save(asset2).unwrap();

    let query = AssetQuery::new().with_task_signature("google");

    let found = store.find(&query).unwrap();
    assert!(found.is_some());
    assert!(found.unwrap().task_signature.contains("google"));
}

#[test]
fn test_memory_store_record_usage() {
    let mut store = MemoryAssetStore::new();

    let asset = create_test_asset("test-1");
    let id = store.save(asset).unwrap();

    store.record_usage(&id, true).unwrap();
    store.record_usage(&id, true).unwrap();
    store.record_usage(&id, false).unwrap();

    let updated = store.get(&id).unwrap().unwrap();
    assert_eq!(updated.use_count, 3);
    assert_eq!(updated.total_executions, 3);
    assert_eq!(updated.successful_executions, 2);
    assert_eq!(updated.success_rate(), Ratio::new(2, 3));
}

#[test]
fn test_memory_store_stats() {
    let mut store = MemoryAssetStore::new();

    let mut asset1 = create_test_asset("test-1");
    asset1.total_executions = 10;
    asset1.successful_executions = 8;

    let mut asset2 = create_test_asset("test-2");
    asset2.total_executions = 5;
    asset2.successful_executions = 4;

    store.save(asset1).unwrap();
    store.save(asset2).unwrap();

    let stats = store.stats().unwrap();
    assert_eq!(stats.total_assets, 2);
    assert_eq!(stats.total_executions, 15);
    assert_eq!(stats.successful_executions, 12);
    assert_eq!(stats.tokens_saved, 48000);
}

#[test]
fn test_memory_store_cleanup() {
    let mut store = MemoryAssetStore::new();

    let mut asset1 = create_test_asset("test-1");
    asset1.total_executions = 10;
    asset1.successful_executions = 2; // Low success rate (0.2)

    let asset2 = create_test_asset("test-2"); // Fresh asset

    store.save(asset1).unwrap();
    store.save(asset2).unwrap();

    // Cleanup with 50% min success rate
    let removed = store.cleanup(86400 * 365, Ratio::new(1, 2)).unwrap();
    assert_eq!(removed, 1); // Should remove low success rate asset

    let remaining = store.list(None).unwrap();
    assert_eq!(remaining.len(), 1);
    assert_eq!(remaining[0].id, "test-2");
}

#[test]
fn test_asset_query_builder() {
    let query = AssetQuery::new()
        .with_task_signature("test")
        .with_url_pattern("example.com")
        .with_min_success_rate(Ratio::new(8, 10));

    assert_eq!(query.task_signature, Some("test".to_string()));
    assert_eq!(query.url_pattern, Some("example.com".to_string()));
    assert_eq!(query.min_success_rate, Some(Ratio::new(8, 10)));
}

#[test]
fn save_evicts_least_recently_used_when_full() {
    let config = AssetStoreConfig { max_assets: 2, ..AssetStoreConfig::default() };
    let mut store = MemoryAssetStore::with_config(config);
    let mut a = create_test_asset("a");
    a.last_used_at_millis = 300;
    let mut b = create_test_asset("b");
    b.last_used_at_millis = 100;
    let mut c = create_test_asset("c");
    c.last_used_at_millis = 200;
    store.save(a).unwrap();
    store.save(b).unwrap();
    store.save(c).unwrap();
    assert!(store.get("b").unwrap().is_none());
    assert!(store.get("a").unwrap().is_some());
    assert!(store.get("c").unwrap().is_some());
    let listed: Vec<String> = store.list(None).unwrap().into_iter().map(|x| x.id).collect();
    assert_eq!(listed, vec!["a".to_string(), "c".to_string()]);
}

#[test]
fn save_replaces_asset_with_same_id() {
    let mut store = MemoryAssetStore::new();
    store.save(create_test_asset("x")).unwrap();
    let mut again = create_test_asset("x");
    again.code = "other".to_string();
    store.save(again).unwrap();
    assert_eq!(store.list(None).unwrap().len(), 1);
    assert_eq!(store.get("x").unwrap().unwrap().code, "other");
}

#[test]
fn update_and_record_usage_refuse_unknown_ids() {
    let mut store = MemoryAssetStore::new();
    let ghost_asset = create_test_asset("missing");
    match store.update(&ghost_asset) {
        Err(AssetStoreError::NotFound(id)) => assert_eq!(id, "missing"),
        other => panic!("unexpected {:?}", other),
    }
    match store.record_usage("missing", true) {
        Err(e) => assert_eq!(e.message(), "Asset not found: missing"),
        Ok(()) => panic!("expected an error"),
    }
    store.save(create_test_asset("here")).unwrap();
    let mut changed = create_test_asset("here");
    changed.language = "python".to_string();
    store.update(&changed).unwrap();
    assert_eq!(store.get("here").unwrap().unwrap().language, "python");
}

#[test]
fn delete_removes_only_that_asset() {
    let mut store = MemoryAssetStore::new();
    store.save(create_test_asset("one")).unwrap();
    store.save(create_test_asset("two")).unwrap();
    store.delete("one").unwrap();
    store.delete("nothing").unwrap();
    assert!(store.get("one").unwrap().is_none());
    assert!(store.get("two").unwrap().is_some());
}

#[test]
fn list_orders_by_last_use_and_limits() {
    let mut store = MemoryAssetStore::new();
    for (id, t) in [("p", 10), ("q", 30), ("r", 20)] {
        let mut a = create_test_asset(id);
        a.last_used_at_millis = t;
        store.save(a).unwrap();
    }
    let all: Vec<String> = store.list(None).unwrap().into_iter().map(|x| x.id).collect();
    assert_eq!(all, vec!["q", "r", "p"]);
    let two: Vec<String> = store.list(Some(2)).unwrap().into_iter().map(|x| x.id).collect();
    assert_eq!(two, vec!["q", "r"]);
}

#[test]
fn stats_lists_most_used_first() {
    let mut store = MemoryAssetStore::new();
    for (id, n) in [("a", 1u64), ("b", 7), ("c", 3), ("d", 9), ("e", 0), ("f", 5)] {
        let mut a = create_test_asset(id);
        a.use_count = n;
        store.save(a).unwrap();
    }
    let stats = store.stats().unwrap();
    assert_eq!(stats.most_used_assets, vec!["d", "b", "f", "c", "a"]);
    assert_eq!(stats.total_assets, 6);
    assert_eq!(stats.tokens_saved, 0);
}

#[test]
fn find_prefers_rate_then_recent_use_and_filters() {
    let mut store = MemoryAssetStore::new();
    let mut a = create_test_asset("a");
    a.task_signature = "sig_one".to_string();
    a.total_executions = 4;
    a.successful_executions = 3;
    a.last_used_at_millis = 50;
    let mut b = create_test_asset("b");
    b.task_signature = "sig_two".to_string();
    b.total_executions = 8;
    b.successful_executions = 6;
    b.last_used_at_millis = 80;
    b.url_pattern = Some("https://example.com/forms".to_string());
    let mut c = create_test_asset("c");
    c.task_signature = "other".to_string();
    c.total_executions = 2;
    c.successful_executions = 1;
    store.save(a).unwrap();
    store.save(b).unwrap();
    store.save(c).unwrap();
    let now = 1_000;
    let best = store.find_at(&AssetQuery::new().with_task_signature("sig"), now).unwrap().unwrap();
    assert_eq!(best.id, "b");
    let by_url = store.find_at(&AssetQuery::new().with_url_pattern("example.com"), now).unwrap();
    assert_eq!(by_url.unwrap().id, "b");
    let strict = AssetQuery::new().with_min_success_rate(Ratio::new(4, 5));
    assert!(store.find_at(&strict, now).unwrap().is_none());
    assert!(store.find_at(&AssetQuery::new().with_task_signature("zzz"), now).unwrap().is_none());
}

#[test]
fn find_and_cleanup_respect_age() {
    let mut store = MemoryAssetStore::new();
    let mut old = create_test_asset("old");
    old.created_at_millis = 0;
    let mut young = create_test_asset("young");
    young.created_at_millis = 9_500;
    store.save(old).unwrap();
    store.save(young).unwrap();
    let q = AssetQuery { max_age_secs: Some(5), ..AssetQuery::new() };
    let found = store.find_at(&q, 10_000).unwrap().unwrap();
    assert_eq!(found.id, "young");
    // Exactly 10 whole seconds old is not more than 10.
    let removed = store.cleanup_at(10, Ratio::new(1, 2), 10_999).unwrap();
    assert_eq!(removed, 0);
    let removed = store.cleanup_at(9, Ratio::new(1, 2), 10_999).unwrap();
    assert_eq!(removed, 1);
    assert!(store.get("old").unwrap().is_none());
    // A creation time in the future wraps to a huge age.
    let removed = store.cleanup_at(1_000_000, Ratio::new(1, 2), 0).unwrap();
    assert_eq!(removed, 1);
}

#[test]
fn ratio_comparisons() {
    assert!(Ratio::new(1, 3).is_below(&Ratio::new(1, 2)));
    assert!(!Ratio::new(1, 2).is_below(&Ratio::new(2, 4)));
    assert!(Ratio::new(5, 1).is_below(&Ratio::new(1, 0)));
    assert!(!Ratio::new(5, 1).is_below(&Ratio::new(0, 0)));
    let fresh = create_test_asset("f");
    assert_eq!(fresh.success_rate(), Ratio::new(1, 1));
    assert_eq!(AssetStoreConfig::default().min_success_rate, Ratio::new(1, 2));
}
