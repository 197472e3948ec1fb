use bloom_cache::store::{
    cap_ttl, settle, BackendFault, CachePurgeVariant, CacheStoreBuilder, CacheStoreError,
    CacheWrite, SetEx, AUTH_SCRIPT, BUCKET_SCRIPT,
};

#[test]
fn ttl_is_capped_at_maximum() {
    let store = CacheStoreBuilder::new(600, 1024);
    assert_eq!(
        store.set("k", "v", 3600, None),
        Ok(CacheWrite::Single(SetEx { key: "k".to_string(), value: "v".to_string(), ttl: 600 }))
    );
    assert_eq!(
        store.set("k", "v", 60, None),
        Ok(CacheWrite::Single(SetEx { key: "k".to_string(), value: "v".to_string(), ttl: 60 }))
    );
    assert_eq!(cap_ttl(600, 600), 600);
    assert_eq!(cap_ttl(0, 600), 0);
}

#[test]
fn oversized_value_is_refused() {
    let store = CacheStoreBuilder::new(600, 4);
    assert_eq!(store.set("k", "12345", 10, None), Err(CacheStoreError::TooLarge));
    assert_eq!(
        store.set("k", "12345", 10, Some("k:b:x".to_string())),
        Err(CacheStoreError::TooLarge)
    );
    assert!(store.set("k", "1234", 10, None).is_ok());
}

#[test]
fn value_size_counts_bytes() {
    let store = CacheStoreBuilder::new(600, 3);
    assert_eq!(store.set("k", "éé", 10, None), Err(CacheStoreError::TooLarge));
    assert!(store.set("k", "éa", 10, None).is_ok());
}

#[test]
fn bucketed_write_pairs_data_and_marker() {
    let store = CacheStoreBuilder::new(100, 1024);
    assert_eq!(
        store.set("base", "body", 500, Some("base:b:bucket1".to_string())),
        Ok(CacheWrite::Bucketed(
            SetEx { key: "base".to_string(), value: "body".to_string(), ttl: 100 },
            SetEx { key: "base:b:bucket1".to_string(), value: String::new(), ttl: 100 },
        ))
    );
}

#[test]
fn purge_pattern_runs_variant_script() {
    let store = CacheStoreBuilder::new(100, 1024);
    let call = store.purge_pattern(&CachePurgeVariant::Bucket, "*:b:bucket1");
    assert_eq!(call.source, BUCKET_SCRIPT);
    assert_eq!(call.argument, "*:b:bucket1");
    let call = store.purge_pattern(&CachePurgeVariant::Auth, "shard1:auth42:*");
    assert_eq!(call.source, AUTH_SCRIPT);
    assert_eq!(call.argument, "shard1:auth42:*");
    assert_ne!(BUCKET_SCRIPT, AUTH_SCRIPT);
    assert!(CachePurgeVariant::Bucket.get_script().contains(":b:"));
    assert_eq!(CachePurgeVariant::Auth.get_script(), AUTH_SCRIPT);
}

#[test]
fn backend_faults_map_to_errors() {
    assert_eq!(settle::<u8>(Ok(7)), Ok(7));
    assert_eq!(settle::<()>(Err(BackendFault::NoConnection)), Err(CacheStoreError::Disconnected));
    assert_eq!(settle::<()>(Err(BackendFault::CommandFailed)), Err(CacheStoreError::Failed));
}
