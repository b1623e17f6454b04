use pluginstall::adapter::PluginApiType;
use pluginstall::caching::{compute_cache_file_name, CacheIndex, CacheLookup, CachedPluginVersionFile};

const T0: i64 = 1_700_000_000;

fn record(ttl: Option<i64>, added: i64) -> CachedPluginVersionFile {
    CachedPluginVersionFile {
        file_name: "plugin.jar".to_string(),
        cache_file_name: "Spiget-p-1.CACHED".to_string(),
        ttl,
        added,
    }
}

#[test]
fn cache_file_name_format() {
    assert_eq!(
        compute_cache_file_name("foo", "9", PluginApiType::Spiget),
        "Spiget-foo-9.CACHED"
    );
    assert_eq!(
        compute_cache_file_name("my plugin", "abc", PluginApiType::Hangar),
        "Hangar-my plugin-abc.CACHED"
    );
    assert_eq!(
        compute_cache_file_name("x", "1", PluginApiType::Jenkins),
        "Jenkins-x-1.CACHED"
    );
}

#[test]
fn cache_file_names_never_collide() {
    let plugins = ["foo", "foo-bar", "föö", "a b", "a/b", "a.b", "", "-", "x-"];
    let versions = ["1", "2", "10", "latest"];
    for (i, first) in plugins.iter().enumerate() {
        for (j, second) in plugins.iter().enumerate() {
            for v in versions.iter() {
                if i != j {
                    assert_ne!(
                        compute_cache_file_name(first, v, PluginApiType::Spiget),
                        compute_cache_file_name(second, v, PluginApiType::Spiget)
                    );
                }
            }
        }
        for (a, version_a) in versions.iter().enumerate() {
            for (b, version_b) in versions.iter().enumerate() {
                if a != b {
                    assert_ne!(
                        compute_cache_file_name(first, version_a, PluginApiType::Spiget),
                        compute_cache_file_name(first, version_b, PluginApiType::Spiget)
                    );
                }
            }
        }
    }
}

#[test]
fn zero_ttl_is_outdated_from_the_start() {
    let r = record(Some(0), T0);
    assert!(r.is_outdated_at(T0));
    assert!(r.is_outdated_at(T0 + 1));
    assert!(r.is_outdated_at(T0 + 1_000_000));
}

#[test]
fn no_ttl_is_never_outdated() {
    let r = record(None, T0);
    assert!(!r.is_outdated_at(T0));
    assert!(!r.is_outdated_at(i64::MAX));
    assert!(!r.is_outdated());
}

#[test]
fn ttl_boundary_is_inclusive() {
    let r = record(Some(60), T0);
    assert!(!r.is_outdated_at(T0 + 59));
    assert!(r.is_outdated_at(T0 + 60));
    assert!(r.is_outdated_at(T0 + 61));
}

#[test]
fn overflowing_expiry_counts_as_outdated() {
    let r = record(Some(i64::MAX), T0);
    assert!(r.is_outdated_at(T0));
}

#[test]
fn put_then_get_round_trip() {
    let mut index = CacheIndex::new();
    let stored = index.cache_file_at("foo", "9", "Foo-1.2.jar", PluginApiType::Spiget, None, T0);
    assert_eq!(stored.file_name, "Foo-1.2.jar");
    assert_eq!(stored.cache_file_name, "Spiget-foo-9.CACHED");
    assert_eq!(stored.added, T0);
    match index.get_cached_file_at("foo", "9", T0) {
        CacheLookup::Fresh(meta) => {
            assert_eq!(meta.file_name, "Foo-1.2.jar");
            assert_eq!(meta.cache_file_name, "Spiget-foo-9.CACHED");
        }
        other => panic!("expected a fresh entry, got {other:?}"),
    }
    let with_ttl = index.cache_file_at("foo", "10", "Foo-1.3.jar", PluginApiType::Spiget, Some(3600), T0);
    assert_eq!(with_ttl.ttl, Some(3600));
    assert!(matches!(
        index.get_cached_file_at("foo", "10", T0),
        CacheLookup::Fresh(_)
    ));
    assert!(matches!(
        index.get_cached_file_at("foo", "11", T0),
        CacheLookup::Missing
    ));
    assert!(matches!(
        index.get_cached_file_at("bar", "9", T0),
        CacheLookup::Missing
    ));
}

#[test]
fn expired_entry_is_evicted() {
    let mut index = CacheIndex::new();
    index.cache_file_at("foo", "9", "Foo.jar", PluginApiType::Spiget, Some(10), T0);
    assert!(matches!(
        index.get_cached_file_at("foo", "9", T0 + 5),
        CacheLookup::Fresh(_)
    ));
    match index.get_cached_file_at("foo", "9", T0 + 10) {
        CacheLookup::Expired(meta) => assert_eq!(meta.cache_file_name, "Spiget-foo-9.CACHED"),
        other => panic!("expected an expired entry, got {other:?}"),
    }
    assert!(index.get_cached_plugin_metadata("foo", "9").is_none());
    assert!(matches!(
        index.get_cached_file_at("foo", "9", T0 + 10),
        CacheLookup::Missing
    ));
    assert!(index.plugins.is_empty());
}

#[test]
fn deleting_the_only_version_prunes_the_plugin() {
    let mut index = CacheIndex::new();
    index.cache_file_at("foo", "9", "Foo.jar", PluginApiType::Spiget, None, T0);
    let removed = index.delete_cached_file("foo", "9");
    assert_eq!(removed.map(|r| r.file_name), Some("Foo.jar".to_string()));
    assert!(index.plugins.is_empty());
    assert!(index.delete_cached_file("foo", "9").is_none());
}

#[test]
fn deleting_one_of_several_versions_keeps_the_others() {
    let mut index = CacheIndex::new();
    index.cache_file_at("foo", "9", "Foo-9.jar", PluginApiType::Spiget, None, T0);
    index.cache_file_at("foo", "5", "Foo-5.jar", PluginApiType::Spiget, None, T0);
    index.cache_file_at("bar", "1", "Bar.jar", PluginApiType::Spiget, None, T0);
    assert!(index.delete_cached_file("foo", "9").is_some());
    assert_eq!(index.plugins.len(), 2);
    assert!(index.get_cached_plugin_metadata("foo", "9").is_none());
    assert_eq!(
        index.get_cached_plugin_metadata("foo", "5").map(|r| r.file_name),
        Some("Foo-5.jar".to_string())
    );
    assert!(index.get_cached_plugin_metadata("bar", "1").is_some());
    assert!(index.delete_cached_file("foo", "404").is_none());
}

#[test]
fn second_put_overwrites_the_first() {
    let mut index = CacheIndex::new();
    let first = index.cache_file_at("foo", "9", "old.jar", PluginApiType::Spiget, None, T0);
    let second = index.cache_file_at("foo", "9", "new.jar", PluginApiType::Spiget, Some(60), T0 + 1);
    assert_eq!(first.cache_file_name, second.cache_file_name);
    assert_eq!(index.plugins.len(), 1);
    assert_eq!(index.plugins[0].1.versions.len(), 1);
    let meta = index.get_cached_plugin_metadata("foo", "9").unwrap();
    assert_eq!(meta.file_name, "new.jar");
    assert_eq!(meta.ttl, Some(60));
    assert_eq!(meta.added, T0 + 1);
}

#[test]
fn existing_entry_keeps_its_source_api() {
    let mut index = CacheIndex::new();
    index.cache_file_at("foo", "9", "a.jar", PluginApiType::Spiget, None, T0);
    index.cache_file_at("foo", "10", "b.jar", PluginApiType::Hangar, None, T0);
    assert_eq!(index.plugins[0].1.source_api, PluginApiType::Spiget);
    assert_eq!(
        index.get_cached_plugin_metadata("foo", "10").unwrap().cache_file_name,
        "Hangar-foo-10.CACHED"
    );
}

#[test]
fn insert_record_restores_a_loaded_entry() {
    let mut index = CacheIndex::new();
    index.insert_record("foo", "9", PluginApiType::Spiget, record(Some(5), T0));
    let meta = index.get_cached_plugin_metadata("foo", "9").unwrap();
    assert_eq!(meta.ttl, Some(5));
    assert_eq!(meta.added, T0);
}
