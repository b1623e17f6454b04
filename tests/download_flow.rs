use pluginstall::adapter::spiget::{ResourceId, SpigetApiClient, SpigetPlugin, SpigetVersion, VersionId};
use pluginstall::adapter::VersionSpec;
use pluginstall::caching::{CacheIndex, CacheLookup};
use pluginstall::cli::VersionSpecArgs;
use pluginstall::manifest::{Manifest, ManifestMeta, ManifestSpigetPlugin, PluginDownloadSpec};
use pluginstall::session::{
    DownloadAction, DownloadError, DownloadEvent, DownloadReport, DownloadSpec, DownloadState,
    ContentDispositionFilenameError,
};

const T1: i64 = 1_600_000_000;
const T2: i64 = 1_700_000_000;

struct World {
    index: CacheIndex,
    data_files: Vec<(String, Vec<u8>)>,
    out_dir: Vec<(String, Vec<u8>)>,
    proxy_requests: usize,
}

/// Runs one download to its end, performing every action against the in-memory world.
fn run_download(spec: &DownloadSpec, world: &mut World, body: &[u8], disposition: &[u8], now: i64) -> DownloadAction {
    let (mut state, mut action) = spec.start();
    loop {
        let event = match &action {
            DownloadAction::CheckDirectory => DownloadEvent::DirectoryChecked(true),
            DownloadAction::LookupCache { plugin_name, version_identifier } => {
                DownloadEvent::CacheLooked(world.index.get_cached_file_at(plugin_name, version_identifier, now))
            }
            DownloadAction::CopyFromCache(meta) => {
                let data = world
                    .data_files
                    .iter()
                    .find(|(name, _)| *name == meta.cache_file_name)
                    .map(|(_, d)| d.clone())
                    .unwrap();
                let size = data.len() as u64;
                world.out_dir.push((meta.file_name.clone(), data));
                DownloadEvent::CacheCopied(size)
            }
            DownloadAction::Fetch(url) => {
                assert!(url.ends_with("/download/proxy"));
                world.proxy_requests += 1;
                DownloadEvent::ResponseReceived {
                    content_disposition: Some(disposition.to_vec()),
                    cache_control: None,
                    size: body.len() as u64,
                }
            }
            DownloadAction::StoreAndWrite { plugin_name, version_identifier, file_name, api_type, ttl } => {
                let record = world.index.cache_file_at(plugin_name, version_identifier, file_name, *api_type, *ttl, now);
                world.data_files.retain(|(name, _)| *name != record.cache_file_name);
                world.data_files.push((record.cache_file_name.clone(), body.to_vec()));
                world.out_dir.push((file_name.clone(), body.to_vec()));
                DownloadEvent::Written
            }
            DownloadAction::Report(_) | DownloadAction::Fail(_) => return action,
        };
        assert!(DownloadSpec::expects_event(&state, &event));
        let (next_state, next_action) = spec.step(state, event);
        state = next_state;
        action = next_action;
    }
}

#[test]
fn end_to_end_download_then_cached_download() {
    let mut manifest = Manifest::new(ManifestMeta { manifest_name: "m".to_string() });
    manifest.insert_plugin("foo", PluginDownloadSpec::Spiget(ManifestSpigetPlugin { resource_id: ResourceId(42) }));
    let resource_id = match manifest.plugin("foo") {
        Ok(PluginDownloadSpec::Spiget(s)) => s.resource_id,
        _ => panic!("foo is a Spiget plugin"),
    };
    let plugin = SpigetPlugin::new(
        SpigetApiClient::new(),
        resource_id,
        vec![
            SpigetVersion { id: VersionId(9), name: "1.2".to_string(), release_date: T2 },
            SpigetVersion { id: VersionId(5), name: "1.1".to_string(), release_date: T1 },
        ],
    )
    .unwrap();
    let args = VersionSpecArgs { version_name: None, version_ident: None };
    let spec = args.get().unwrap();
    assert_eq!(spec, VersionSpec::Latest);
    let version = plugin.version_from_spec(&spec).unwrap().unwrap();
    assert_eq!(version.version.id, VersionId(9));

    let download = DownloadSpec::for_spiget("foo", &version);
    assert_eq!(download.version_identifier, "9");
    let mut world = World { index: CacheIndex::new(), data_files: vec![], out_dir: vec![], proxy_requests: 0 };
    let body = b"plugin bytes";
    let first = run_download(&download, &mut world, body, b"attachment; filename=\"Foo.jar\"", T2);
    match first {
        DownloadAction::Report(report) => assert_eq!(report, DownloadReport { download_size: 12, cached: false }),
        other => panic!("unexpected end: {other:?}"),
    }
    assert_eq!(world.proxy_requests, 1);
    assert!(world.index.get_cached_plugin_metadata("foo", "9").is_some());
    assert_eq!(world.out_dir, vec![("Foo.jar".to_string(), body.to_vec())]);

    let second = run_download(&download, &mut world, body, b"attachment; filename=\"Foo.jar\"", T2 + 10);
    match second {
        DownloadAction::Report(report) => assert_eq!(report, DownloadReport { download_size: 12, cached: true }),
        other => panic!("unexpected end: {other:?}"),
    }
    assert_eq!(world.proxy_requests, 1);
    assert_eq!(world.out_dir[1], world.out_dir[0]);
}

#[test]
fn unsafe_file_name_fails_before_anything_is_written() {
    let download = DownloadSpec {
        plugin_name: "foo".to_string(),
        version_identifier: "9".to_string(),
        download_url: "https://api.spiget.org/v2/resources/42/versions/9/download/proxy".to_string(),
        api_type: pluginstall::adapter::PluginApiType::Spiget,
    };
    for disposition in [&b"attachment; filename=\"../../evil\""[..], &b"attachment; filename=\"sub/dir/file\""[..]] {
        let mut world = World { index: CacheIndex::new(), data_files: vec![], out_dir: vec![], proxy_requests: 0 };
        let end = run_download(&download, &mut world, b"x", disposition, T2);
        assert!(matches!(
            end,
            DownloadAction::Fail(DownloadError::ResponseFilename(ContentDispositionFilenameError::InvalidFilename(_)))
        ));
        assert!(world.out_dir.is_empty());
        assert!(world.data_files.is_empty());
        assert!(world.index.plugins.is_empty());
    }
}

#[test]
fn missing_directory_fails_first() {
    let download = DownloadSpec {
        plugin_name: "foo".to_string(),
        version_identifier: "9".to_string(),
        download_url: "u".to_string(),
        api_type: pluginstall::adapter::PluginApiType::Spiget,
    };
    let (state, action) = download.start();
    assert!(matches!(action, DownloadAction::CheckDirectory));
    let (state, action) = download.step(state, DownloadEvent::DirectoryChecked(false));
    assert!(matches!(state, DownloadState::Finished));
    assert!(matches!(action, DownloadAction::Fail(DownloadError::InvalidDirectoryPath)));
}

#[test]
fn expired_cache_entry_leads_to_fetch() {
    let download = DownloadSpec {
        plugin_name: "foo".to_string(),
        version_identifier: "9".to_string(),
        download_url: "https://example.org/file".to_string(),
        api_type: pluginstall::adapter::PluginApiType::Spiget,
    };
    let mut index = CacheIndex::new();
    index.cache_file_at("foo", "9", "Foo.jar", pluginstall::adapter::PluginApiType::Spiget, Some(5), T1);
    let lookup = index.get_cached_file_at("foo", "9", T1 + 5);
    assert!(matches!(lookup, CacheLookup::Expired(_)));
    let (state, action) = download.step(DownloadState::CheckCache, DownloadEvent::CacheLooked(lookup));
    assert!(matches!(state, DownloadState::FetchRemote));
    match action {
        DownloadAction::Fetch(url) => assert_eq!(url, "https://example.org/file"),
        other => panic!("unexpected action: {other:?}"),
    }
}

#[test]
fn broken_cache_control_fails_the_download() {
    let download = DownloadSpec {
        plugin_name: "foo".to_string(),
        version_identifier: "9".to_string(),
        download_url: "u".to_string(),
        api_type: pluginstall::adapter::PluginApiType::Spiget,
    };
    let (state, action) = download.step(
        DownloadState::FetchRemote,
        DownloadEvent::ResponseReceived {
            content_disposition: Some(b"attachment; filename=ok.jar".to_vec()),
            cache_control: Some(b"".to_vec()),
            size: 3,
        },
    );
    assert!(matches!(state, DownloadState::Finished));
    assert!(matches!(action, DownloadAction::Fail(DownloadError::CacheControl(_))));
    let (state, action) = download.step(
        DownloadState::FetchRemote,
        DownloadEvent::ResponseReceived {
            content_disposition: Some(b"attachment; filename=ok.jar".to_vec()),
            cache_control: Some(b"max-age=300".to_vec()),
            size: 3,
        },
    );
    match (state, action) {
        (DownloadState::WriteThrough { file_name, ttl, size }, DownloadAction::StoreAndWrite { ttl: t2, .. }) => {
            assert_eq!(file_name, "ok.jar");
            assert_eq!(ttl, Some(300));
            assert_eq!(t2, Some(300));
            assert_eq!(size, 3);
        }
        other => panic!("unexpected step: {other:?}"),
    }
}
