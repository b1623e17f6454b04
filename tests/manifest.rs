use pluginstall::adapter::spiget::ResourceId;
use pluginstall::error::NotFoundError;
use pluginstall::manifest::{
    HangarPlugin, HangarSlug, Manifest, ManifestMeta, ManifestSpigetPlugin, PluginDownloadSpec,
};

fn sample_manifest() -> Manifest {
    let mut manifest = Manifest::new(ManifestMeta {
        manifest_name: "server".to_string(),
    });
    manifest.insert_plugin(
        "foo",
        PluginDownloadSpec::Spiget(ManifestSpigetPlugin {
            resource_id: ResourceId(42),
        }),
    );
    manifest.insert_plugin(
        "bar",
        PluginDownloadSpec::Hangar(HangarPlugin {
            slug: HangarSlug("bar-project".to_string()),
        }),
    );
    manifest.insert_plugin("baz", PluginDownloadSpec::Jenkins);
    manifest
}

#[test]
fn test_parse_manifest() {
    let manifest = sample_manifest();
    assert_eq!(manifest.meta.manifest_name, "server");
    match manifest.plugin("foo") {
        Ok(PluginDownloadSpec::Spiget(spiget)) => assert_eq!(spiget.resource_id, ResourceId(42)),
        other => panic!("unexpected lookup result: {other:?}"),
    }
    match manifest.plugin("bar") {
        Ok(PluginDownloadSpec::Hangar(hangar)) => assert_eq!(hangar.slug.0, "bar-project"),
        other => panic!("unexpected lookup result: {other:?}"),
    }
    assert!(matches!(manifest.plugin("baz"), Ok(PluginDownloadSpec::Jenkins)));
}

#[test]
fn missing_plugin_is_not_found() {
    let manifest = sample_manifest();
    assert!(matches!(
        manifest.plugin("qux"),
        Err(NotFoundError::ManifestPlugin)
    ));
}

#[test]
fn rebinding_a_plugin_replaces_it() {
    let mut manifest = sample_manifest();
    manifest.insert_plugin(
        "foo",
        PluginDownloadSpec::Spiget(ManifestSpigetPlugin {
            resource_id: ResourceId(7),
        }),
    );
    assert_eq!(manifest.plugin.len(), 3);
    match manifest.plugin("foo") {
        Ok(PluginDownloadSpec::Spiget(spiget)) => assert_eq!(spiget.resource_id, ResourceId(7)),
        other => panic!("unexpected lookup result: {other:?}"),
    }
}
