//! The plugin manifest: named plugins, each bound to the source it is downloaded from.

use vstd::prelude::*;

use crate::adapter::spiget::ResourceId;
use crate::assoc::{assoc_map, find_key, key_views, keys_distinct, lemma_assoc_lookup};
use crate::error::NotFoundError;

verus! {

/// The file name of the manifest when none is given.
pub const DEFAULT_MANIFEST_FILE_NAME: &'static str = "pluginstall.manifest.toml";

/// A Spiget plugin entry of the manifest.
#[derive(Clone, Copy, Debug, PartialEq, Eq, Structural)]
pub struct ManifestSpigetPlugin {
    pub resource_id: ResourceId,
}

/// A project on Hangar, named by its slug.
#[derive(Clone, Debug, PartialEq, Eq, Hash)]
pub struct HangarSlug(pub String);

/// A Hangar plugin entry of the manifest.
#[derive(Clone, Debug)]
pub struct HangarPlugin {
    pub slug: HangarSlug,
}

/// Where a plugin of the manifest is downloaded from.
#[derive(Clone, Debug)]
pub enum PluginDownloadSpec {
    /// From Hangar, through the Hangar API.
    Hangar(HangarPlugin),
    /// From Spigot, through the Spiget API.
    Spiget(ManifestSpigetPlugin),
    /// From a Jenkins server.
    Jenkins,
}

/// Metadata of a manifest.
#[derive(Clone, Debug)]
pub struct ManifestMeta {
    /// A human-friendly name of the manifest.
    pub manifest_name: String,
}

/// A plugin manifest: its metadata and its plugins by name.
#[derive(Clone, Debug)]
pub struct Manifest {
    pub meta: ManifestMeta,
    /// Pairs of plugin name and download spec; no name occurs twice.
    pub plugin: Vec<(String, PluginDownloadSpec)>,
}

impl View for Manifest {
    type V = Map<Seq<char>, PluginDownloadSpec>;

    open spec fn view(&self) -> Map<Seq<char>, PluginDownloadSpec> {
        assoc_map(key_views(self.plugin@))
    }
}

impl Manifest {
    /// No plugin name occurs twice.
    pub open spec fn wf(&self) -> bool {
        keys_distinct(key_views(self.plugin@))
    }

    /// A manifest without plugins.
    pub fn new(meta: ManifestMeta) -> (r: Self)
        ensures
            r.wf(),
            r.meta == meta,
            r@ == Map::<Seq<char>, PluginDownloadSpec>::empty(),
    {
        let r = Manifest { meta, plugin: Vec::new() };
        assert(key_views(r.plugin@) =~= Seq::empty());
        r
    }

    /// Binds the plugin named `plugin_name` to `spec`, replacing an earlier binding.
    pub fn insert_plugin(&mut self, plugin_name: &str, spec: PluginDownloadSpec)
        requires
            old(self).wf(),
        ensures
            final(self).wf(),
            final(self).meta == old(self).meta,
            final(self)@ == old(self)@.insert(plugin_name@, spec),
    {
        let name = String::from_str(plugin_name);
        let ghost pairs = key_views(self.plugin@);
        match find_key(&self.plugin, &name) {
            Some(i) => {
                let _ = self.plugin.remove(i);
                self.plugin.insert(i, (name, spec));
                proof {
                    assert(key_views(self.plugin@) =~= pairs.update(i as int, (pairs[i as int].0, spec)));
                    crate::assoc::lemma_assoc_update(pairs, i as int, spec);
                }
            },
            None => {
                let ghost k = name@;
                self.plugin.push((name, spec));
                proof {
                    assert(key_views(self.plugin@) =~= pairs.push((k, spec)));
                    crate::assoc::lemma_assoc_push(pairs, k, spec);
                }
            },
        }
    }

    /// The download spec of the plugin named `plugin_name`; an error when the manifest has
    /// no such plugin.
    pub fn plugin(&self, plugin_name: &str) -> (r: Result<&PluginDownloadSpec, NotFoundError>)
        requires
            self.wf(),
        ensures
            self@.contains_key(plugin_name@) ==> r is Ok && *r->Ok_0 == self@[plugin_name@],
            !self@.contains_key(plugin_name@) ==> r == Err::<&PluginDownloadSpec, NotFoundError>(
                NotFoundError::ManifestPlugin,
            ),
    {
        let name = String::from_str(plugin_name);
        match find_key(&self.plugin, &name) {
            Some(i) => {
                proof {
                    lemma_assoc_lookup(key_views(self.plugin@), i as int);
                }
                Ok(&self.plugin[i].1)
            },
            None => {
                proof {
                    crate::assoc::lemma_assoc_absent(key_views(self.plugin@), name@);
                }
                Err(NotFoundError::ManifestPlugin)
            },
        }
    }
}

} // verus!
