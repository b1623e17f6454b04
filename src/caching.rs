//! The download cache index: which versions of which plugins are cached, in which data
//! files, and until when.
//!
//! The index maps a plugin's manifest name to the API it came from and to its cached
//! versions; each version identifier maps to a [`CachedPluginVersionFile`]. A plugin with
//! no cached version has no entry at all. Reading and writing the data files and the
//! index file is the caller's part: the operations here say which data file to write or
//! delete.

use vstd::prelude::*;

use crate::adapter::{api_type_name, PluginApiType};
use crate::assoc::{
    assoc_map, find_key, key_views, keys_distinct, lemma_assoc_lookup, lemma_assoc_push,
    lemma_assoc_remove, lemma_assoc_update,
};

verus! {

/// Timestamps (seconds since the Unix epoch) within this distance of the epoch, about
/// 250,000 years, are dates that chrono can represent.
pub const TIMESTAMP_BOUND: i64 = 8_000_000_000_000;

/// Whether the expiry instant `added + ttl` is certainly computed without overflow.
pub open spec fn expiry_representable(added: int, ttl: int) -> bool {
    -TIMESTAMP_BOUND <= added <= TIMESTAMP_BOUND && -TIMESTAMP_BOUND <= added + ttl
        <= TIMESTAMP_BOUND
}

/// Relies on chrono's `DateTime::<Utc>::checked_add_signed`: adding a number of seconds to
/// an instant yields the instant that many seconds later, or nothing when it leaves the
/// range of dates chrono represents (about 262,000 years around the epoch).
#[verifier::external_body]
fn checked_expiry(added: i64, ttl: i64) -> (r: Option<i64>)
    ensures
        r matches Some(e) ==> e == added + ttl,
        expiry_representable(added as int, ttl as int) ==> r is Some,
{
    let start = chrono::DateTime::from_timestamp(added, 0)?;
    let delta = chrono::TimeDelta::try_seconds(ttl)?;
    start.checked_add_signed(delta).map(|d| d.timestamp())
}

/// Relies on chrono's `Utc::now`: the current time, in seconds since the Unix epoch.
/// (chrono panics when the system clock reads a time before 1970.)
#[verifier::external_body]
fn now_timestamp() -> (r: i64) {
    chrono::Utc::now().timestamp()
}

/// The name of the data file that holds a cached version:
/// `{source_api}-{plugin_name}-{version_identifier}.CACHED`.
pub open spec fn cache_file_name_of(
    plugin_type: PluginApiType,
    plugin_name: Seq<char>,
    version_identifier: Seq<char>,
) -> Seq<char> {
    api_type_name(plugin_type) + seq!['-'] + plugin_name + seq!['-'] + version_identifier
        + seq!['.', 'C', 'A', 'C', 'H', 'E', 'D']
}

/// Computes the name of the data file that holds a cached version of a plugin.
pub fn compute_cache_file_name(
    plugin_name: &str,
    version_identifier: &str,
    plugin_type: PluginApiType,
) -> (r: String)
    ensures
        r@ == cache_file_name_of(plugin_type, plugin_name@, version_identifier@),
{
    let mut name = plugin_type.name();
    proof {
        reveal_strlit("-");
        reveal_strlit(".CACHED");
    }
    name.append("-");
    name.append(plugin_name);
    name.append("-");
    name.append(version_identifier);
    name.append(".CACHED");
    name
}

/// A cached version of a plugin: where its data lies and how long it stays valid.
#[derive(Clone, Debug)]
pub struct CachedPluginVersionFile {
    /// The file name that the API gave the downloaded file.
    pub file_name: String,
    /// The name of the data file in the cache's data directory.
    pub cache_file_name: String,
    /// How many seconds the cached copy stays valid, if it expires at all.
    pub ttl: Option<i64>,
    /// When the version was cached, in seconds since the Unix epoch (UTC).
    pub added: i64,
}

impl CachedPluginVersionFile {
    /// The record has a TTL and `now` is at or past `added + ttl`.
    pub open spec fn certainly_expired(&self, now: int) -> bool {
        self.ttl matches Some(t) && now >= self.added + t
    }

    /// The record has no TTL, or `added + ttl` is a representable instant after `now`.
    pub open spec fn certainly_fresh(&self, now: int) -> bool {
        match self.ttl {
            None => true,
            Some(t) => expiry_representable(self.added as int, t as int) && now < self.added + t,
        }
    }

    /// Whether this record has outlived its TTL at the instant `now`.
    ///
    /// A record without a TTL never expires. One whose expiry instant cannot be computed
    /// counts as outdated.
    pub fn is_outdated_at(&self, now: i64) -> (r: bool)
        ensures
            self.certainly_expired(now as int) ==> r,
            self.certainly_fresh(now as int) ==> !r,
    {
        match self.ttl {
            None => false,
            Some(ttl) => match checked_expiry(self.added, ttl) {
                None => true,
                Some(expiry) => now >= expiry,
            },
        }
    }

    /// Whether this record has outlived its TTL now.
    pub fn is_outdated(&self) -> (r: bool)
        ensures
            self.ttl is None ==> !r,
    {
        self.is_outdated_at(now_timestamp())
    }

    /// A copy of this record.
    pub fn copied(&self) -> (r: Self)
        ensures
            r == *self,
    {
        CachedPluginVersionFile {
            file_name: self.file_name.clone(),
            cache_file_name: self.cache_file_name.clone(),
            ttl: self.ttl,
            added: self.added,
        }
    }
}

/// What the index holds for one plugin: its source API and its cached versions by identifier.
pub type PluginEntryView = (PluginApiType, Map<Seq<char>, CachedPluginVersionFile>);

/// What the index holds: the entries of the plugins by manifest name.
pub type IndexView = Map<Seq<char>, PluginEntryView>;

/// The cached versions of one plugin.
#[derive(Clone, Debug)]
pub struct CachedPlugin {
    /// Pairs of version identifier and cached file; no identifier occurs twice.
    pub versions: Vec<(String, CachedPluginVersionFile)>,
    /// The API this plugin was sourced from.
    pub source_api: PluginApiType,
}

impl CachedPlugin {
    /// The cached versions, by identifier.
    pub open spec fn version_map(&self) -> Map<Seq<char>, CachedPluginVersionFile> {
        assoc_map(key_views(self.versions@))
    }

    pub open spec fn entry_view(&self) -> PluginEntryView {
        (self.source_api, self.version_map())
    }

    /// No version identifier occurs twice.
    pub open spec fn wf(&self) -> bool {
        keys_distinct(key_views(self.versions@))
    }

    /// A plugin entry without cached versions.
    pub fn new(source_api: PluginApiType) -> (r: Self)
        ensures
            r.wf(),
            r.entry_view() == (source_api, Map::<Seq<char>, CachedPluginVersionFile>::empty()),
    {
        let r = CachedPlugin { versions: Vec::new(), source_api };
        assert(key_views(r.versions@) =~= Seq::empty());
        r
    }

    /// Records `file` as the cached file of version `version`, replacing any earlier record.
    pub fn put_version(&mut self, version: String, file: CachedPluginVersionFile)
        requires
            old(self).wf(),
        ensures
            final(self).wf(),
            final(self).source_api == old(self).source_api,
            final(self).version_map() == old(self).version_map().insert(version@, file),
            final(self).versions@.len() > 0,
    {
        let ghost old_pairs = key_views(self.versions@);
        match find_key(&self.versions, &version) {
            Some(i) => {
                let _ = self.versions.remove(i);
                self.versions.insert(i, (version, file));
                proof {
                    assert(key_views(self.versions@) =~= old_pairs.update(
                        i as int,
                        (old_pairs[i as int].0, file),
                    ));
                    lemma_assoc_update(old_pairs, i as int, file);
                }
            },
            None => {
                let ghost k = version@;
                self.versions.push((version, file));
                proof {
                    assert(key_views(self.versions@) =~= old_pairs.push((k, file)));
                    lemma_assoc_push(old_pairs, k, file);
                }
            },
        }
    }

    /// Removes the record of version `version` and returns it, if there is one.
    pub fn remove_version(&mut self, version: &String) -> (r: Option<CachedPluginVersionFile>)
        requires
            old(self).wf(),
        ensures
            final(self).wf(),
            final(self).source_api == old(self).source_api,
            r == (if old(self).version_map().contains_key(version@) {
                Some(old(self).version_map()[version@])
            } else {
                None::<CachedPluginVersionFile>
            }),
            final(self).version_map() == old(self).version_map().remove(version@),
            r is None ==> *final(self) == *old(self),
            final(self).versions@.len() == 0 <==> final(self).version_map() == Map::<
                Seq<char>,
                CachedPluginVersionFile,
            >::empty(),
    {
        let ghost old_pairs = key_views(self.versions@);
        let r = match find_key(&self.versions, version) {
            Some(i) => {
                proof {
                    lemma_assoc_lookup(old_pairs, i as int);
                }
                let (_, file) = self.versions.remove(i);
                proof {
                    assert(key_views(self.versions@) =~= old_pairs.remove(i as int));
                    lemma_assoc_remove(old_pairs, i as int);
                }
                Some(file)
            },
            None => {
                proof {
                    crate::assoc::lemma_assoc_absent(old_pairs, version@);
                    assert(self.version_map() =~= self.version_map().remove(version@));
                }
                None
            },
        };
        proof {
            let pairs = key_views(self.versions@);
            if pairs.len() > 0 {
                lemma_assoc_lookup(pairs, 0);
            } else {
                assert(self.version_map() =~= Map::<Seq<char>, CachedPluginVersionFile>::empty());
            }
        }
        r
    }

    /// The record of version `version`, if there is one.
    pub fn get_version(&self, version: &String) -> (r: Option<CachedPluginVersionFile>)
        requires
            self.wf(),
        ensures
            r == (if self.version_map().contains_key(version@) {
                Some(self.version_map()[version@])
            } else {
                None::<CachedPluginVersionFile>
            }),
    {
        match find_key(&self.versions, version) {
            Some(i) => {
                proof {
                    lemma_assoc_lookup(key_views(self.versions@), i as int);
                }
                Some(self.versions[i].1.copied())
            },
            None => {
                proof {
                    crate::assoc::lemma_assoc_absent(key_views(self.versions@), version@);
                }
                None
            },
        }
    }
}


/// The plugin entries of a list of pairs, as text keys and entry views.
pub open spec fn plugin_views(s: Seq<(String, CachedPlugin)>) -> Seq<(Seq<char>, PluginEntryView)> {
    s.map_values(|e: (String, CachedPlugin)| (e.0@, e.1.entry_view()))
}

/// The cached file of `version` of `plugin`, if the index holds one.
pub open spec fn index_lookup(
    m: IndexView,
    plugin: Seq<char>,
    version: Seq<char>,
) -> Option<CachedPluginVersionFile> {
    if m.contains_key(plugin) && m[plugin].1.contains_key(version) {
        Some(m[plugin].1[version])
    } else {
        None
    }
}

/// The index after recording `file` for `version` of `plugin`. A new plugin entry takes
/// `source_api`; an existing one keeps its own.
pub open spec fn index_insert(
    m: IndexView,
    plugin: Seq<char>,
    version: Seq<char>,
    source_api: PluginApiType,
    file: CachedPluginVersionFile,
) -> IndexView {
    let entry = if m.contains_key(plugin) {
        m[plugin]
    } else {
        (source_api, Map::empty())
    };
    m.insert(plugin, (entry.0, entry.1.insert(version, file)))
}

/// The index after removing `version` of `plugin`. A plugin left without versions loses
/// its entry.
pub open spec fn index_remove(m: IndexView, plugin: Seq<char>, version: Seq<char>) -> IndexView {
    if index_lookup(m, plugin, version) is Some {
        let rest = m[plugin].1.remove(version);
        if rest == Map::<Seq<char>, CachedPluginVersionFile>::empty() {
            m.remove(plugin)
        } else {
            m.insert(plugin, (m[plugin].0, rest))
        }
    } else {
        m
    }
}

/// The record that `put` stores for a version cached at `now`.
pub open spec fn new_record(
    plugin: Seq<char>,
    version: Seq<char>,
    file_name: Seq<char>,
    plugin_type: PluginApiType,
    ttl: Option<i64>,
    now: i64,
    f: CachedPluginVersionFile,
) -> bool {
    &&& f.file_name@ == file_name
    &&& f.cache_file_name@ == cache_file_name_of(plugin_type, plugin, version)
    &&& f.ttl == ttl
    &&& f.added == now
}

/// The outcome of looking a version up in the cache.
#[derive(Clone, Debug)]
pub enum CacheLookup {
    /// The version is not cached.
    Missing,
    /// The version is cached and still valid.
    Fresh(CachedPluginVersionFile),
    /// The version was cached but had expired: its record has been removed from the index,
    /// and its data file is to be deleted.
    Expired(CachedPluginVersionFile),
}

/// The cache index: for each plugin, by manifest name, its source API and cached versions.
#[derive(Clone, Debug)]
pub struct CacheIndex {
    /// Pairs of manifest name and plugin entry; no name occurs twice.
    pub plugins: Vec<(String, CachedPlugin)>,
}

impl View for CacheIndex {
    type V = IndexView;

    open spec fn view(&self) -> IndexView {
        assoc_map(plugin_views(self.plugins@))
    }
}

impl CacheIndex {
    /// Names are distinct, versions within an entry are distinct, and every entry holds at
    /// least one version.
    pub open spec fn wf(&self) -> bool {
        &&& keys_distinct(plugin_views(self.plugins@))
        &&& forall|i: int|
            0 <= i < self.plugins@.len() ==> (#[trigger] self.plugins@[i]).1.wf()
                && self.plugins@[i].1.versions@.len() > 0
    }

    /// An empty index.
    pub fn new() -> (r: Self)
        ensures
            r.wf(),
            r@ == IndexView::empty(),
    {
        let r = CacheIndex { plugins: Vec::new() };
        assert(plugin_views(r.plugins@) =~= Seq::empty());
        r
    }

    /// Every plugin in a well-formed index has at least one cached version.
    pub proof fn lemma_entries_nonempty(&self, plugin: Seq<char>)
        requires
            self.wf(),
            self@.contains_key(plugin),
        ensures
            self@[plugin].1 != Map::<Seq<char>, CachedPluginVersionFile>::empty(),
    {
        let pv = plugin_views(self.plugins@);
        crate::assoc::lemma_assoc_domain(pv, plugin);
        let i = choose|i: int| 0 <= i < pv.len() && (#[trigger] pv[i]).0 == plugin;
        lemma_assoc_lookup(pv, i);
        let e = self.plugins@[i].1;
        assert(e.wf());
        lemma_assoc_lookup(key_views(e.versions@), 0);
        assert(e.version_map().contains_key(key_views(e.versions@)[0].0));
    }

    /// The cached file of `version` of `plugin`, whether or not it has expired.
    pub fn get_cached_plugin_metadata(&self, plugin_name: &str, version_identifier: &str) -> (r:
        Option<CachedPluginVersionFile>)
        requires
            self.wf(),
        ensures
            r == index_lookup(self@, plugin_name@, version_identifier@),
    {
        let pk = String::from_str(plugin_name);
        let vk = String::from_str(version_identifier);
        let ghost pv = plugin_views(self.plugins@);
        match find_key(&self.plugins, &pk) {
            Some(i) => {
                proof {
                    lemma_assoc_lookup(pv, i as int);
                    assert(self.plugins@[i as int].1.wf());
                }
                self.plugins[i].1.get_version(&vk)
            },
            None => {
                proof {
                    assert forall|j: int| 0 <= j < pv.len() implies (#[trigger] pv[j]).0 != pk@ by {
                        assert(pv[j].0 == key_views(self.plugins@)[j].0);
                    }
                    crate::assoc::lemma_assoc_absent(pv, pk@);
                }
                None
            },
        }
    }

    /// Records `file` as the cached file of `version` of `plugin`, creating the plugin's
    /// entry with `source_api` if it has none.
    pub fn insert_record(
        &mut self,
        plugin_name: &str,
        version_identifier: &str,
        source_api: PluginApiType,
        file: CachedPluginVersionFile,
    )
        requires
            old(self).wf(),
        ensures
            final(self).wf(),
            final(self)@ == index_insert(
                old(self)@,
                plugin_name@,
                version_identifier@,
                source_api,
                file,
            ),
    {
        let pk = String::from_str(plugin_name);
        let vk = String::from_str(version_identifier);
        let ghost pv = plugin_views(self.plugins@);
        let ghost old_plugins = self.plugins@;
        match find_key(&self.plugins, &pk) {
            Some(i) => {
                proof {
                    lemma_assoc_lookup(pv, i as int);
                    assert(pv[i as int].0 == key_views(self.plugins@)[i as int].0);
                }
                let (name, mut entry) = self.plugins.remove(i);
                assert(entry.wf());
                entry.put_version(vk, file);
                let ghost e = entry;
                let ghost n = name;
                self.plugins.insert(i, (name, entry));
                proof {
                    assert(self.plugins@ =~= old_plugins.update(i as int, (n, e)));
                    assert(plugin_views(self.plugins@) =~= pv.update(
                        i as int,
                        (pv[i as int].0, e.entry_view()),
                    ));
                    lemma_assoc_update(pv, i as int, e.entry_view());
                    assert(e.entry_view() =~= (
                        old(self)@[plugin_name@].0,
                        old(self)@[plugin_name@].1.insert(version_identifier@, file),
                    ));
                }
            },
            None => {
                proof {
                    assert forall|j: int| 0 <= j < pv.len() implies (#[trigger] pv[j]).0 != pk@ by {
                        assert(pv[j].0 == key_views(self.plugins@)[j].0);
                    }
                    crate::assoc::lemma_assoc_absent(pv, pk@);
                }
                let mut entry = CachedPlugin::new(source_api);
                entry.put_version(vk, file);
                let ghost e = entry;
                let ghost k = pk@;
                self.plugins.push((pk, entry));
                proof {
                    assert(plugin_views(self.plugins@) =~= pv.push((k, e.entry_view())));
                    lemma_assoc_push(pv, k, e.entry_view());
                    assert(e.entry_view() =~= (
                        source_api,
                        Map::<Seq<char>, CachedPluginVersionFile>::empty().insert(
                            version_identifier@,
                            file,
                        ),
                    ));
                }
            },
        }
        proof {
            assert forall|j: int| 0 <= j < self.plugins@.len() implies (#[trigger] self.plugins@[j]).1.wf()
                && self.plugins@[j].1.versions@.len() > 0 by {
                if j < old_plugins.len() && self.plugins@[j] == old_plugins[j] {
                    assert(old(self).plugins@[j].1.wf());
                }
            }
        }
    }

    /// Removes the record of `version` of `plugin` from the index and returns it, removing
    /// the plugin's entry when no version is left. The caller deletes the returned record's
    /// data file.
    pub fn delete_cached_file(&mut self, plugin_name: &str, version_identifier: &str) -> (r:
        Option<CachedPluginVersionFile>)
        requires
            old(self).wf(),
        ensures
            final(self).wf(),
            r == index_lookup(old(self)@, plugin_name@, version_identifier@),
            final(self)@ == index_remove(old(self)@, plugin_name@, version_identifier@),
    {
        let pk = String::from_str(plugin_name);
        let vk = String::from_str(version_identifier);
        let ghost pv = plugin_views(self.plugins@);
        let ghost old_plugins = self.plugins@;
        match find_key(&self.plugins, &pk) {
            Some(i) => {
                proof {
                    lemma_assoc_lookup(pv, i as int);
                    assert(pv[i as int].0 == key_views(self.plugins@)[i as int].0);
                }
                let (name, mut entry) = self.plugins.remove(i);
                assert(entry.wf());
                let removed = entry.remove_version(&vk);
                if removed.is_none() {
                    self.plugins.insert(i, (name, entry));
                    proof {
                        assert(self.plugins@ =~= old_plugins);
                    }
                    return None;
                }
                if entry.versions.len() == 0 {
                    proof {
                        assert(plugin_views(self.plugins@) =~= pv.remove(i as int));
                        lemma_assoc_remove(pv, i as int);
                        assert forall|j: int| 0 <= j < self.plugins@.len() implies (#[trigger] self.plugins@[j]).1.wf()
                            && self.plugins@[j].1.versions@.len() > 0 by {
                            if j < i {
                                assert(self.plugins@[j] == old_plugins[j]);
                            } else {
                                assert(self.plugins@[j] == old_plugins[j + 1]);
                            }
                        }
                    }
                } else {
                    let ghost e = entry;
                    let ghost n = name;
                    self.plugins.insert(i, (name, entry));
                    proof {
                        assert(self.plugins@ =~= old_plugins.update(i as int, (n, e)));
                        assert(plugin_views(self.plugins@) =~= pv.update(
                            i as int,
                            (pv[i as int].0, e.entry_view()),
                        ));
                        lemma_assoc_update(pv, i as int, e.entry_view());
                        assert forall|j: int| 0 <= j < self.plugins@.len() implies (#[trigger] self.plugins@[j]).1.wf()
                            && self.plugins@[j].1.versions@.len() > 0 by {
                            if j != i {
                                assert(self.plugins@[j] == old_plugins[j]);
                            }
                        }
                    }
                }
                removed
            },
            None => {
                proof {
                    assert forall|j: int| 0 <= j < pv.len() implies (#[trigger] pv[j]).0 != pk@ by {
                        assert(pv[j].0 == key_views(self.plugins@)[j].0);
                    }
                    crate::assoc::lemma_assoc_absent(pv, pk@);
                }
                None
            },
        }
    }

    /// Records a newly cached version of a plugin, cached at the instant `now`, and returns
    /// the record. The caller writes the data to the file named by the record's
    /// `cache_file_name` before it calls this, so that the index never names a file that is
    /// not complete.
    pub fn cache_file_at(
        &mut self,
        plugin_name: &str,
        version_identifier: &str,
        file_name: &str,
        plugin_type: PluginApiType,
        ttl: Option<i64>,
        now: i64,
    ) -> (r: CachedPluginVersionFile)
        requires
            old(self).wf(),
        ensures
            final(self).wf(),
            new_record(plugin_name@, version_identifier@, file_name@, plugin_type, ttl, now, r),
            final(self)@ == index_insert(
                old(self)@,
                plugin_name@,
                version_identifier@,
                plugin_type,
                r,
            ),
    {
        let record = CachedPluginVersionFile {
            file_name: String::from_str(file_name),
            cache_file_name: compute_cache_file_name(plugin_name, version_identifier, plugin_type),
            ttl,
            added: now,
        };
        self.insert_record(plugin_name, version_identifier, plugin_type, record.copied());
        record
    }

    /// Records a newly cached version of a plugin, cached now, and returns the record.
    pub fn cache_file(
        &mut self,
        plugin_name: &str,
        version_identifier: &str,
        file_name: &str,
        plugin_type: PluginApiType,
        ttl: Option<i64>,
    ) -> (r: CachedPluginVersionFile)
        requires
            old(self).wf(),
        ensures
            final(self).wf(),
            new_record(plugin_name@, version_identifier@, file_name@, plugin_type, ttl, r.added, r),
            final(self)@ == index_insert(
                old(self)@,
                plugin_name@,
                version_identifier@,
                plugin_type,
                r,
            ),
    {
        let now = now_timestamp();
        self.cache_file_at(plugin_name, version_identifier, file_name, plugin_type, ttl, now)
    }

    /// Looks up `version` of `plugin` at the instant `now`. An expired record is removed from
    /// the index and reported as [`CacheLookup::Expired`], so that the caller deletes its
    /// data file; the version then counts as not cached.
    pub fn get_cached_file_at(&mut self, plugin_name: &str, version_identifier: &str, now: i64) -> (r:
        CacheLookup)
        requires
            old(self).wf(),
        ensures
            final(self).wf(),
            match index_lookup(old(self)@, plugin_name@, version_identifier@) {
                None => r is Missing && final(self)@ == old(self)@,
                Some(f) => {
                    ||| r == CacheLookup::Fresh(f) && final(self)@ == old(self)@
                        && !f.certainly_expired(now as int)
                    ||| r == CacheLookup::Expired(f) && final(self)@ == index_remove(
                        old(self)@,
                        plugin_name@,
                        version_identifier@,
                    ) && !f.certainly_fresh(now as int)
                },
            },
    {
        match self.get_cached_plugin_metadata(plugin_name, version_identifier) {
            None => CacheLookup::Missing,
            Some(meta) => {
                if meta.is_outdated_at(now) {
                    let _ = self.delete_cached_file(plugin_name, version_identifier);
                    CacheLookup::Expired(meta)
                } else {
                    CacheLookup::Fresh(meta)
                }
            },
        }
    }

    /// Looks up `version` of `plugin` now, removing the record if it has expired.
    pub fn get_cached_file(&mut self, plugin_name: &str, version_identifier: &str) -> (r:
        CacheLookup)
        requires
            old(self).wf(),
        ensures
            final(self).wf(),
            match index_lookup(old(self)@, plugin_name@, version_identifier@) {
                None => r is Missing && final(self)@ == old(self)@,
                Some(f) => {
                    ||| r == CacheLookup::Fresh(f) && final(self)@ == old(self)@
                    ||| r == CacheLookup::Expired(f) && final(self)@ == index_remove(
                        old(self)@,
                        plugin_name@,
                        version_identifier@,
                    )
                },
            },
            index_lookup(old(self)@, plugin_name@, version_identifier@) is Some
                && index_lookup(old(self)@, plugin_name@, version_identifier@)->0.ttl is None
                ==> r == CacheLookup::Fresh(
                index_lookup(old(self)@, plugin_name@, version_identifier@)->0,
            ),
    {
        let now = now_timestamp();
        self.get_cached_file_at(plugin_name, version_identifier, now)
    }
}


/// A record with a TTL of zero is outdated at every instant from the one it was added;
/// a record without a TTL is never outdated.
pub proof fn lemma_staleness(f: CachedPluginVersionFile, now: int)
    ensures
        f.ttl == Some(0i64) && now >= f.added ==> f.certainly_expired(now),
        f.ttl is None ==> f.certainly_fresh(now) && !f.certainly_expired(now),
{
}

/// Caching a version and then looking it up at the same instant finds the new record,
/// with the given file name and the data file named after the plugin, version and API,
/// and the record is fresh unless its TTL is zero or negative or its expiry overflows.
pub proof fn lemma_round_trip(
    m: IndexView,
    plugin: Seq<char>,
    version: Seq<char>,
    file_name: Seq<char>,
    plugin_type: PluginApiType,
    ttl: Option<i64>,
    now: i64,
    f: CachedPluginVersionFile,
)
    requires
        new_record(plugin, version, file_name, plugin_type, ttl, now, f),
        ttl matches Some(t) ==> t > 0 && expiry_representable(now as int, t as int),
    ensures
        index_lookup(index_insert(m, plugin, version, plugin_type, f), plugin, version) == Some(f),
        f.file_name@ == file_name,
        f.cache_file_name@ == cache_file_name_of(plugin_type, plugin, version),
        f.certainly_fresh(now as int),
{
}

/// Looking up an expired version removes it: a second lookup finds no record of it.
pub proof fn lemma_expired_entry_evicted(
    m: IndexView,
    plugin: Seq<char>,
    version: Seq<char>,
    now: int,
)
    requires
        index_lookup(m, plugin, version) matches Some(f) && f.certainly_expired(now),
    ensures
        index_lookup(index_remove(m, plugin, version), plugin, version) is None,
{
}

/// Deleting the only cached version of a plugin removes the plugin's entry; deleting one
/// of several leaves the entry, with the other versions as they were.
pub proof fn lemma_delete_prunes(m: IndexView, plugin: Seq<char>, version: Seq<char>)
    requires
        index_lookup(m, plugin, version) is Some,
    ensures
        m[plugin].1.dom() == set![version] ==> !index_remove(m, plugin, version).contains_key(
            plugin,
        ),
        (exists|other: Seq<char>| other != version && #[trigger] m[plugin].1.contains_key(other))
            ==> index_remove(m, plugin, version).contains_key(plugin) && index_remove(
            m,
            plugin,
            version,
        )[plugin] == (m[plugin].0, m[plugin].1.remove(version)),
{
    let rest = m[plugin].1.remove(version);
    if m[plugin].1.dom() == set![version] {
        assert(rest =~= Map::<Seq<char>, CachedPluginVersionFile>::empty());
    }
    if exists|other: Seq<char>| other != version && #[trigger] m[plugin].1.contains_key(other) {
        let other = choose|other: Seq<char>| other != version && #[trigger] m[plugin].1.contains_key(other);
        assert(rest.contains_key(other));
        assert(rest != Map::<Seq<char>, CachedPluginVersionFile>::empty());
    }
}

/// Deleting a version keeps every plugin entry non-empty.
pub proof fn lemma_delete_keeps_entries_nonempty(m: IndexView, plugin: Seq<char>, version: Seq<char>)
    requires
        forall|p: Seq<char>| #[trigger] m.contains_key(p) ==> m[p].1 != Map::<Seq<char>, CachedPluginVersionFile>::empty(),
    ensures
        forall|p: Seq<char>| #[trigger] index_remove(m, plugin, version).contains_key(p)
            ==> index_remove(m, plugin, version)[p].1 != Map::<Seq<char>, CachedPluginVersionFile>::empty(),
{
}

/// Caching the same version twice leaves only the second record, whose data file has the
/// same name as the first: the second data replaces the first.
pub proof fn lemma_overwrite(
    m: IndexView,
    plugin: Seq<char>,
    version: Seq<char>,
    plugin_type: PluginApiType,
    first: CachedPluginVersionFile,
    second: CachedPluginVersionFile,
)
    requires
        first.cache_file_name@ == cache_file_name_of(plugin_type, plugin, version),
        second.cache_file_name@ == cache_file_name_of(plugin_type, plugin, version),
    ensures
        index_lookup(
            index_insert(index_insert(m, plugin, version, plugin_type, first), plugin, version, plugin_type, second),
            plugin,
            version,
        ) == Some(second),
        first.cache_file_name@ == second.cache_file_name@,
{
}

proof fn lemma_concat_middle(a: Seq<char>, x: Seq<char>, y: Seq<char>, b: Seq<char>)
    requires
        x != y,
    ensures
        a + x + b != a + y + b,
{
    if x.len() == y.len() {
        if forall|k: int| 0 <= k < x.len() ==> x[k] == y[k] {
            assert(x =~= y);
        }
        let k = choose|k: int| 0 <= k < x.len() && x[k] != y[k];
        assert((a + x + b)[a.len() + k] == x[k]);
        assert((a + y + b)[a.len() + k] == y[k]);
    } else {
        assert((a + x + b).len() != (a + y + b).len());
    }
}

/// Two different plugins with the same version, or two different versions of one plugin,
/// never share a data file name.
pub proof fn lemma_cache_file_names_distinct(
    plugin_type: PluginApiType,
    plugin_a: Seq<char>,
    version_a: Seq<char>,
    plugin_b: Seq<char>,
    version_b: Seq<char>,
)
    requires
        (plugin_a != plugin_b && version_a == version_b) || (plugin_a == plugin_b && version_a
            != version_b),
    ensures
        cache_file_name_of(plugin_type, plugin_a, version_a) != cache_file_name_of(
            plugin_type,
            plugin_b,
            version_b,
        ),
{
    let head = api_type_name(plugin_type) + seq!['-'];
    let suffix = seq!['.', 'C', 'A', 'C', 'H', 'E', 'D'];
    if plugin_a != plugin_b {
        let tail = seq!['-'] + version_a + suffix;
        lemma_concat_middle(head, plugin_a, plugin_b, tail);
        assert(cache_file_name_of(plugin_type, plugin_a, version_a) =~= head + plugin_a + tail);
        assert(cache_file_name_of(plugin_type, plugin_b, version_b) =~= head + plugin_b + tail);
    } else {
        let front = head + plugin_a + seq!['-'];
        lemma_concat_middle(front, version_a, version_b, suffix);
        assert(cache_file_name_of(plugin_type, plugin_a, version_a) =~= front + version_a + suffix);
        assert(cache_file_name_of(plugin_type, plugin_b, version_b) =~= front + version_b + suffix);
    }
}

} // verus!
