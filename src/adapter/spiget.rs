//! Plugins hosted on the Spiget API: identifiers, endpoint addresses, and the resolution
//! of a version specification against a resource's list of versions.

use vstd::prelude::*;

use indexmap::IndexMap;

use crate::adapter::VersionSpec;
use crate::error::{ApiError, NotFoundError};
use crate::text::{decimal, parse_u64, parse_u64_spec, u64_to_decimal};

verus! {

#[verifier::external_type_specification]
#[verifier::external_body]
#[verifier::reject_recursive_types(K)]
#[verifier::reject_recursive_types(V)]
#[verifier::reject_recursive_types(S)]
pub struct ExIndexMap<K, V, S>(IndexMap<K, V, S>);

/// The entries of a map from version IDs to positions, in the map's order.
pub uninterp spec fn slots_of(m: IndexMap<u64, usize>) -> Seq<(u64, usize)>;

/// No key occurs twice among the entries.
pub open spec fn slot_keys_distinct(s: Seq<(u64, usize)>) -> bool {
    forall|i: int, j: int| 0 <= i < j < s.len() ==> #[trigger] s[i].0 != #[trigger] s[j].0
}

/// Relies on `IndexMap::new`: a map without entries.
#[verifier::external_body]
fn slots_new() -> (r: IndexMap<u64, usize>)
    ensures
        slots_of(r) == Seq::<(u64, usize)>::empty(),
{
    IndexMap::new()
}

/// Relies on `IndexMap::insert`: a key already present keeps its place in the order and
/// takes the new value; a new key goes last.
#[verifier::external_body]
fn slots_insert(m: &mut IndexMap<u64, usize>, key: u64, value: usize)
    ensures
        forall|i: int|
            0 <= i < slots_of(*old(m)).len() && (#[trigger] slots_of(*old(m))[i]).0 == key
                ==> slots_of(*final(m)) == slots_of(*old(m)).update(i, (key, value)),
        (forall|i: int| 0 <= i < slots_of(*old(m)).len() ==> (#[trigger] slots_of(*old(m))[i]).0 != key)
            ==> slots_of(*final(m)) == slots_of(*old(m)).push((key, value)),
        slot_keys_distinct(slots_of(*old(m))) ==> slot_keys_distinct(slots_of(*final(m))),
{
    m.insert(key, value);
}

/// Relies on `IndexMap::get`: the value of `key`, if the map holds it.
#[verifier::external_body]
fn slots_get(m: &IndexMap<u64, usize>, key: u64) -> (r: Option<usize>)
    ensures
        forall|i: int|
            0 <= i < slots_of(*m).len() && (#[trigger] slots_of(*m)[i]).0 == key ==> r == Some(
                slots_of(*m)[i].1,
            ),
        (forall|i: int| 0 <= i < slots_of(*m).len() ==> (#[trigger] slots_of(*m)[i]).0 != key)
            ==> r is None,
{
    m.get(&key).copied()
}

/// Relies on `IndexMap::get_index`: the entry at position `index` in the map's order.
#[verifier::external_body]
fn slots_get_index(m: &IndexMap<u64, usize>, index: usize) -> (r: Option<(u64, usize)>)
    ensures
        index < slots_of(*m).len() ==> r == Some(slots_of(*m)[index as int]),
        index >= slots_of(*m).len() ==> r is None,
{
    m.get_index(index).map(|(k, v)| (*k, *v))
}

/// Relies on `IndexMap::first`: the first entry in the map's order.
#[verifier::external_body]
fn slots_first(m: &IndexMap<u64, usize>) -> (r: Option<(u64, usize)>)
    ensures
        slots_of(*m).len() > 0 ==> r == Some(slots_of(*m)[0]),
        slots_of(*m).len() == 0 ==> r is None,
{
    m.first().map(|(k, v)| (*k, *v))
}

/// Relies on `IndexMap::len`: the number of entries.
#[verifier::external_body]
fn slots_len(m: &IndexMap<u64, usize>) -> (r: usize)
    ensures
        r == slots_of(*m).len(),
{
    m.len()
}


/// What url's `Url::join` gives for `path` taken relative to `base`, as text.
pub uninterp spec fn url_join_of(base: Seq<char>, path: Seq<char>) -> Option<Seq<char>>;

/// Relies on url's `Url::join`: the address `path` taken relative to the address `base`,
/// written out as text; nothing when `base` does not parse or the join fails.
#[verifier::external_body]
fn url_join(base: &str, path: &str) -> (r: Option<String>)
    ensures
        match r {
            Some(s) => url_join_of(base@, path@) == Some(s@),
            None => url_join_of(base@, path@) is None,
        },
{
    let base = url::Url::parse(base).ok()?;
    let joined = base.join(path).ok()?;
    Some(joined.into())
}

/// The base address of the Spiget API.
pub const BASE_URL: &'static str = "https://api.spiget.org/v2/";

/// The address under which Spigot shows resources.
pub const PLUGIN_PAGE_BASE_URL: &'static str = "https://www.spigotmc.org/resources/";

/// A resource ID of a Spigot resource.
#[derive(Copy, Clone, Debug, PartialEq, Eq, Hash, Structural)]
pub struct ResourceId(pub u64);

/// A version ID of a Spigot resource. Version IDs are tied to the versions of one resource.
#[derive(Copy, Clone, Debug, PartialEq, Eq, Hash, Structural)]
pub struct VersionId(pub u64);

/// The error of reading a resource ID from text.
#[derive(Copy, Clone, Debug, PartialEq, Eq, Structural)]
pub struct ResourceIdParseError;

/// The error of reading a version ID from text.
#[derive(Copy, Clone, Debug, PartialEq, Eq, Structural)]
pub struct VersionIdParseError;

impl ResourceId {
    /// Reads a resource ID written in decimal.
    pub fn from_str(s: &str) -> (r: Result<ResourceId, ResourceIdParseError>)
        ensures
            match parse_u64_spec(s@) {
                Some(n) => r == Ok::<ResourceId, ResourceIdParseError>(ResourceId(n)),
                None => r is Err,
            },
    {
        match parse_u64(s) {
            Some(n) => Ok(ResourceId(n)),
            None => Err(ResourceIdParseError),
        }
    }

    /// The ID in decimal.
    pub fn to_string(&self) -> (r: String)
        ensures
            r@ == decimal(self.0 as nat),
    {
        u64_to_decimal(self.0)
    }

    /// The address of this resource's page on the Spigot website.
    pub fn plugin_page(&self) -> (r: Option<String>)
        ensures
            match r {
                Some(s) => url_join_of(PLUGIN_PAGE_BASE_URL@, decimal(self.0 as nat)) == Some(s@),
                None => url_join_of(PLUGIN_PAGE_BASE_URL@, decimal(self.0 as nat)) is None,
            },
    {
        let id = self.to_string();
        url_join(PLUGIN_PAGE_BASE_URL, id.as_str())
    }
}

impl VersionId {
    /// Reads a version ID written in decimal.
    pub fn from_str(s: &str) -> (r: Result<VersionId, VersionIdParseError>)
        ensures
            match parse_u64_spec(s@) {
                Some(n) => r == Ok::<VersionId, VersionIdParseError>(VersionId(n)),
                None => r is Err,
            },
    {
        match parse_u64(s) {
            Some(n) => Ok(VersionId(n)),
            None => Err(VersionIdParseError),
        }
    }

    /// The ID in decimal.
    pub fn to_string(&self) -> (r: String)
        ensures
            r@ == decimal(self.0 as nat),
    {
        u64_to_decimal(self.0)
    }
}

/// The endpoint path of a resource: `resources/{resource_id}`.
pub open spec fn resource_path(resource_id: ResourceId) -> Seq<char> {
    "resources/"@ + decimal(resource_id.0 as nat)
}

/// The endpoint path of a version: `resources/{resource_id}/versions/{version_id}`.
pub open spec fn version_path(resource_id: ResourceId, version_id: VersionId) -> Seq<char> {
    resource_path(resource_id) + "/versions/"@ + decimal(version_id.0 as nat)
}

/// The endpoint path of the latest version: `resources/{resource_id}/versions/latest`.
pub open spec fn latest_version_path(resource_id: ResourceId) -> Seq<char> {
    resource_path(resource_id) + "/versions/latest"@
}

/// The endpoint path of the version list, newest first, with at most `size` entries.
pub open spec fn version_list_path(resource_id: ResourceId, size: u64) -> Seq<char> {
    resource_path(resource_id) + "/versions?size="@ + decimal(size as nat)
        + "&sort=-releaseDate&fields=id,name,releaseDate"@
}

/// The endpoint path that downloads a version's file:
/// `resources/{resource_id}/versions/{version_id}/download/proxy`.
pub open spec fn download_path(resource_id: ResourceId, version_id: VersionId) -> Seq<char> {
    version_path(resource_id, version_id) + "/download/proxy"@
}

fn resource_path_text(resource_id: ResourceId) -> (r: String)
    ensures
        r@ == resource_path(resource_id),
{
    let mut s = String::from_str("resources/");
    let id = resource_id.to_string();
    s.append(id.as_str());
    s
}

fn version_path_text(resource_id: ResourceId, version_id: VersionId) -> (r: String)
    ensures
        r@ == version_path(resource_id, version_id),
{
    let mut s = resource_path_text(resource_id);
    s.append("/versions/");
    let id = version_id.to_string();
    s.append(id.as_str());
    s
}

/// A client of the Spiget API. Holds the base address that endpoint paths are joined to.
#[derive(Clone, Debug)]
pub struct SpigetApiClient {
    pub spiget_base_url: String,
}

/// Whether `client` joined to `path` gives an address, and `r` is that address.
pub open spec fn joined(base: Seq<char>, path: Seq<char>, r: Option<String>) -> bool {
    match r {
        Some(s) => url_join_of(base, path) == Some(s@),
        None => url_join_of(base, path) is None,
    }
}

impl SpigetApiClient {
    /// A client of the public Spiget API.
    pub fn new() -> (r: Self)
        ensures
            r.spiget_base_url@ == BASE_URL@,
    {
        SpigetApiClient { spiget_base_url: String::from_str(BASE_URL) }
    }

    /// A client of a Spiget API at another address.
    pub fn with_base_url(base_url: String) -> (r: Self)
        ensures
            r.spiget_base_url == base_url,
    {
        SpigetApiClient { spiget_base_url: base_url }
    }

    /// The address of an endpoint path.
    pub fn endpoint_url(&self, path: &str) -> (r: Option<String>)
        ensures
            joined(self.spiget_base_url@, path@, r),
    {
        url_join(self.spiget_base_url.as_str(), path)
    }

    /// The address that downloads the file of a version of a resource. It is computed, not
    /// checked: nothing says that the resource or the version exists.
    pub fn compute_download_url(&self, resource_id: ResourceId, version_id: VersionId) -> (r:
        Option<String>)
        ensures
            joined(self.spiget_base_url@, download_path(resource_id, version_id), r),
    {
        let mut path = version_path_text(resource_id, version_id);
        path.append("/download/proxy");
        self.endpoint_url(path.as_str())
    }

    /// The address of a resource's details.
    pub fn resource_details_url(&self, resource_id: ResourceId) -> (r: Option<String>)
        ensures
            joined(self.spiget_base_url@, resource_path(resource_id), r),
    {
        let path = resource_path_text(resource_id);
        self.endpoint_url(path.as_str())
    }

    /// The address of a resource's version list, newest first, with at most `size` entries.
    pub fn resource_versions_url(&self, resource_id: ResourceId, size: u64) -> (r: Option<String>)
        ensures
            joined(self.spiget_base_url@, version_list_path(resource_id, size), r),
    {
        let mut path = resource_path_text(resource_id);
        path.append("/versions?size=");
        let n = u64_to_decimal(size);
        path.append(n.as_str());
        path.append("&sort=-releaseDate&fields=id,name,releaseDate");
        self.endpoint_url(path.as_str())
    }

    /// The address of one version of a resource.
    pub fn resource_version_url(&self, resource_id: ResourceId, version_id: VersionId) -> (r:
        Option<String>)
        ensures
            joined(self.spiget_base_url@, version_path(resource_id, version_id), r),
    {
        let path = version_path_text(resource_id, version_id);
        self.endpoint_url(path.as_str())
    }

    /// The address of the latest version of a resource.
    pub fn resource_version_latest_url(&self, resource_id: ResourceId) -> (r: Option<String>)
        ensures
            joined(self.spiget_base_url@, latest_version_path(resource_id), r),
    {
        let mut path = resource_path_text(resource_id);
        path.append("/versions/latest");
        self.endpoint_url(path.as_str())
    }

    /// The download address of a version, once the API has answered a request for that
    /// version with a record whose ID is `response_version_id`. A record of another version
    /// means that the version was not found.
    pub fn resource_version_download_url(
        &self,
        resource_id: ResourceId,
        version_id: VersionId,
        response_version_id: VersionId,
    ) -> (r: Result<String, ApiError>)
        ensures
            response_version_id != version_id ==> r == Err::<String, ApiError>(
                ApiError::NotFound(NotFoundError::Version),
            ),
            response_version_id == version_id ==> match r {
                Ok(s) => url_join_of(self.spiget_base_url@, download_path(resource_id, version_id))
                    == Some(s@),
                Err(e) => e == ApiError::InvalidUrl && url_join_of(
                    self.spiget_base_url@,
                    download_path(resource_id, version_id),
                ) is None,
            },
    {
        if response_version_id.0 != version_id.0 {
            return Err(ApiError::NotFound(NotFoundError::Version));
        }
        match self.compute_download_url(resource_id, version_id) {
            Some(url) => Ok(url),
            None => Err(ApiError::InvalidUrl),
        }
    }
}


/// A version of a Spigot resource as the API lists it.
#[derive(Clone, Debug)]
pub struct SpigetVersion {
    pub id: VersionId,
    /// The display name; several versions may share one.
    pub name: String,
    /// When the version was released, in seconds since the Unix epoch.
    pub release_date: i64,
}

impl SpigetVersion {
    /// A copy of this record.
    pub fn copied(&self) -> (r: Self)
        ensures
            r == *self,
    {
        SpigetVersion { id: self.id, name: self.name.clone(), release_date: self.release_date }
    }
}

/// A version of a resource together with the address that downloads its file.
#[derive(Clone, Debug)]
pub struct SpigetResourceVersion {
    pub resource_id: ResourceId,
    pub version: SpigetVersion,
    pub download_url: String,
}

impl SpigetResourceVersion {
    /// The identifier of the version: its ID in decimal.
    pub fn version_identifier(&self) -> (r: String)
        ensures
            r@ == decimal(self.version.id.0 as nat),
    {
        self.version.id.to_string()
    }

    /// The display name of the version.
    pub fn version_name(&self) -> (r: String)
        ensures
            r@ == self.version.name@,
    {
        self.version.name.clone()
    }

    /// The address that downloads the version's file.
    pub fn download_url(&self) -> (r: &String)
        ensures
            r == self.download_url,
    {
        &self.download_url
    }

    /// When the version was published, in seconds since the Unix epoch.
    pub fn publish_date(&self) -> (r: Option<i64>)
        ensures
            r == Some(self.version.release_date),
    {
        Some(self.version.release_date)
    }
}

/// The entries of an ordered map after inserting `key` with `value`: a key already present
/// keeps its place and takes the new value; a new key goes last.
pub open spec fn table_insert(t: Seq<(u64, usize)>, key: u64, value: usize) -> Seq<(u64, usize)> {
    if exists|i: int| 0 <= i < t.len() && (#[trigger] t[i]).0 == key {
        let i = choose|i: int| 0 <= i < t.len() && (#[trigger] t[i]).0 == key;
        t.update(i, (key, value))
    } else {
        t.push((key, value))
    }
}

/// The ordered map from version ID to position in `s` that inserting the versions of `s`
/// one after another gives.
pub open spec fn version_table(s: Seq<SpigetVersion>) -> Seq<(u64, usize)>
    decreases s.len(),
{
    if s.len() == 0 {
        Seq::empty()
    } else {
        table_insert(version_table(s.drop_last()), s.last().id.0, (s.len() - 1) as usize)
    }
}

/// The versions that a plugin lists, given the API's list `s`: one per ID, in the order in
/// which the IDs first occur, each the last record of its ID.
pub open spec fn listed_versions(s: Seq<SpigetVersion>) -> Seq<SpigetVersion> {
    version_table(s).map_values(|e: (u64, usize)| s[e.1 as int])
}

/// Whether versions are ordered by release date, newest first.
pub open spec fn newest_first(s: Seq<SpigetVersion>) -> bool {
    forall|a: int, b: int| 0 <= a < b < s.len() ==> #[trigger] s[a].release_date >= #[trigger] s[b].release_date
}

/// No version ID occurs twice.
pub open spec fn ids_distinct(s: Seq<SpigetVersion>) -> bool {
    forall|a: int, b: int| 0 <= a < b < s.len() ==> #[trigger] s[a].id != #[trigger] s[b].id
}

/// When the API lists every version ID once, a plugin lists the versions exactly as the
/// API did.
pub proof fn lemma_listed_distinct(s: Seq<SpigetVersion>)
    requires
        ids_distinct(s),
        s.len() <= usize::MAX,
    ensures
        version_table(s) == Seq::new(s.len(), |j: int| (s[j].id.0, j as usize)),
        listed_versions(s) == s,
    decreases s.len(),
{
    if s.len() > 0 {
        let t = s.drop_last();
        assert(ids_distinct(t)) by {
            assert forall|a: int, b: int| 0 <= a < b < t.len() implies #[trigger] t[a].id != #[trigger] t[b].id by {
                assert(t[a] == s[a] && t[b] == s[b]);
            }
        }
        lemma_listed_distinct(t);
        let tt = version_table(t);
        let key = s.last().id.0;
        assert forall|i: int| 0 <= i < tt.len() implies (#[trigger] tt[i]).0 != key by {
            assert(tt[i].0 == s[i].id.0);
            assert(s[i].id != s[s.len() - 1].id);
        }
        assert(version_table(s) == tt.push((key, (s.len() - 1) as usize)));
        assert(version_table(s) =~= Seq::new(s.len(), |j: int| (s[j].id.0, j as usize)));
    }
    assert forall|j: int| 0 <= j < s.len() implies #[trigger] listed_versions(s)[j] == s[j] by {
        assert(version_table(s)[j].1 as int == j);
    }
    assert(listed_versions(s) =~= s);
}

/// A plugin on the Spiget API, with the versions that the API listed for it.
pub struct SpigetPlugin {
    pub api: SpigetApiClient,
    pub resource_id: ResourceId,
    /// The API's version list, newest first.
    pub versions: Vec<SpigetVersion>,
    /// The download address of each version of `versions`, at the same position.
    pub download_urls: Vec<String>,
    /// Maps each version ID to the position of its record in `versions`.
    pub cached_versions: IndexMap<u64, usize>,
}

impl SpigetPlugin {
    pub open spec fn wf(&self) -> bool {
        &&& self.versions@.len() == self.download_urls@.len()
        &&& slots_of(self.cached_versions) == version_table(self.versions@)
        &&& slot_keys_distinct(slots_of(self.cached_versions))
        &&& forall|j: int|
            0 <= j < self.versions@.len() ==> url_join_of(
                self.api.spiget_base_url@,
                download_path(self.resource_id, (#[trigger] self.versions@[j]).id),
            ) == Some(self.download_urls@[j]@)
        &&& forall|i: int|
            0 <= i < slots_of(self.cached_versions).len() ==> (#[trigger] slots_of(
                self.cached_versions,
            )[i]).1 < self.versions@.len() && slots_of(self.cached_versions)[i].0
                == self.versions@[slots_of(self.cached_versions)[i].1 as int].id.0
    }

    /// The versions of this plugin, one per ID, in the API's order.
    pub open spec fn listed(&self) -> Seq<SpigetVersion> {
        listed_versions(self.versions@)
    }

    /// `r` is version `v` of this plugin, with its download address.
    pub open spec fn resolves(&self, r: SpigetResourceVersion, v: SpigetVersion) -> bool {
        &&& r.resource_id == self.resource_id
        &&& r.version == v
        &&& url_join_of(self.api.spiget_base_url@, download_path(self.resource_id, v.id)) == Some(
            r.download_url@,
        )
    }

    /// A plugin with the versions that the API listed for it, newest first. Fails when the
    /// download address of a version cannot be formed.
    pub fn new(api: SpigetApiClient, resource_id: ResourceId, versions: Vec<SpigetVersion>) -> (r:
        Result<SpigetPlugin, ApiError>)
        ensures
            match r {
                Ok(p) => p.wf() && p.api == api && p.resource_id == resource_id && p.versions@
                    == versions@,
                Err(e) => e == ApiError::InvalidUrl && exists|j: int|
                    0 <= j < versions@.len() && url_join_of(
                        api.spiget_base_url@,
                        download_path(resource_id, (#[trigger] versions@[j]).id),
                    ) is None,
            },
    {
        let mut urls: Vec<String> = Vec::new();
        let mut map = slots_new();
        let mut j: usize = 0;
        while j < versions.len()
            invariant
                j <= versions@.len(),
                urls@.len() == j,
                slots_of(map) == version_table(versions@.take(j as int)),
                slot_keys_distinct(slots_of(map)),
                forall|k: int|
                    0 <= k < j ==> url_join_of(
                        api.spiget_base_url@,
                        download_path(resource_id, (#[trigger] versions@[k]).id),
                    ) == Some(urls@[k]@),
                forall|i: int|
                    0 <= i < slots_of(map).len() ==> (#[trigger] slots_of(map)[i]).1 < j
                        && slots_of(map)[i].0 == versions@[slots_of(map)[i].1 as int].id.0,
            decreases versions@.len() - j,
        {
            let url = match api.compute_download_url(resource_id, versions[j].id) {
                Some(url) => url,
                None => {
                    return Err(ApiError::InvalidUrl);
                },
            };
            urls.push(url);
            let ghost old_slots = slots_of(map);
            let key = versions[j].id.0;
            slots_insert(&mut map, key, j);
            proof {
                assert(versions@.take(j as int + 1).drop_last() =~= versions@.take(j as int));
                assert(version_table(versions@.take(j as int + 1)) == table_insert(
                    old_slots,
                    key,
                    j,
                ));
                if exists|i: int| 0 <= i < old_slots.len() && (#[trigger] old_slots[i]).0 == key {
                    let i = choose|i: int| 0 <= i < old_slots.len() && (#[trigger] old_slots[i]).0 == key;
                    assert(slots_of(map) == old_slots.update(i, (key, j)));
                } else {
                    assert(slots_of(map) == old_slots.push((key, j)));
                }
                assert forall|i: int| 0 <= i < slots_of(map).len() implies (#[trigger] slots_of(map)[i]).1 < j + 1
                    && slots_of(map)[i].0 == versions@[slots_of(map)[i].1 as int].id.0 by {
                    if i < old_slots.len() && slots_of(map)[i] == old_slots[i] {
                    }
                }
            }
            j = j + 1;
        }
        assert(versions@.take(j as int) =~= versions@);
        Ok(SpigetPlugin { api, resource_id, versions, download_urls: urls, cached_versions: map })
    }

    fn resolved_at(&self, j: usize) -> (r: SpigetResourceVersion)
        requires
            self.wf(),
            j < self.versions@.len(),
        ensures
            self.resolves(r, self.versions@[j as int]),
    {
        SpigetResourceVersion {
            resource_id: self.resource_id,
            version: self.versions[j].copied(),
            download_url: self.download_urls[j].clone(),
        }
    }

    proof fn lemma_listed(&self, i: int)
        requires
            self.wf(),
            0 <= i < slots_of(self.cached_versions).len(),
        ensures
            self.listed().len() == slots_of(self.cached_versions).len(),
            self.listed()[i] == self.versions@[slots_of(self.cached_versions)[i].1 as int],
            self.listed()[i].id.0 == slots_of(self.cached_versions)[i].0,
    {
    }

    /// The resource ID of this plugin.
    pub fn resource_id(&self) -> (r: ResourceId)
        ensures
            r == self.resource_id,
    {
        self.resource_id
    }

    /// The latest version: the first that the API listed. Nothing when no version has been
    /// published.
    pub fn latest_version(&self) -> (r: Option<SpigetResourceVersion>)
        requires
            self.wf(),
        ensures
            self.listed().len() == 0 ==> r is None,
            self.listed().len() > 0 ==> r is Some && self.resolves(r->0, self.listed()[0]),
    {
        match slots_first(&self.cached_versions) {
            Some((_, j)) => {
                proof {
                    self.lemma_listed(0);
                }
                Some(self.resolved_at(j))
            },
            None => None,
        }
    }

    /// The version with ID `version_id`, if the plugin has it.
    pub fn version(&self, version_id: VersionId) -> (r: Option<SpigetResourceVersion>)
        requires
            self.wf(),
        ensures
            forall|i: int|
                0 <= i < self.listed().len() && (#[trigger] self.listed()[i]).id == version_id
                    ==> r is Some && self.resolves(r->0, self.listed()[i]),
            (forall|i: int| 0 <= i < self.listed().len() ==> (#[trigger] self.listed()[i]).id != version_id)
                ==> r is None,
    {
        let r = match slots_get(&self.cached_versions, version_id.0) {
            Some(j) => Some(self.resolved_at(j)),
            None => None,
        };
        proof {
            let s = slots_of(self.cached_versions);
            assert forall|i: int|
                0 <= i < self.listed().len() && (#[trigger] self.listed()[i]).id == version_id implies r is Some
                && self.resolves(r->0, self.listed()[i]) by {
                self.lemma_listed(i);
                assert(s[i].0 == version_id.0);
            }
            if forall|i: int| 0 <= i < self.listed().len() ==> (#[trigger] self.listed()[i]).id != version_id {
                assert forall|i: int| 0 <= i < s.len() implies (#[trigger] s[i]).0 != version_id.0 by {
                    self.lemma_listed(i);
                    assert(self.listed()[i].id != version_id);
                }
            }
        }
        r
    }

    /// The most recent version whose display name is `version_name`: the first such that the
    /// API listed. Nothing when no version has that name.
    pub fn search_version(&self, version_name: &str) -> (r: Option<SpigetResourceVersion>)
        requires
            self.wf(),
        ensures
            match r {
                Some(v) => exists|i: int|
                    0 <= i < self.listed().len() && (#[trigger] self.listed()[i]).name@
                        == version_name@ && (forall|j: int|
                        0 <= j < i ==> (#[trigger] self.listed()[j]).name@ != version_name@)
                        && self.resolves(v, self.listed()[i]),
                None => forall|i: int|
                    0 <= i < self.listed().len() ==> (#[trigger] self.listed()[i]).name@
                        != version_name@,
            },
            newest_first(self.listed()) && r is Some ==> forall|j: int|
                0 <= j < self.listed().len() && (#[trigger] self.listed()[j]).name@
                    == version_name@ ==> r->0.version.release_date >= self.listed()[j].release_date,
    {
        let name = String::from_str(version_name);
        let n = slots_len(&self.cached_versions);
        let mut i: usize = 0;
        while i < n
            invariant
                self.wf(),
                n == self.listed().len(),
                name@ == version_name@,
                i <= n,
                forall|j: int| 0 <= j < i ==> (#[trigger] self.listed()[j]).name@ != version_name@,
            decreases n - i,
        {
            match slots_get_index(&self.cached_versions, i) {
                Some((_, j)) => {
                    proof {
                        self.lemma_listed(i as int);
                    }
                    if self.versions[j].name == name {
                        let r = self.resolved_at(j);
                        proof {
                            assert(self.listed()[i as int].name@ == version_name@);
                            if newest_first(self.listed()) {
                                assert forall|k: int|
                                    0 <= k < self.listed().len() && (#[trigger] self.listed()[k]).name@
                                        == version_name@ implies r.version.release_date
                                    >= self.listed()[k].release_date by {
                                    if k > i {
                                        assert(self.listed()[i as int].release_date >= self.listed()[k].release_date);
                                    }
                                }
                            }
                        }
                        return Some(r);
                    }
                },
                None => {},
            }
            i = i + 1;
        }
        None
    }

    /// The first `limit` versions that the API listed, newest first.
    pub fn versions_up_to(&self, limit: u64) -> (r: Vec<SpigetResourceVersion>)
        requires
            self.wf(),
        ensures
            r@.len() == if limit < self.listed().len() { limit as int } else { self.listed().len() as int },
            forall|i: int| 0 <= i < r@.len() ==> self.resolves(#[trigger] r@[i], self.listed()[i]),
    {
        let n = slots_len(&self.cached_versions);
        let mut out: Vec<SpigetResourceVersion> = Vec::new();
        let mut i: usize = 0;
        while i < n && (i as u64) < limit
            invariant
                self.wf(),
                n == self.listed().len(),
                i <= n,
                i <= limit,
                out@.len() == i,
                forall|k: int| 0 <= k < i ==> self.resolves(#[trigger] out@[k], self.listed()[k]),
            decreases n - i,
        {
            match slots_get_index(&self.cached_versions, i) {
                Some((_, j)) => {
                    proof {
                        self.lemma_listed(i as int);
                    }
                    out.push(self.resolved_at(j));
                },
                None => {},
            }
            i = i + 1;
        }
        out
    }

    /// The version that `version_spec` names: by ID, by display name (the most recent of
    /// that name), or the latest. Fails when an identifier is not a decimal number.
    pub fn version_from_spec(&self, version_spec: &VersionSpec) -> (r: Result<
        Option<SpigetResourceVersion>,
        VersionIdParseError,
    >)
        requires
            self.wf(),
        ensures
            match version_spec {
                VersionSpec::Identifier(ident) => match parse_u64_spec(ident@) {
                    None => r is Err,
                    Some(n) => r is Ok && (forall|i: int|
                        0 <= i < self.listed().len() && (#[trigger] self.listed()[i]).id
                            == VersionId(n) ==> r->Ok_0 is Some && self.resolves(
                            r->Ok_0->0,
                            self.listed()[i],
                        )) && ((forall|i: int|
                        0 <= i < self.listed().len() ==> (#[trigger] self.listed()[i]).id
                            != VersionId(n)) ==> r->Ok_0 is None),
                },
                VersionSpec::Name(name) => r is Ok && match r->Ok_0 {
                    Some(v) => exists|i: int|
                        0 <= i < self.listed().len() && (#[trigger] self.listed()[i]).name@
                            == name@ && (forall|j: int|
                            0 <= j < i ==> (#[trigger] self.listed()[j]).name@ != name@)
                            && self.resolves(v, self.listed()[i]),
                    None => forall|i: int|
                        0 <= i < self.listed().len() ==> (#[trigger] self.listed()[i]).name@
                            != name@,
                },
                VersionSpec::Latest => r is Ok && (self.listed().len() == 0 ==> r->Ok_0 is None) && (
                self.listed().len() > 0 ==> r->Ok_0 is Some && self.resolves(
                    r->Ok_0->0,
                    self.listed()[0],
                )),
            },
    {
        match version_spec {
            VersionSpec::Identifier(ident) => {
                let id = VersionId::from_str(ident.as_str())?;
                Ok(self.version(id))
            },
            VersionSpec::Name(name) => Ok(self.search_version(name.as_str())),
            VersionSpec::Latest => Ok(self.latest_version()),
        }
    }
}

} // verus!
