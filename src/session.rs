//! The decisions of a download: reading a response's headers, and the order in which a
//! download checks the directory, consults the cache, fetches, and writes through.
//!
//! The caller performs each action that [`DownloadSpec::step`] returns (a directory check,
//! a cache lookup, a copy, an HTTP request, a write) and hands back what happened as the
//! next event.

use vstd::prelude::*;

use crate::adapter::spiget::SpigetResourceVersion;
use crate::adapter::PluginApiType;
use crate::caching::{CacheLookup, CachedPluginVersionFile};
use crate::text::decimal;
use crate::util::{valid_file_name, validate_file_name};

verus! {

/// The parameters of a content-disposition header, in order: the bytes of each file-name
/// parameter, and nothing for each other parameter. Nothing at all when the header does
/// not parse.
pub uninterp spec fn disposition_params_of(raw: Seq<u8>) -> Option<Seq<Option<Seq<u8>>>>;

/// The views of converted disposition parameters.
pub open spec fn param_views(v: Seq<Option<Vec<u8>>>) -> Seq<Option<Seq<u8>>> {
    v.map_values(
        |p: Option<Vec<u8>>|
            match p {
                Some(b) => Some(b@),
                None => None,
            },
    )
}

/// Relies on hyperx's `ContentDisposition::parse_header`: the header's parameters in
/// order, each file-name parameter given by the bytes of its file name.
#[verifier::external_body]
fn parse_content_disposition(raw: &[u8]) -> (r: Option<Vec<Option<Vec<u8>>>>)
    ensures
        match r {
            Some(v) => disposition_params_of(raw@) == Some(param_views(v@)),
            None => disposition_params_of(raw@) is None,
        },
{
    let raw = hyperx::header::Raw::from(raw);
    let parsed = <hyperx::header::ContentDisposition as hyperx::header::Header>::parse_header(&raw).ok()?;
    let mut params = Vec::new();
    for param in parsed.parameters {
        params.push(match param {
            hyperx::header::DispositionParam::Filename(_, _, bytes) => Some(bytes),
            hyperx::header::DispositionParam::Ext(_, _) => None,
        });
    }
    Some(params)
}

/// What `String::from_utf8_lossy` makes of some bytes.
pub uninterp spec fn utf8_lossy_of(b: Seq<u8>) -> Seq<char>;

/// Relies on `String::from_utf8_lossy`: the bytes read as UTF-8, with each invalid sequence
/// replaced by U+FFFD.
#[verifier::external_body]
fn utf8_lossy(b: &[u8]) -> (r: String)
    ensures
        r@ == utf8_lossy_of(b@),
{
    String::from_utf8_lossy(b).into_owned()
}

/// The bytes of the first file-name parameter.
pub open spec fn first_file_name(ps: Seq<Option<Seq<u8>>>) -> Option<Seq<u8>>
    decreases ps.len(),
{
    if ps.len() == 0 {
        None
    } else if ps[0] is Some {
        ps[0]
    } else {
        first_file_name(ps.drop_first())
    }
}

/// The file name that a content-disposition header gives, before validation: nothing when
/// the header is missing, does not parse, or names no file.
pub open spec fn header_file_name(header: Option<Seq<u8>>) -> Option<Seq<char>> {
    match header {
        None => None,
        Some(h) => match disposition_params_of(h) {
            None => None,
            Some(ps) => match first_file_name(ps) {
                None => None,
                Some(b) => Some(utf8_lossy_of(b)),
            },
        },
    }
}

/// The view of an optional header value.
pub open spec fn header_view(header: Option<&[u8]>) -> Option<Seq<u8>> {
    match header {
        Some(h) => Some(h@),
        None => None,
    }
}

/// Extracts the file name of the first file-name parameter of a parsed content-disposition
/// header. Nothing when it has none. The name is not validated.
pub fn content_disposition_file_name(params: &Vec<Option<Vec<u8>>>) -> (r: Option<String>)
    ensures
        match first_file_name(param_views(params@)) {
            None => r is None,
            Some(b) => r is Some && r->0@ == utf8_lossy_of(b),
        },
{
    let ghost ps = param_views(params@);
    assert(ps.subrange(0, ps.len() as int) =~= ps);
    let mut i: usize = 0;
    while i < params.len()
        invariant
            i <= params@.len(),
            ps == param_views(params@),
            first_file_name(ps) == first_file_name(ps.subrange(i as int, ps.len() as int)),
        decreases params@.len() - i,
    {
        let ghost rest = ps.subrange(i as int, ps.len() as int);
        match &params[i] {
            Some(bytes) => {
                assert(rest[0] == Some(bytes@));
                return Some(utf8_lossy(bytes.as_slice()));
            },
            None => {
                assert(rest.drop_first() =~= ps.subrange(i as int + 1, ps.len() as int));
            },
        }
        i = i + 1;
    }
    assert(ps.subrange(i as int, ps.len() as int) =~= Seq::<Option<Seq<u8>>>::empty());
    None
}

/// Why no file name could be taken from a response's content-disposition header.
#[derive(Clone, Debug, PartialEq, Eq)]
pub enum ContentDispositionFilenameError {
    /// The response has no content-disposition header.
    Missing,
    /// The header does not parse, or names no file.
    Parse,
    /// The file name is not safe to write into a directory.
    InvalidFilename(String),
}

/// Takes the file name of a download from its response's content-disposition header, and
/// rejects a name that could reach outside the download directory.
pub fn response_content_disposition_file_name(header: Option<&[u8]>) -> (r: Result<
    String,
    ContentDispositionFilenameError,
>)
    ensures
        header is None ==> r == Err::<String, ContentDispositionFilenameError>(
            ContentDispositionFilenameError::Missing,
        ),
        header is Some && header_file_name(header_view(header)) is None ==> r == Err::<
            String,
            ContentDispositionFilenameError,
        >(ContentDispositionFilenameError::Parse),
        header_file_name(header_view(header)) matches Some(name) ==> (if valid_file_name(name) {
            r is Ok && r->Ok_0@ == name
        } else {
            r is Err && r->Err_0 is InvalidFilename && r->Err_0->InvalidFilename_0@ == name
        }),
{
    let raw = match header {
        None => {
            return Err(ContentDispositionFilenameError::Missing);
        },
        Some(raw) => raw,
    };
    let params = match parse_content_disposition(raw) {
        None => {
            return Err(ContentDispositionFilenameError::Parse);
        },
        Some(params) => params,
    };
    let file_name = match content_disposition_file_name(&params) {
        None => {
            return Err(ContentDispositionFilenameError::Parse);
        },
        Some(name) => name,
    };
    if !validate_file_name(file_name.as_str()) {
        return Err(ContentDispositionFilenameError::InvalidFilename(file_name));
    }
    Ok(file_name)
}

/// A directive of a cache-control header, as far as the cache reads it.
#[derive(Clone, Copy, Debug, PartialEq, Eq, Structural)]
pub enum CacheDirective {
    /// `no-cache`
    NoCache,
    /// `no-store`
    NoStore,
    /// `max-age=seconds`
    MaxAge(u32),
    /// Any other directive.
    Other,
}

/// The directives of a cache-control header, in order; nothing when it does not parse.
pub uninterp spec fn cache_directives_of(raw: Seq<u8>) -> Option<Seq<CacheDirective>>;

/// Relies on hyperx's `CacheControl::parse_header`: the header's directives in order; the
/// parse fails when the header holds no directive.
#[verifier::external_body]
fn parse_cache_control(raw: &[u8]) -> (r: Option<Vec<CacheDirective>>)
    ensures
        match r {
            Some(d) => cache_directives_of(raw@) == Some(d@) && d@.len() > 0,
            None => cache_directives_of(raw@) is None,
        },
{
    let raw = hyperx::header::Raw::from(raw);
    let parsed = <hyperx::header::CacheControl as hyperx::header::Header>::parse_header(&raw).ok()?;
    let mut directives = Vec::new();
    for directive in parsed.0 {
        directives.push(match directive {
            hyperx::header::CacheDirective::NoCache => CacheDirective::NoCache,
            hyperx::header::CacheDirective::NoStore => CacheDirective::NoStore,
            hyperx::header::CacheDirective::MaxAge(age) => CacheDirective::MaxAge(age),
            _ => CacheDirective::Other,
        });
    }
    Some(directives)
}

/// The first positive `max-age` among directives, in seconds.
pub open spec fn first_max_age(d: Seq<CacheDirective>) -> Option<i64>
    decreases d.len(),
{
    if d.len() == 0 {
        None
    } else {
        match d[0] {
            CacheDirective::MaxAge(a) => if a > 0 {
                Some(a as i64)
            } else {
                first_max_age(d.drop_first())
            },
            _ => first_max_age(d.drop_first()),
        }
    }
}

/// How long a response with these directives may be cached: not at all under `no-store`
/// or `no-cache`, else for its first positive `max-age`, else without a limit of its own
/// (which the cache treats as no TTL).
pub open spec fn directive_ttl(d: Seq<CacheDirective>) -> Option<i64> {
    if d.contains(CacheDirective::NoStore) || d.contains(CacheDirective::NoCache) {
        None
    } else {
        first_max_age(d)
    }
}

/// The TTL that a cache-control header gives: nothing inside when there is no header, no
/// TTL when it has none, and no answer at all when the header does not parse.
pub open spec fn header_ttl(header: Option<Seq<u8>>) -> Option<Option<i64>> {
    match header {
        None => Some(None),
        Some(h) => match cache_directives_of(h) {
            None => None,
            Some(d) => Some(directive_ttl(d)),
        },
    }
}

/// The TTL of a download given the directives of its cache-control header.
pub fn ttl_from_directives(directives: &Vec<CacheDirective>) -> (r: Option<i64>)
    ensures
        r == directive_ttl(directives@),
{
    let mut i: usize = 0;
    while i < directives.len()
        invariant
            i <= directives@.len(),
            forall|j: int| 0 <= j < i ==> directives@[j] != CacheDirective::NoStore && directives@[j]
                != CacheDirective::NoCache,
        decreases directives@.len() - i,
    {
        match directives[i] {
            CacheDirective::NoStore => {
                assert(directives@.contains(CacheDirective::NoStore)) by {
                    assert(directives@[i as int] == CacheDirective::NoStore);
                }
                return None;
            },
            CacheDirective::NoCache => {
                assert(directives@.contains(CacheDirective::NoCache)) by {
                    assert(directives@[i as int] == CacheDirective::NoCache);
                }
                return None;
            },
            _ => {},
        }
        i = i + 1;
    }
    let ghost d = directives@;
    assert(!d.contains(CacheDirective::NoStore) && !d.contains(CacheDirective::NoCache));
    assert(d.subrange(0, d.len() as int) =~= d);
    let mut k: usize = 0;
    while k < directives.len()
        invariant
            k <= d.len(),
            d == directives@,
            directive_ttl(d) == first_max_age(d),
            first_max_age(d) == first_max_age(d.subrange(k as int, d.len() as int)),
        decreases d.len() - k,
    {
        let ghost rest = d.subrange(k as int, d.len() as int);
        match directives[k] {
            CacheDirective::MaxAge(age) => {
                if age > 0 {
                    assert(rest[0] == CacheDirective::MaxAge(age));
                    return Some(age as i64);
                }
            },
            _ => {},
        }
        assert(rest.drop_first() =~= d.subrange(k as int + 1, d.len() as int));
        k = k + 1;
    }
    assert(d.subrange(k as int, d.len() as int) =~= Seq::<CacheDirective>::empty());
    None
}

/// The cache-control header of a response does not parse.
#[derive(Clone, Copy, Debug, PartialEq, Eq, Structural)]
pub struct CacheControlParseError;

/// The TTL of a downloaded file, from its response's cache-control header: no TTL when
/// there is no header, or when it forbids storing, or gives no positive `max-age`.
pub fn response_downloaded_file_ttl(header: Option<&[u8]>) -> (r: Result<
    Option<i64>,
    CacheControlParseError,
>)
    ensures
        match header_ttl(header_view(header)) {
            None => r is Err,
            Some(t) => r == Ok::<Option<i64>, CacheControlParseError>(t),
        },
{
    let raw = match header {
        None => {
            return Ok(None);
        },
        Some(raw) => raw,
    };
    match parse_cache_control(raw) {
        None => Err(CacheControlParseError),
        Some(directives) => Ok(ttl_from_directives(&directives)),
    }
}


/// Details of a finished download.
#[derive(Clone, Copy, Debug, PartialEq, Eq, Structural)]
pub struct DownloadReport {
    /// The size of the downloaded file in bytes.
    pub download_size: u64,
    /// Whether the file came from the cache instead of the API.
    pub cached: bool,
}

/// Why a download failed.
#[derive(Clone, Debug, PartialEq, Eq)]
pub enum DownloadError {
    /// The download directory does not exist or is not a directory.
    InvalidDirectoryPath,
    /// Reading or writing a file failed.
    Io(String),
    /// An operation of the download cache failed.
    Cache(String),
    /// The HTTP request failed.
    Http(String),
    /// The response's cache-control header does not parse.
    CacheControl(CacheControlParseError),
    /// No safe file name could be taken from the response.
    ResponseFilename(ContentDispositionFilenameError),
}

/// Which version of which plugin to download, and from where.
#[derive(Clone, Debug)]
pub struct DownloadSpec {
    /// The plugin's name in the manifest; the cache is keyed by it.
    pub plugin_name: String,
    /// The identifier of the version; the cache is keyed by it too.
    pub version_identifier: String,
    /// The address that downloads the version's file.
    pub download_url: String,
    /// The API the plugin comes from.
    pub api_type: PluginApiType,
}

/// Where a download stands.
#[derive(Clone, Debug)]
pub enum DownloadState {
    /// Waiting to learn whether the download directory is a directory.
    CheckDirectory,
    /// Waiting for the cache lookup of the version.
    CheckCache,
    /// Waiting for the cached file to be copied to the directory.
    ServeFromCache,
    /// Waiting for the response of the download request.
    FetchRemote,
    /// Waiting for the downloaded bytes to be cached and written to the directory.
    WriteThrough { file_name: String, ttl: Option<i64>, size: u64 },
    /// The download has succeeded or failed.
    Finished,
}

/// What happened after the caller performed an action.
#[derive(Clone, Debug)]
pub enum DownloadEvent {
    /// Whether the download directory exists and is a directory.
    DirectoryChecked(bool),
    /// What the cache holds for the version. An expired record has been removed.
    CacheLooked(CacheLookup),
    /// The cached file was copied to the directory; this many bytes.
    CacheCopied(u64),
    /// The download request was answered with these headers and a body of `size` bytes.
    ResponseReceived {
        content_disposition: Option<Vec<u8>>,
        cache_control: Option<Vec<u8>>,
        size: u64,
    },
    /// The downloaded bytes were cached and written to the directory.
    Written,
}

/// What the caller is to do next.
#[derive(Clone, Debug)]
pub enum DownloadAction {
    /// Check that the download directory exists and is a directory.
    CheckDirectory,
    /// Look the version up in the cache.
    LookupCache { plugin_name: String, version_identifier: String },
    /// Copy the cached file to the directory under its original file name.
    CopyFromCache(CachedPluginVersionFile),
    /// Request the file at this address, without the HTTP cache.
    Fetch(String),
    /// Write the response's bytes to the cache under the version, then to the directory
    /// under `file_name`.
    StoreAndWrite {
        plugin_name: String,
        version_identifier: String,
        file_name: String,
        api_type: PluginApiType,
        ttl: Option<i64>,
    },
    /// The download succeeded.
    Report(DownloadReport),
    /// The download failed; nothing further is done.
    Fail(DownloadError),
}

/// The views of an optional owned header value.
pub open spec fn owned_header_view(header: Option<Vec<u8>>) -> Option<Seq<u8>> {
    match header {
        Some(h) => Some(h@),
        None => None,
    }
}

/// Whether `event` is the kind of event that `state` waits for.
pub open spec fn expects(state: DownloadState, event: DownloadEvent) -> bool {
    match (state, event) {
        (DownloadState::CheckDirectory, DownloadEvent::DirectoryChecked(_)) => true,
        (DownloadState::CheckCache, DownloadEvent::CacheLooked(_)) => true,
        (DownloadState::ServeFromCache, DownloadEvent::CacheCopied(_)) => true,
        (DownloadState::FetchRemote, DownloadEvent::ResponseReceived { .. }) => true,
        (DownloadState::WriteThrough { .. }, DownloadEvent::Written) => true,
        _ => false,
    }
}

impl DownloadSpec {
    /// The download of a Spiget version of the plugin named `plugin_name` in the manifest.
    pub fn for_spiget(plugin_name: &str, version: &SpigetResourceVersion) -> (r: Self)
        ensures
            r.plugin_name@ == plugin_name@,
            r.version_identifier@ == decimal(version.version.id.0 as nat),
            r.download_url == version.download_url,
            r.api_type == PluginApiType::Spiget,
    {
        DownloadSpec {
            plugin_name: String::from_str(plugin_name),
            version_identifier: version.version_identifier(),
            download_url: version.download_url.clone(),
            api_type: PluginApiType::Spiget,
        }
    }

    /// The first state and action of a download: the directory is checked before anything
    /// touches the network or the cache.
    pub fn start(&self) -> (r: (DownloadState, DownloadAction))
        ensures
            r.0 is CheckDirectory,
            r.1 is CheckDirectory,
    {
        (DownloadState::CheckDirectory, DownloadAction::CheckDirectory)
    }

    /// Whether `event` is the kind of event that `state` waits for.
    pub fn expects_event(state: &DownloadState, event: &DownloadEvent) -> (r: bool)
        ensures
            r == expects(*state, *event),
    {
        match (state, event) {
            (DownloadState::CheckDirectory, DownloadEvent::DirectoryChecked(_)) => true,
            (DownloadState::CheckCache, DownloadEvent::CacheLooked(_)) => true,
            (DownloadState::ServeFromCache, DownloadEvent::CacheCopied(_)) => true,
            (DownloadState::FetchRemote, DownloadEvent::ResponseReceived { .. }) => true,
            (DownloadState::WriteThrough { .. }, DownloadEvent::Written) => true,
            _ => false,
        }
    }

    /// The next state of a download, and the action to perform, after `event`.
    ///
    /// A missing directory fails the download before anything else is done. A fresh cached
    /// copy is served without a request. Otherwise the file is fetched; a response whose
    /// file name is missing or unsafe, or whose cache-control header does not parse, fails
    /// the download before anything is written.
    pub fn step(&self, state: DownloadState, event: DownloadEvent) -> (r: (
        DownloadState,
        DownloadAction,
    ))
        requires
            expects(state, event),
        ensures
            match (state, event) {
                (DownloadState::CheckDirectory, DownloadEvent::DirectoryChecked(ok)) => if ok {
                    r.0 is CheckCache && r.1 == (DownloadAction::LookupCache {
                        plugin_name: self.plugin_name,
                        version_identifier: self.version_identifier,
                    })
                } else {
                    r.0 is Finished && r.1 == DownloadAction::Fail(
                        DownloadError::InvalidDirectoryPath,
                    )
                },
                (DownloadState::CheckCache, DownloadEvent::CacheLooked(lookup)) => match lookup {
                    CacheLookup::Fresh(meta) => r.0 is ServeFromCache && r.1
                        == DownloadAction::CopyFromCache(meta),
                    _ => r.0 is FetchRemote && r.1 == DownloadAction::Fetch(self.download_url),
                },
                (DownloadState::ServeFromCache, DownloadEvent::CacheCopied(n)) => r.0 is Finished
                    && r.1 == DownloadAction::Report(DownloadReport { download_size: n, cached: true }),
                (
                    DownloadState::FetchRemote,
                    DownloadEvent::ResponseReceived { content_disposition, cache_control, size },
                ) => {
                    let name = header_file_name(owned_header_view(content_disposition));
                    let ttl = header_ttl(owned_header_view(cache_control));
                    if !(name is Some && valid_file_name(name->0)) {
                        r.0 is Finished && r.1 matches DownloadAction::Fail(
                            DownloadError::ResponseFilename(_),
                        )
                    } else if ttl is None {
                        r.0 is Finished && r.1 matches DownloadAction::Fail(
                            DownloadError::CacheControl(_),
                        )
                    } else {
                        (match r.0 {
                            DownloadState::WriteThrough { file_name, ttl: t, size: n } => file_name@
                                == name->0 && t == ttl->0 && n == size,
                            _ => false,
                        }) && (match r.1 {
                            DownloadAction::StoreAndWrite {
                                plugin_name,
                                version_identifier,
                                file_name,
                                api_type,
                                ttl: t,
                            } => plugin_name == self.plugin_name && version_identifier
                                == self.version_identifier && file_name@ == name->0 && api_type
                                == self.api_type && t == ttl->0,
                            _ => false,
                        })
                    }
                },
                (DownloadState::WriteThrough { size, .. }, DownloadEvent::Written) => r.0 is Finished
                    && r.1 == DownloadAction::Report(DownloadReport { download_size: size, cached: false }),
                _ => false,
            },
    {
        match (state, event) {
            (DownloadState::CheckDirectory, DownloadEvent::DirectoryChecked(ok)) => {
                if ok {
                    (
                        DownloadState::CheckCache,
                        DownloadAction::LookupCache {
                            plugin_name: self.plugin_name.clone(),
                            version_identifier: self.version_identifier.clone(),
                        },
                    )
                } else {
                    (DownloadState::Finished, DownloadAction::Fail(DownloadError::InvalidDirectoryPath))
                }
            },
            (DownloadState::CheckCache, DownloadEvent::CacheLooked(lookup)) => match lookup {
                CacheLookup::Fresh(meta) => (
                    DownloadState::ServeFromCache,
                    DownloadAction::CopyFromCache(meta),
                ),
                _ => (DownloadState::FetchRemote, DownloadAction::Fetch(self.download_url.clone())),
            },
            (DownloadState::ServeFromCache, DownloadEvent::CacheCopied(n)) => (
                DownloadState::Finished,
                DownloadAction::Report(DownloadReport { download_size: n, cached: true }),
            ),
            (
                DownloadState::FetchRemote,
                DownloadEvent::ResponseReceived { content_disposition, cache_control, size },
            ) => {
                let cd = match &content_disposition {
                    Some(h) => Some(h.as_slice()),
                    None => None,
                };
                let file_name = match response_content_disposition_file_name(cd) {
                    Ok(name) => name,
                    Err(e) => {
                        return (
                            DownloadState::Finished,
                            DownloadAction::Fail(DownloadError::ResponseFilename(e)),
                        );
                    },
                };
                let cc = match &cache_control {
                    Some(h) => Some(h.as_slice()),
                    None => None,
                };
                let ttl = match response_downloaded_file_ttl(cc) {
                    Ok(ttl) => ttl,
                    Err(e) => {
                        return (
                            DownloadState::Finished,
                            DownloadAction::Fail(DownloadError::CacheControl(e)),
                        );
                    },
                };
                let action = DownloadAction::StoreAndWrite {
                    plugin_name: self.plugin_name.clone(),
                    version_identifier: self.version_identifier.clone(),
                    file_name: file_name.clone(),
                    api_type: self.api_type,
                    ttl,
                };
                (DownloadState::WriteThrough { file_name, ttl, size }, action)
            },
            (DownloadState::WriteThrough { size, .. }, DownloadEvent::Written) => (
                DownloadState::Finished,
                DownloadAction::Report(DownloadReport { download_size: size, cached: false }),
            ),
            _ => (DownloadState::Finished, DownloadAction::Fail(DownloadError::InvalidDirectoryPath)),
        }
    }
}

} // verus!
