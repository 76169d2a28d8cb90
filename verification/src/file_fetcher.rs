//! The fetcher: what it keeps, and the parts of a fetch that need no network:
//! the cache policy, the cached chain of redirects, local files, data URLs and
//! blobs, and the session cache.

use crate::auth_tokens::AuthTokens;
use crate::cache_setting::{
    is_reload_listed, reload_list_covers, CacheSetting, CacheSettingView,
};
use crate::content_type::{content_type_parts, map_content_type};
use crate::data_url::{data_url_source, get_source_from_data_url};
use crate::decode::{detect_charset, detected_charset, get_source_from_bytes, source_from_bytes};
use crate::error::{
    blob_not_found, invalid_file_path, too_many_redirects, FetchError, FetchErrorView,
};
use crate::file::{
    build_remote_file, content_type_name, file_view, header, remote_file, some_file_view, File,
    FileView,
};
use crate::file_cache::{cached, with_file, FileCache};
use crate::freshness::{check_fresh, is_fresh};
use crate::headers::HeadersMap;
use crate::http_cache::HttpCache;
use crate::media_type::{media_type_of, MediaType};
use crate::specifier::{
    get_validated_scheme, has_supported_scheme, is_file, joined, may_name_path, validated_scheme,
    Specifier,
};
use std::path::PathBuf;
use std::sync::Arc;
use vstd::prelude::*;

verus! {

/// How many redirects a fetch follows.
pub const REDIRECT_LIMIT: i64 = 10;

/// How loudly a download is announced.
#[derive(Clone, Copy, Debug, PartialEq, Eq, Structural)]
pub enum LogLevel {
    Error,
    Warn,
    Info,
    Debug,
    Trace,
}

/// What a fetch is asked for.
#[derive(Debug)]
pub struct FetchOptions<P> {
    pub specifier: Specifier,
    pub permissions: P,
    pub maybe_accept: Option<String>,
    pub maybe_cache_setting: Option<CacheSetting>,
}

/// A structure for resolving, fetching and caching source files.
#[derive(Debug)]
pub struct FileFetcher<C> {
    pub auth_tokens: AuthTokens,
    pub allow_remote: bool,
    pub cache: FileCache,
    pub cache_setting: CacheSetting,
    pub http_cache: C,
    pub download_log_level: LogLevel,
}

/// A blob as the blob store hands it out.
#[derive(Debug)]
pub struct Blob {
    pub media_type: String,
    pub bytes: Vec<u8>,
}

/// A `Blob` as a plain value.
pub struct BlobView {
    pub media_type: Seq<char>,
    pub bytes: Seq<u8>,
}

impl View for Blob {
    type V = BlobView;

    open spec fn view(&self) -> BlobView {
        BlobView { media_type: self.media_type@, bytes: self.bytes@ }
    }
}

/// A blob, or its absence, as a plain value.
pub open spec fn blob_view(blob: Option<Blob>) -> Option<BlobView> {
    match blob {
        Some(b) => Some(b@),
        None => None,
    }
}

/// What the synchronous look for a source found.
#[derive(Debug)]
pub enum SourceLookup {
    /// The session cache holds the file.
    Found(File),
    /// The specifier names the local file at this path, which is to be read
    /// and handed to `fetch_local`.
    Local(PathBuf),
    /// There is nothing to be had without a fetch.
    Nothing,
}

/// Whether the cache `cache` is to be used for `specifier` at the second
/// `now`. `ReloadAll` never uses it, `Use` and `Only` always do;
/// `RespectHeaders` uses it while the stored response can be read and is
/// fresh; `ReloadSome` uses it unless the list exempts the specifier.
pub open spec fn uses_cache<C: HttpCache>(
    cache: C,
    specifier: Seq<char>,
    setting: CacheSettingView,
    now: u64,
) -> bool {
    match setting {
        CacheSettingView::ReloadAll => false,
        CacheSettingView::Use => true,
        CacheSettingView::Only => true,
        CacheSettingView::RespectHeaders => match cache.metadata(cache.key_for(specifier)) {
            Ok(Some(metadata)) => is_fresh(metadata.headers, metadata.time, now),
            _ => false,
        },
        CacheSettingView::ReloadSome(list) => !reload_list_covers(list, specifier),
    }
}

/// What the cache `cache` has for `specifier` when at most `redirect_limit`
/// stored redirects are followed.
///
/// A stored response with a `location` header is a redirect: its target is
/// resolved against the specifier and looked up in turn, with one redirect
/// less to go. Any other stored response gives the file, if its body is there
/// and decodes. Nothing stored gives nothing. A limit below 0 is an error, and
/// so is a specifier whose scheme is not supported.
pub open spec fn cached_file<C: HttpCache>(cache: C, specifier: Seq<char>, redirect_limit: int)
    -> Result<Option<FileView>, FetchErrorView>
    decreases redirect_limit + 1,
{
    if redirect_limit < 0 {
        Err(too_many_redirects())
    } else if validated_scheme(specifier) is Err {
        Err(validated_scheme(specifier)->Err_0)
    } else {
        match cache.metadata(cache.key_for(specifier)) {
            Err(e) => Err(e),
            Ok(None) => Ok(None),
            Ok(Some(metadata)) => match header(metadata.headers, "location"@) {
                Some(location) => match joined(specifier, location) {
                    Ok(to) => cached_file(cache, to, redirect_limit - 1),
                    Err(e) => Err(e),
                },
                None => match cache.body(cache.key_for(specifier)) {
                    Err(e) => Err(e),
                    Ok(None) => Ok(None),
                    Ok(Some(bytes)) => match remote_file(specifier, bytes, metadata.headers) {
                        Ok(file) => Ok(Some(file)),
                        Err(e) => Err(e),
                    },
                },
            },
        }
    }
}

/// A file that the cache gives is under a specifier with a supported scheme.
pub proof fn lemma_cached_file_scheme<C: HttpCache>(
    cache: C,
    specifier: Seq<char>,
    redirect_limit: int,
)
    ensures
        cached_file(cache, specifier, redirect_limit) matches Ok(Some(file))
            ==> has_supported_scheme(file.specifier),
    decreases redirect_limit + 1,
{
    if redirect_limit >= 0 && validated_scheme(specifier) is Ok {
        match cache.metadata(cache.key_for(specifier)) {
            Ok(Some(metadata)) => match header(metadata.headers, "location"@) {
                Some(location) => match joined(specifier, location) {
                    Ok(to) => {
                        lemma_cached_file_scheme(cache, to, redirect_limit - 1);
                    },
                    Err(e) => {},
                },
                None => {},
            },
            _ => {},
        }
    }
}

/// Whether the cache `cache` holds, under the element `i` of `chain`, a
/// redirect to the element that follows it.
pub open spec fn is_stored_redirect<C: HttpCache>(cache: C, chain: Seq<Seq<char>>, i: int) -> bool {
    &&& cache.metadata(cache.key_for(chain[i])) matches Ok(Some(metadata))
    &&& header(metadata.headers, "location"@) matches Some(location)
    &&& joined(chain[i], location) == Ok::<Seq<char>, FetchErrorView>(chain[i + 1])
}

/// Whether `chain` is a chain of redirects that the cache holds: each of its
/// specifiers has a supported scheme, and each but the last is stored as a
/// redirect to the next.
pub open spec fn is_stored_chain<C: HttpCache>(cache: C, chain: Seq<Seq<char>>) -> bool {
    &&& chain.len() >= 1
    &&& forall|i: int| 0 <= i < chain.len() ==> has_supported_scheme(#[trigger] chain[i])
    &&& forall|i: int| 0 <= i < chain.len() - 1 ==> #[trigger] is_stored_redirect(cache, chain, i)
}

/// A chain of stored redirects is followed to its end where it is no longer
/// than the limit, and is an error of "too many redirects" where it is longer.
pub proof fn lemma_stored_chain<C: HttpCache>(cache: C, chain: Seq<Seq<char>>, redirect_limit: int)
    requires
        is_stored_chain(cache, chain),
    ensures
        cached_file(cache, chain[0], redirect_limit) == if chain.len() - 1 > redirect_limit {
            Err(too_many_redirects())
        } else {
            cached_file(cache, chain.last(), redirect_limit - (chain.len() - 1))
        },
    decreases chain.len(),
{
    if redirect_limit >= 0 && chain.len() > 1 {
        let rest = chain.drop_first();
        assert(is_stored_redirect(cache, chain, 0));
        assert forall|i: int| 0 <= i < rest.len() implies has_supported_scheme(
            #[trigger] rest[i],
        ) by {
            assert(rest[i] == chain[i + 1]);
        }
        assert forall|i: int| 0 <= i < rest.len() - 1 implies #[trigger] is_stored_redirect(
            cache,
            rest,
            i,
        ) by {
            assert(is_stored_redirect(cache, chain, i + 1));
            assert(rest[i] == chain[i + 1]);
            assert(rest[i + 1] == chain[i + 2]);
        }
        lemma_stored_chain(cache, rest, redirect_limit - 1);
        assert(rest[0] == chain[1]);
        assert(rest.last() == chain.last());
    }
}

/// What looking in the cache gave, as a plain value.
pub open spec fn cached_view(r: Result<Option<File>, FetchError>) -> Result<
    Option<FileView>,
    FetchErrorView,
> {
    match r {
        Ok(Some(f)) => Ok(Some(f@)),
        Ok(None) => Ok(None),
        Err(e) => Err(e@),
    }
}

/// The file that the bytes `bytes` of the local file under `specifier` stand
/// for: the byte order mark decides the character encoding, the path the
/// media type, and there are no headers.
pub open spec fn local_file(specifier: Seq<char>, bytes: Seq<u8>) -> Result<
    FileView,
    FetchErrorView,
> {
    match source_from_bytes(bytes, Some(detected_charset(bytes))) {
        Ok(source) => Ok(
            FileView {
                maybe_types: None,
                media_type: media_type_of(specifier, None),
                source,
                specifier,
                maybe_headers: None,
            },
        ),
        Err(e) => Err(e),
    }
}

/// The headers that stand for a content type alone.
pub open spec fn content_type_only(content_type: Seq<char>) -> Map<Seq<char>, Seq<char>> {
    Map::<Seq<char>, Seq<char>>::empty().insert(content_type_name(), content_type)
}

/// The file that the data URL `specifier` stands for: its body decoded in the
/// character encoding that its media type names, with that media type as the
/// content type.
pub open spec fn data_url_file(specifier: Seq<char>) -> Result<FileView, FetchErrorView> {
    match data_url_source(specifier) {
        Ok((source, content_type)) => Ok(
            FileView {
                maybe_types: None,
                media_type: content_type_parts(specifier, Some(content_type)).0,
                source,
                specifier,
                maybe_headers: Some(content_type_only(content_type)),
            },
        ),
        Err(e) => Err(e),
    }
}

/// The file that the blob under `specifier` stands for, with the media type
/// of the blob as the content type. No blob is an error.
pub open spec fn blob_file(specifier: Seq<char>, blob: Option<BlobView>) -> Result<
    FileView,
    FetchErrorView,
> {
    match blob {
        Some(blob) => {
            let parts = content_type_parts(specifier, Some(blob.media_type));
            match source_from_bytes(blob.bytes, parts.1) {
                Ok(source) => Ok(
                    FileView {
                        maybe_types: None,
                        media_type: parts.0,
                        source,
                        specifier,
                        maybe_headers: Some(content_type_only(blob.media_type)),
                    },
                ),
                Err(e) => Err(e),
            }
        },
        None => Err(blob_not_found(specifier)),
    }
}

/// Fetch a source file from the local file system: the part that follows the
/// reading of the file.
pub fn fetch_local(specifier: &Specifier, bytes: Vec<u8>) -> (r: Result<File, FetchError>)
    ensures
        file_view(r) == local_file(specifier@, bytes@),
{
    let charset = detect_charset(&bytes).to_owned();
    let source = match get_source_from_bytes(bytes, Some(charset)) {
        Ok(source) => source,
        Err(e) => {
            return Err(e);
        },
    };
    let media_type = MediaType::from_specifier(specifier.as_str());
    Ok(
        File {
            maybe_types: None,
            media_type,
            source: Arc::new(source),
            specifier: specifier.clone(),
            maybe_headers: None,
        },
    )
}

/// The path `found` for `specifier`, or the error that says that the
/// specifier names no path.
pub fn found_path(specifier: &Specifier, found: Option<PathBuf>) -> (r: Result<PathBuf, FetchError>)
    ensures
        found matches Some(path) ==> (r matches Ok(given) && given == path),
        found is None ==> (r matches Err(e) && e@ == invalid_file_path(specifier@)),
{
    match found {
        Some(path) => Ok(path),
        None => Err(FetchError::invalid_file_path(specifier.as_str())),
    }
}

/// The path of the local file that `specifier` names: what
/// `Specifier::to_file_path` finds, handed to `found_path`. There is a path
/// only where the host of the URL lets it name one, and the error says that
/// the specifier names none.
pub fn local_path(specifier: &Specifier) -> (r: Result<PathBuf, FetchError>)
    ensures
        r is Ok ==> may_name_path(specifier@),
        r matches Err(e) ==> e@ == invalid_file_path(specifier@),
{
    found_path(specifier, specifier.to_file_path())
}

/// The headers that stand for a content type alone.
fn content_type_headers(content_type: String) -> (headers: HeadersMap)
    ensures
        headers@ == content_type_only(content_type@),
{
    let mut headers = HeadersMap::new();
    headers.insert("content-type".to_owned(), content_type);
    headers
}

impl<C: HttpCache> FileFetcher<C> {
    /// Whether the fetcher has the settings of `before`: its tokens, whether
    /// it may fetch remote specifiers, its cache setting and its log level.
    pub open spec fn has_settings_of(self, before: Self) -> bool {
        &&& self.auth_tokens == before.auth_tokens
        &&& self.allow_remote == before.allow_remote
        &&& self.cache_setting == before.cache_setting
        &&& self.download_log_level == before.download_log_level
    }

    /// The fetcher over the cache `http_cache`, with an empty session cache.
    pub fn new(
        http_cache: C,
        cache_setting: CacheSetting,
        allow_remote: bool,
        auth_tokens: AuthTokens,
    ) -> (fetcher: Self)
        ensures
            fetcher.http_cache == http_cache,
            fetcher.cache_setting == cache_setting,
            fetcher.allow_remote == allow_remote,
            fetcher.auth_tokens == auth_tokens,
            fetcher.cache@ == Map::<Seq<char>, FileView>::empty(),
            fetcher.download_log_level == LogLevel::Info,
    {
        FileFetcher {
            auth_tokens,
            allow_remote,
            cache: FileCache::new(),
            cache_setting,
            http_cache,
            download_log_level: LogLevel::Info,
        }
    }

    pub fn cache_setting(&self) -> (setting: &CacheSetting)
        ensures
            *setting == self.cache_setting,
    {
        &self.cache_setting
    }

    /// Sets the log level to use when outputting the download message.
    pub fn set_download_log_level(&mut self, level: LogLevel)
        ensures
            final(self).download_log_level == level,
            final(self).auth_tokens == old(self).auth_tokens,
            final(self).allow_remote == old(self).allow_remote,
            final(self).cache == old(self).cache,
            final(self).cache_setting == old(self).cache_setting,
            final(self).http_cache == old(self).http_cache,
    {
        self.download_log_level = level;
    }

    /// Fetch cached remote file.
    ///
    /// This is a recursive operation if source file has redirections.
    pub fn fetch_cached(&self, specifier: &Specifier, redirect_limit: i64) -> (r: Result<
        Option<File>,
        FetchError,
    >)
        ensures
            cached_view(r) == cached_file(self.http_cache, specifier@, redirect_limit as int),
            r matches Ok(Some(file)) ==> has_supported_scheme(file@.specifier),
        decreases redirect_limit + 1,
    {
        proof {
            lemma_cached_file_scheme(self.http_cache, specifier@, redirect_limit as int);
        }
        if redirect_limit < 0 {
            return Err(FetchError::too_many_redirects());
        }
        match get_validated_scheme(specifier) {
            Err(e) => {
                return Err(e);
            },
            Ok(_) => {},
        }
        let cache_key = self.http_cache.cache_item_key(specifier);
        let metadata = match self.http_cache.read_metadata(&cache_key) {
            Err(e) => {
                return Err(e);
            },
            Ok(None) => {
                return Ok(None);
            },
            Ok(Some(metadata)) => metadata,
        };
        let headers = metadata.headers;
        match headers.get("location") {
            Some(redirect_to) => {
                return match specifier.join(redirect_to.as_str()) {
                    Ok(redirect) => self.fetch_cached(&redirect, redirect_limit - 1),
                    Err(e) => Err(e),
                };
            },
            None => {},
        }
        let bytes = match self.http_cache.read_file_bytes(&cache_key) {
            Err(e) => {
                return Err(e);
            },
            Ok(None) => {
                return Ok(None);
            },
            Ok(Some(bytes)) => bytes,
        };
        match build_remote_file(specifier, bytes, &headers) {
            Ok(file) => Ok(Some(file)),
            Err(e) => Err(e),
        }
    }

    /// Convert a data URL into a file, resulting in an error if the URL is
    /// invalid.
    pub fn fetch_data_url(&self, specifier: &Specifier) -> (r: Result<File, FetchError>)
        ensures
            file_view(r) == data_url_file(specifier@),
    {
        let (source, content_type) = match get_source_from_data_url(specifier) {
            Ok(pair) => pair,
            Err(e) => {
                return Err(e);
            },
        };
        let (media_type, _) = map_content_type(specifier, Some(&content_type));
        let headers = content_type_headers(content_type);
        Ok(
            File {
                maybe_types: None,
                media_type,
                source: Arc::new(source),
                specifier: specifier.clone(),
                maybe_headers: Some(headers),
            },
        )
    }

    /// Get a blob URL: the part that follows the look into the blob store and
    /// the reading of the blob.
    pub fn fetch_blob_url(&self, specifier: &Specifier, blob: Option<Blob>) -> (r: Result<
        File,
        FetchError,
    >)
        ensures
            file_view(r) == blob_file(specifier@, blob_view(blob)),
    {
        let blob = match blob {
            Some(blob) => blob,
            None => {
                return Err(FetchError::blob_not_found(specifier.as_str()));
            },
        };
        let Blob { media_type: content_type, bytes } = blob;
        let (media_type, maybe_charset) = map_content_type(specifier, Some(&content_type));
        let source = match get_source_from_bytes(bytes, maybe_charset) {
            Ok(source) => source,
            Err(e) => {
                return Err(e);
            },
        };
        let headers = content_type_headers(content_type);
        Ok(
            File {
                maybe_types: None,
                media_type,
                source: Arc::new(source),
                specifier: specifier.clone(),
                maybe_headers: Some(headers),
            },
        )
    }

    /// Returns if the cache should be used for a given specifier.
    pub fn should_use_cache(&self, specifier: &Specifier, cache_setting: &CacheSetting, now: u64)
        -> (r: bool)
        ensures
            r == uses_cache(self.http_cache, specifier@, cache_setting@, now),
    {
        match cache_setting {
            CacheSetting::ReloadAll => false,
            CacheSetting::Use => true,
            CacheSetting::Only => true,
            CacheSetting::RespectHeaders => {
                let cache_key = self.http_cache.cache_item_key(specifier);
                match self.http_cache.read_metadata(&cache_key) {
                    Ok(Some(metadata)) => check_fresh(&metadata.headers, metadata.time, now),
                    _ => false,
                }
            },
            CacheSetting::ReloadSome(list) => !is_reload_listed(list, specifier),
        }
    }

    /// A synchronous way to retrieve a source file, where if the file has already
    /// been cached in memory it will be returned, otherwise for local files will
    /// be read from disk.
    pub fn get_source(&self, specifier: &Specifier) -> (r: SourceLookup)
        ensures
            match cached(self.cache@, specifier@) {
                Some(file) => r matches SourceLookup::Found(found) && found@ == file,
                None => if is_file(specifier@) {
                    r is Local || r is Nothing
                } else {
                    r is Nothing
                },
            },
            is_file(specifier@) ==> !(r is Found),
    {
        match self.cache.get(specifier) {
            Some(file) => SourceLookup::Found(file),
            None => {
                if specifier.is_local() {
                    match local_path(specifier) {
                        Ok(path) => SourceLookup::Local(path),
                        Err(_) => SourceLookup::Nothing,
                    }
                } else {
                    SourceLookup::Nothing
                }
            },
        }
    }

    /// Insert a temporary module into the in memory cache for the file fetcher.
    pub fn insert_cached(&mut self, file: File) -> (prior: Option<File>)
        ensures
            final(self).cache@ == with_file(old(self).cache@, file@.specifier, file@),
            some_file_view(prior) == if is_file(file@.specifier) {
                None
            } else {
                cached(old(self).cache@, file@.specifier)
            },
            final(self).http_cache == old(self).http_cache,
            final(self).has_settings_of(*old(self)),
    {
        let specifier = file.specifier.clone();
        self.cache.insert(specifier, file)
    }
}

} // verus!
