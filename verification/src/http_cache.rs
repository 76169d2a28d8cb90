//! The persistent cache of HTTP responses as the fetcher sees it, and a cache
//! of that kind that lives in memory.

use crate::error::{FetchError, FetchErrorView};
use crate::headers::HeadersMap;
use crate::specifier::Specifier;
use crate::string_map::StringMap;
use vstd::prelude::*;
use vstd::slice::slice_to_vec;

verus! {

/// The key under which a cache keeps the response for a specifier.
#[derive(Debug)]
pub struct CacheKey {
    pub text: String,
}

impl View for CacheKey {
    type V = Seq<char>;

    open spec fn view(&self) -> Seq<char> {
        self.text@
    }
}

/// What a cache keeps of a response beside its body.
#[derive(Debug)]
pub struct CachedMetadata {
    /// The headers of the response.
    pub headers: HeadersMap,
    /// When the response was stored, in seconds since the epoch.
    pub time: u64,
}

/// `CachedMetadata` as a plain value.
pub struct MetadataView {
    pub headers: Map<Seq<char>, Seq<char>>,
    pub time: u64,
}

impl View for CachedMetadata {
    type V = MetadataView;

    open spec fn view(&self) -> MetadataView {
        MetadataView { headers: self.headers@, time: self.time }
    }
}

/// The answer to reading metadata, as a plain value.
pub open spec fn metadata_view(r: Result<Option<CachedMetadata>, FetchError>) -> Result<
    Option<MetadataView>,
    FetchErrorView,
> {
    match r {
        Ok(Some(m)) => Ok(Some(m@)),
        Ok(None) => Ok(None),
        Err(e) => Err(e@),
    }
}

/// The answer to reading a body, as a plain value.
pub open spec fn body_view(r: Result<Option<Vec<u8>>, FetchError>) -> Result<
    Option<Seq<u8>>,
    FetchErrorView,
> {
    match r {
        Ok(Some(b)) => Ok(Some(b@)),
        Ok(None) => Ok(None),
        Err(e) => Err(e@),
    }
}

/// The answer to a write, as a plain value.
pub open spec fn written_view(r: Result<(), FetchError>) -> Result<(), FetchErrorView> {
    match r {
        Ok(()) => Ok(()),
        Err(e) => Err(e@),
    }
}

/// A store of HTTP responses, each with headers and body, under keys that it
/// derives from specifiers. What the store holds is described by what reading
/// each key gives: a response, nothing, or a failure to read.
pub trait HttpCache {
    /// The key for a specifier.
    open spec fn key_for(&self, specifier: Seq<char>) -> Seq<char> {
        arbitrary()
    }

    /// What reading the metadata under `key` gives.
    open spec fn metadata(&self, key: Seq<char>) -> Result<Option<MetadataView>, FetchErrorView> {
        arbitrary()
    }

    /// What reading the body under `key` gives.
    open spec fn body(&self, key: Seq<char>) -> Result<Option<Seq<u8>>, FetchErrorView> {
        arbitrary()
    }

    /// What storing a response under the key of `specifier` gives.
    open spec fn write_result(
        &self,
        specifier: Seq<char>,
        headers: Map<Seq<char>, Seq<char>>,
        content: Seq<u8>,
    ) -> Result<(), FetchErrorView> {
        arbitrary()
    }

    /// The key for a specifier.
    fn cache_item_key(&self, specifier: &Specifier) -> (key: CacheKey)
        ensures
            key@ == self.key_for(specifier@),
    ;

    /// The headers and the time of storing of the response under `key`.
    fn read_metadata(&self, key: &CacheKey) -> (r: Result<Option<CachedMetadata>, FetchError>)
        ensures
            metadata_view(r) == self.metadata(key@),
    ;

    /// The body of the response under `key`.
    fn read_file_bytes(&self, key: &CacheKey) -> (r: Result<Option<Vec<u8>>, FetchError>)
        ensures
            body_view(r) == self.body(key@),
    ;

    /// Stores a response under the key of `specifier`. On success the key
    /// holds these headers and this body; on failure the key holds what it held.
    /// No other key is touched, and the keys stay what they are.
    fn set(&mut self, specifier: &Specifier, headers: HeadersMap, content: &[u8]) -> (r: Result<
        (),
        FetchError,
    >)
        ensures
            written_view(r) == old(self).write_result(specifier@, headers@, content@),
            forall|s: Seq<char>| #[trigger] final(self).key_for(s) == old(self).key_for(s),
            forall|k: Seq<char>|
                k != old(self).key_for(specifier@) ==> #[trigger] final(self).metadata(k) == old(
                    self,
                ).metadata(k),
            forall|k: Seq<char>|
                k != old(self).key_for(specifier@) ==> #[trigger] final(self).body(k) == old(
                    self,
                ).body(k),
            r is Ok ==> holds(
                final(self).metadata(old(self).key_for(specifier@)),
                final(self).body(old(self).key_for(specifier@)),
                headers@,
                content@,
            ),
            r is Err ==> final(self).metadata(old(self).key_for(specifier@)) == old(self).metadata(
                old(self).key_for(specifier@),
            ),
            r is Err ==> final(self).body(old(self).key_for(specifier@)) == old(self).body(
                old(self).key_for(specifier@),
            ),
    ;
}

/// Whether what reading a key gives is a response with these headers and this
/// body.
pub open spec fn holds(
    metadata: Result<Option<MetadataView>, FetchErrorView>,
    body: Result<Option<Seq<u8>>, FetchErrorView>,
    headers: Map<Seq<char>, Seq<char>>,
    content: Seq<u8>,
) -> bool {
    &&& metadata matches Ok(Some(m))
    &&& m.headers == headers
    &&& body == Ok::<Option<Seq<u8>>, FetchErrorView>(Some(content))
}

/// A response as the cache in memory keeps it.
#[derive(Debug)]
pub struct StoredResponse {
    pub headers: HeadersMap,
    pub time: u64,
    pub body: Vec<u8>,
}

/// A cache of HTTP responses that lives in memory. Its keys are the
/// specifiers themselves, and it never fails.
#[derive(Debug)]
pub struct MemoryHttpCache {
    responses: StringMap<StoredResponse>,
    now: u64,
}

impl MemoryHttpCache {
    /// The cache without any response, with its clock at 0.
    pub fn new() -> (cache: MemoryHttpCache)
        ensures
            forall|k: Seq<char>|
                #[trigger] cache.metadata(k) == Ok::<Option<MetadataView>, FetchErrorView>(None),
            forall|k: Seq<char>|
                #[trigger] cache.body(k) == Ok::<Option<Seq<u8>>, FetchErrorView>(None),
            cache.clock() == 0,
    {
        MemoryHttpCache { responses: StringMap::new(), now: 0 }
    }

    /// The time that the next response is stored with.
    pub closed spec fn clock(&self) -> u64 {
        self.now
    }

    /// Sets the time that the responses stored from now on are stored with.
    pub fn set_time(&mut self, now: u64)
        ensures
            final(self).clock() == now,
            forall|s: Seq<char>| #[trigger] final(self).key_for(s) == old(self).key_for(s),
            forall|k: Seq<char>| #[trigger] final(self).metadata(k) == old(self).metadata(k),
            forall|k: Seq<char>| #[trigger] final(self).body(k) == old(self).body(k),
    {
        self.now = now;
    }

    /// The keys under which the cache holds a response.
    pub open spec fn stored_keys(&self) -> Set<Seq<char>> {
        Set::new(|key: Seq<char>| self.metadata(key) matches Ok(Some(_)))
    }

    /// How many responses the cache holds.
    pub fn len(&self) -> (n: usize)
        ensures
            self.stored_keys().finite(),
            n == self.stored_keys().len(),
    {
        let n = self.responses.len();
        assert(self.stored_keys() =~= self.responses.map().dom());
        n
    }
}

impl HttpCache for MemoryHttpCache {
    closed spec fn key_for(&self, specifier: Seq<char>) -> Seq<char> {
        specifier
    }

    closed spec fn metadata(&self, key: Seq<char>) -> Result<Option<MetadataView>, FetchErrorView> {
        if self.responses.map().contains_key(key) {
            Ok(
                Some(
                    MetadataView {
                        headers: self.responses.map()[key].headers@,
                        time: self.responses.map()[key].time,
                    },
                ),
            )
        } else {
            Ok(None)
        }
    }

    open spec fn write_result(
        &self,
        specifier: Seq<char>,
        headers: Map<Seq<char>, Seq<char>>,
        content: Seq<u8>,
    ) -> Result<(), FetchErrorView> {
        Ok(())
    }

    closed spec fn body(&self, key: Seq<char>) -> Result<Option<Seq<u8>>, FetchErrorView> {
        if self.responses.map().contains_key(key) {
            Ok(Some(self.responses.map()[key].body@))
        } else {
            Ok(None)
        }
    }

    fn cache_item_key(&self, specifier: &Specifier) -> (key: CacheKey) {
        CacheKey { text: specifier.as_str().to_owned() }
    }

    fn read_metadata(&self, key: &CacheKey) -> (r: Result<Option<CachedMetadata>, FetchError>) {
        match self.responses.get(key.text.as_str()) {
            Some(stored) => Ok(
                Some(CachedMetadata { headers: stored.headers.clone(), time: stored.time }),
            ),
            None => Ok(None),
        }
    }

    fn read_file_bytes(&self, key: &CacheKey) -> (r: Result<Option<Vec<u8>>, FetchError>) {
        match self.responses.get(key.text.as_str()) {
            Some(stored) => Ok(Some(stored.body.clone())),
            None => Ok(None),
        }
    }

    fn set(&mut self, specifier: &Specifier, headers: HeadersMap, content: &[u8]) -> (r: Result<
        (),
        FetchError,
    >)
        ensures
            r is Ok,
            final(self).clock() == old(self).clock(),
            final(self).metadata(specifier@) == Ok::<Option<MetadataView>, FetchErrorView>(
                Some(MetadataView { headers: headers@, time: old(self).clock() }),
            ),
    {
        let stored = StoredResponse { headers, time: self.now, body: slice_to_vec(content) };
        let _ = self.responses.insert(specifier.as_str().to_owned(), stored);
        Ok(())
    }
}

} // verus!
