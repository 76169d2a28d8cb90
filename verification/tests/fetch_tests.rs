use module_fetcher::auth_tokens::AuthTokens;
use module_fetcher::cache_setting::CacheSetting;
use module_fetcher::error::{ErrorKind, FetchError};
use module_fetcher::fetch_once::{fetch_once, request_headers, FetchOnceArgs, Transport};
use module_fetcher::file::File;
use module_fetcher::file_fetcher::{
    fetch_local, Blob, FetchOptions, FileFetcher, LogLevel, SourceLookup,
};
use module_fetcher::headers::HeadersMap;
use module_fetcher::http_cache::{CacheKey, CachedMetadata, HttpCache, MemoryHttpCache};
use module_fetcher::media_type::MediaType;
use module_fetcher::permissions::{AllowAll, Permissions};
use module_fetcher::remote::{FetchStep, RETRY_DELAY_MS};
use module_fetcher::specifier::Specifier;
use std::sync::Arc;

const NOW: u64 = 1_000;

fn spec(text: &str) -> Specifier {
    Specifier::parse(text).unwrap()
}

fn fetcher(setting: CacheSetting) -> FileFetcher<MemoryHttpCache> {
    FileFetcher::new(MemoryHttpCache::new(), setting, true, AuthTokens::new(None))
}

fn response(status: u16, headers: &[(&str, &str)], body: &[u8]) -> Transport {
    Transport::Response {
        status,
        headers: headers.iter().map(|(n, v)| (n.to_string(), v.to_string())).collect(),
        body: body.to_vec(),
    }
}

/// What the driver saw: the URL and the headers of each request, and each wait.
struct Seen {
    requests: Vec<(String, Vec<(String, String)>)>,
    waits: Vec<u64>,
}

fn drive<C: HttpCache, P: Permissions>(
    fetcher: &mut FileFetcher<C>,
    permissions: &P,
    first: FetchStep,
    server: &mut dyn FnMut(&FetchOnceArgs) -> Transport,
    seen: &mut Seen,
) -> Result<File, FetchError> {
    let mut step = first;
    loop {
        let pending = match step {
            FetchStep::Done(r) => return r,
            FetchStep::Request(pending) => pending,
            FetchStep::Retry { delay_ms, pending } => {
                seen.waits.push(delay_ms);
                pending
            }
            other => panic!("a remote fetch asked for {:?}", other),
        };
        let url = pending.args().url.clone();
        let headers = match request_headers(pending.args()) {
            Ok(headers) => headers,
            Err(e) => return Err(e),
        };
        seen.requests.push((url.as_str().to_string(), headers));
        let outcome = fetch_once(&url, server(pending.args()));
        step = fetcher.on_response(permissions, pending, outcome, NOW);
    }
}

fn fetch_remote<C: HttpCache>(
    fetcher: &mut FileFetcher<C>,
    text: &str,
    server: &mut dyn FnMut(&FetchOnceArgs) -> Transport,
) -> (Result<File, FetchError>, Seen) {
    let mut seen = Seen { requests: vec![], waits: vec![] };
    let first = fetcher.fetch(&spec(text), &AllowAll, NOW);
    let r = drive(fetcher, &AllowAll, first, server, &mut seen);
    (r, seen)
}

struct DenyHost(&'static str);

impl Permissions for DenyHost {
    fn check_specifier(&self, specifier: &Specifier) -> Result<(), FetchError> {
        if specifier.host() == Some(self.0) {
            Err(FetchError::permission_denied(specifier.as_str()))
        } else {
            Ok(())
        }
    }
}

/// A cache that reads as empty and cannot be written.
struct ReadOnlyCache;

impl HttpCache for ReadOnlyCache {
    fn cache_item_key(&self, specifier: &Specifier) -> CacheKey {
        CacheKey { text: specifier.as_str().to_string() }
    }

    fn read_metadata(&self, _key: &CacheKey) -> Result<Option<CachedMetadata>, FetchError> {
        Ok(None)
    }

    fn read_file_bytes(&self, _key: &CacheKey) -> Result<Option<Vec<u8>>, FetchError> {
        Ok(None)
    }

    fn set(&mut self, _s: &Specifier, _h: HeadersMap, _c: &[u8]) -> Result<(), FetchError> {
        Err(FetchError::new(ErrorKind::NotFound, "the cache cannot be written".to_string()))
    }
}

#[test]
fn local_file_is_read_and_decoded() {
    let mut f = fetcher(CacheSetting::Use);
    let s = spec("file:///tmp/x.ts");
    let path = match f.fetch(&s, &AllowAll, NOW) {
        FetchStep::ReadLocal { specifier, path } => {
            assert_eq!(specifier.as_str(), "file:///tmp/x.ts");
            path
        }
        other => panic!("expected a file to read, got {:?}", other),
    };
    assert_eq!(path.to_str(), Some("/tmp/x.ts"));
    let file = fetch_local(&s, b"export const a = 1;\n".to_vec()).unwrap();
    assert_eq!(file.media_type, MediaType::TypeScript);
    assert_eq!(file.source.as_str(), "export const a = 1;\n");
    assert!(file.maybe_headers.is_none());
    assert!(file.maybe_types.is_none());
    assert_eq!(file.specifier.as_str(), "file:///tmp/x.ts");
}

#[test]
fn file_url_that_names_no_path_is_a_uri_error() {
    let mut f = fetcher(CacheSetting::Use);
    match f.fetch(&spec("file://example.com/x.ts"), &AllowAll, NOW) {
        FetchStep::Done(Err(e)) => {
            assert_eq!(e.kind, ErrorKind::Uri);
            assert_eq!(e.message, "Invalid file path.\n  Specifier: file://example.com/x.ts");
        }
        other => panic!("expected an error, got {:?}", other),
    }
}

#[test]
fn local_file_is_read_anew_on_every_fetch() {
    let mut f = fetcher(CacheSetting::Use);
    let s = spec("file:///tmp/x.ts");
    assert!(matches!(f.fetch(&s, &AllowAll, NOW), FetchStep::ReadLocal { .. }));
    let first = fetch_local(&s, b"export const a = 1;\n".to_vec()).unwrap();
    assert!(matches!(f.fetch(&s, &AllowAll, NOW), FetchStep::ReadLocal { .. }));
    let second = fetch_local(&s, b"export const a = 2;\n".to_vec()).unwrap();
    assert_eq!(first.source.as_str(), "export const a = 1;\n");
    assert_eq!(second.source.as_str(), "export const a = 2;\n");
    assert!(!f.cache.contains(&s));
    assert_eq!(f.cache.len(), 0);
}

#[test]
fn session_cache_never_takes_a_local_file() {
    let mut f = fetcher(CacheSetting::Use);
    let s = spec("file:///tmp/x.ts");
    let file = fetch_local(&s, b"1;".to_vec()).unwrap();
    assert!(f.insert_cached(file).is_none());
    assert!(!f.cache.contains(&s));
    assert!(matches!(f.get_source(&s), SourceLookup::Local(_)));
    assert!(matches!(f.fetch(&s, &AllowAll, NOW), FetchStep::ReadLocal { .. }));
}

#[test]
fn local_file_with_utf16_byte_order_mark() {
    let s = spec("file:///tmp/x.js");
    let file = fetch_local(&s, vec![0xff, 0xfe, 0x31, 0x00, 0x3b, 0x00]).unwrap();
    assert_eq!(file.source.as_str(), "\u{feff}1;");
    assert_eq!(file.media_type, MediaType::JavaScript);
    let e = fetch_local(&s, vec![0x31, 0xff]).unwrap_err();
    assert_eq!(e.kind, ErrorKind::Encoding);
    assert_eq!(e.message, "The bytes are not valid utf-8 text.");
}

#[test]
fn data_url_is_decoded_on_the_spot() {
    let mut f = fetcher(CacheSetting::Use);
    let s = spec("data:application/typescript;base64,ZXhwb3J0IHt9Ow==");
    let file = match f.fetch(&s, &AllowAll, NOW) {
        FetchStep::Done(r) => r.unwrap(),
        other => panic!("expected the file, got {:?}", other),
    };
    assert_eq!(file.media_type, MediaType::TypeScript);
    assert_eq!(file.source.as_str(), "export {};");
    let headers = file.maybe_headers.unwrap();
    assert_eq!(headers.len(), 1);
    assert_eq!(headers.get("content-type"), Some(&"application/typescript".to_string()));
    assert!(file.maybe_types.is_none());
    assert!(f.cache.contains(&s));
}

#[test]
fn broken_data_url_is_a_uri_error() {
    let mut f = fetcher(CacheSetting::Use);
    let s = spec("data:text/plain");
    match f.fetch(&s, &AllowAll, NOW) {
        FetchStep::Done(Err(e)) => assert_eq!(e.kind, ErrorKind::Uri),
        other => panic!("expected an error, got {:?}", other),
    }
    assert!(!f.cache.contains(&s));
}

#[test]
fn blob_is_looked_up_and_decoded() {
    let mut f = fetcher(CacheSetting::Use);
    let s = spec("blob:https://ex.com/3a2b");
    assert!(matches!(f.fetch(&s, &AllowAll, NOW), FetchStep::ReadBlob { .. }));
    let blob = Blob { media_type: "application/javascript; charset=utf-8".to_string(), bytes: b"1;".to_vec() };
    let file = f.on_blob(s.clone(), Some(blob)).unwrap();
    assert_eq!(file.media_type, MediaType::JavaScript);
    assert_eq!(file.source.as_str(), "1;");
    assert_eq!(
        file.maybe_headers.unwrap().get("content-type"),
        Some(&"application/javascript; charset=utf-8".to_string())
    );
    // The session cache now answers.
    assert!(matches!(f.fetch(&s, &AllowAll, NOW), FetchStep::Done(Ok(_))));
}

#[test]
fn missing_blob_is_not_found() {
    let mut f = fetcher(CacheSetting::Use);
    let s = spec("blob:https://ex.com/3a2b");
    let e = f.on_blob(s.clone(), None).unwrap_err();
    assert_eq!(e.kind, ErrorKind::NotFound);
    assert_eq!(e.message, "Blob URL not found: \"blob:https://ex.com/3a2b\".");
    assert!(!f.cache.contains(&s));
}

#[test]
fn unsupported_scheme_is_rejected_first() {
    let mut f = fetcher(CacheSetting::Use);
    match f.fetch(&spec("ftp://ex.com/a.ts"), &DenyHost("ex.com"), NOW) {
        FetchStep::Done(Err(e)) => assert_eq!(e.kind, ErrorKind::Unsupported),
        other => panic!("expected an error, got {:?}", other),
    }
}

#[test]
fn permission_is_checked_before_the_session_cache() {
    let mut f = fetcher(CacheSetting::Use);
    let (r, _) = fetch_remote(&mut f, "https://ex.com/a.ts", &mut |_| response(200, &[], b"1;"));
    r.unwrap();
    match f.fetch(&spec("https://ex.com/a.ts"), &DenyHost("ex.com"), NOW) {
        FetchStep::Done(Err(e)) => {
            assert_eq!(e.kind, ErrorKind::Permission);
            assert_eq!(e.message, "Requires access to \"https://ex.com/a.ts\".");
        }
        other => panic!("expected an error, got {:?}", other),
    }
}

#[test]
fn remote_is_refused_where_it_is_switched_off() {
    let mut f = FileFetcher::new(MemoryHttpCache::new(), CacheSetting::Use, false, AuthTokens::new(None));
    match f.fetch(&spec("https://ex.com/a.ts"), &AllowAll, NOW) {
        FetchStep::Done(Err(e)) => {
            assert_eq!(e.kind, ErrorKind::NoRemote);
            assert_eq!(
                e.message,
                "A remote specifier was requested: \"https://ex.com/a.ts\", but --no-remote is specified."
            );
        }
        other => panic!("expected an error, got {:?}", other),
    }
}

#[test]
fn redirect_chain_is_followed_and_recorded() {
    let mut f = fetcher(CacheSetting::Use);
    let (r, seen) = fetch_remote(&mut f, "https://a/x", &mut |args| match args.url.as_str() {
        "https://a/x" => response(301, &[("Location", "https://b/y")], b""),
        "https://b/y" => response(200, &[("Content-Type", "application/javascript; charset=utf-8")], b"1;"),
        other => panic!("unexpected request for {other}"),
    });
    let file = r.unwrap();
    assert_eq!(file.specifier.as_str(), "https://b/y");
    assert_eq!(file.media_type, MediaType::JavaScript);
    assert_eq!(file.source.as_str(), "1;");
    assert_eq!(seen.requests.len(), 2);
    assert!(seen.waits.is_empty());
    // Two writes: the redirect under the first URL, the body under the second.
    assert_eq!(f.http_cache.len(), 2);
    let key = f.http_cache.cache_item_key(&spec("https://a/x"));
    let redirect = f.http_cache.read_metadata(&key).unwrap().unwrap();
    assert_eq!(redirect.headers.get("location"), Some(&"https://b/y".to_string()));
    assert_eq!(f.http_cache.read_file_bytes(&key).unwrap().unwrap(), Vec::<u8>::new());
    let key = f.http_cache.cache_item_key(&spec("https://b/y"));
    assert_eq!(f.http_cache.read_file_bytes(&key).unwrap().unwrap(), b"1;".to_vec());
    // The session cache holds the file under what was asked for.
    assert!(f.cache.contains(&spec("https://a/x")));
    assert!(!f.cache.contains(&spec("https://b/y")));
}

#[test]
fn relative_redirect_is_resolved_against_the_request() {
    let mut f = fetcher(CacheSetting::Use);
    let (r, seen) = fetch_remote(&mut f, "https://a/dir/x.js", &mut |args| match args.url.as_str() {
        "https://a/dir/x.js" => response(302, &[("location", "../y.js")], b""),
        "https://a/y.js" => response(200, &[], b"2;"),
        other => panic!("unexpected request for {other}"),
    });
    assert_eq!(r.unwrap().specifier.as_str(), "https://a/y.js");
    assert_eq!(seen.requests[1].0, "https://a/y.js");
}

#[test]
fn redirect_without_location_is_an_error() {
    let mut f = fetcher(CacheSetting::Use);
    let (r, _) = fetch_remote(&mut f, "https://a/x", &mut |_| response(301, &[], b""));
    let e = r.unwrap_err();
    assert_eq!(e.kind, ErrorKind::Http);
    assert_eq!(e.message, "Redirection from 'https://a/x' did not provide location header");
}

#[test]
fn redirect_to_an_unsupported_scheme_is_rejected() {
    let mut f = fetcher(CacheSetting::Use);
    let (r, seen) = fetch_remote(&mut f, "https://a/x", &mut |_| response(301, &[("location", "ftp://b/y")], b""));
    assert_eq!(r.unwrap_err().kind, ErrorKind::Unsupported);
    assert_eq!(seen.requests.len(), 1);
}

#[test]
fn redirect_target_must_pass_the_permissions() {
    let mut f = fetcher(CacheSetting::Use);
    let mut seen = Seen { requests: vec![], waits: vec![] };
    let perms = DenyHost("b");
    let first = f.fetch(&spec("https://a/x"), &perms, NOW);
    let r = drive(&mut f, &perms, first, &mut |_| response(301, &[("location", "https://b/y")], b""), &mut seen);
    assert_eq!(r.unwrap_err().kind, ErrorKind::Permission);
    assert_eq!(seen.requests.len(), 1);
}

#[test]
fn ten_redirects_are_followed() {
    let mut f = fetcher(CacheSetting::Use);
    let (r, seen) = fetch_remote(&mut f, "https://ex.com/0", &mut |args| {
        let n: u32 = args.url.as_str().rsplit('/').next().unwrap().parse().unwrap();
        if n < 10 {
            response(301, &[("location", &format!("https://ex.com/{}", n + 1))], b"")
        } else {
            response(200, &[], b"done")
        }
    });
    let file = r.unwrap();
    assert_eq!(file.specifier.as_str(), "https://ex.com/10");
    assert_eq!(file.source.as_str(), "done");
    assert_eq!(seen.requests.len(), 11);
}

#[test]
fn too_many_redirects() {
    let mut f = fetcher(CacheSetting::Use);
    let (r, seen) = fetch_remote(&mut f, "https://ex.com/0", &mut |args| {
        let n: u32 = args.url.as_str().rsplit('/').next().unwrap().parse().unwrap();
        response(301, &[("location", &format!("https://ex.com/{}", n + 1))], b"")
    });
    let e = r.unwrap_err();
    assert_eq!(e.kind, ErrorKind::Http);
    assert_eq!(e.message, "Too many redirects.");
    assert_eq!(e.to_text(), "Http: Too many redirects.");
    assert_eq!(seen.requests.len(), 11);
    assert_eq!(f.http_cache.len(), 11);
    assert!(!f.cache.contains(&spec("https://ex.com/0")));
}

#[test]
fn revalidation_with_the_stored_entity_tag() {
    let mut f = fetcher(CacheSetting::RespectHeaders);
    let (r, seen) = fetch_remote(&mut f, "https://ex.com/a.js", &mut |_| {
        response(200, &[("ETag", "\"v1\""), ("Cache-Control", "max-age=10")], b"A")
    });
    let first = r.unwrap();
    assert!(seen.requests[0].1.is_empty());
    // Another fetcher over the same persistent cache, long after.
    let mut cache = std::mem::replace(&mut f.http_cache, MemoryHttpCache::new());
    cache.set_time(0);
    let mut g = FileFetcher::new(cache, CacheSetting::RespectHeaders, true, AuthTokens::new(None));
    let (r, seen) = fetch_remote(&mut g, "https://ex.com/a.js", &mut |_| response(304, &[], b""));
    let second = r.unwrap();
    assert_eq!(seen.requests.len(), 1);
    assert_eq!(seen.requests[0].1, vec![("if-none-match".to_string(), "\"v1\"".to_string())]);
    assert_eq!(second, first);
    assert_eq!(second.source.as_str(), "A");
}

#[test]
fn fresh_response_is_served_from_the_persistent_cache() {
    let mut f = fetcher(CacheSetting::RespectHeaders);
    f.http_cache.set_time(NOW - 5);
    let (r, _) = fetch_remote(&mut f, "https://ex.com/a.js", &mut |_| {
        response(200, &[("cache-control", "public, max-age=10")], b"A")
    });
    r.unwrap();
    let cache = std::mem::replace(&mut f.http_cache, MemoryHttpCache::new());
    let mut g = FileFetcher::new(cache, CacheSetting::RespectHeaders, true, AuthTokens::new(None));
    let (r, seen) = fetch_remote(&mut g, "https://ex.com/a.js", &mut |_| panic!("no request is due"));
    assert_eq!(r.unwrap().source.as_str(), "A");
    assert!(seen.requests.is_empty());
}

#[test]
fn not_modified_without_an_entry_is_an_error() {
    let mut f = fetcher(CacheSetting::ReloadAll);
    let (r, seen) = fetch_remote(&mut f, "https://ex.com/a.js", &mut |_| response(304, &[], b""));
    let e = r.unwrap_err();
    assert_eq!(e.kind, ErrorKind::Http);
    assert_eq!(
        e.message,
        "Import 'https://ex.com/a.js' failed: the origin answered \"not modified\" but the cache holds no entry."
    );
    assert_eq!(seen.requests.len(), 1);
    assert!(!f.cache.contains(&spec("https://ex.com/a.js")));
}

#[test]
fn transient_failure_is_retried_once() {
    let mut f = fetcher(CacheSetting::Use);
    let mut calls = 0;
    let (r, seen) = fetch_remote(&mut f, "https://ex.com/x", &mut |_| {
        calls += 1;
        if calls == 1 {
            Transport::Failed { connect: true, timeout: false, message: "connection refused".to_string() }
        } else {
            response(200, &[], b"x")
        }
    });
    assert_eq!(r.unwrap().source.as_str(), "x");
    assert_eq!(seen.requests.len(), 2);
    assert_eq!(seen.waits, vec![50]);
    assert_eq!(RETRY_DELAY_MS, 50);
    // A later fetch of the same URL makes no request.
    let (r, seen) = fetch_remote(&mut f, "https://ex.com/x", &mut |_| panic!("no request is due"));
    assert_eq!(r.unwrap().source.as_str(), "x");
    assert!(seen.requests.is_empty());
}

#[test]
fn second_transient_failure_is_fatal() {
    let mut f = fetcher(CacheSetting::Use);
    let (r, seen) = fetch_remote(&mut f, "https://ex.com/x", &mut |_| Transport::Failed {
        connect: false,
        timeout: true,
        message: "timed out".to_string(),
    });
    let e = r.unwrap_err();
    assert_eq!(e.kind, ErrorKind::Http);
    assert_eq!(e.message, "Import 'https://ex.com/x' failed: timed out");
    assert_eq!(seen.requests.len(), 2);
    assert_eq!(seen.waits, vec![50]);
}

#[test]
fn server_error_is_retried_once_and_then_fatal() {
    let mut f = fetcher(CacheSetting::Use);
    let (r, seen) = fetch_remote(&mut f, "https://ex.com/x", &mut |_| response(500, &[], b""));
    let e = r.unwrap_err();
    assert_eq!(e.message, "Import 'https://ex.com/x' failed: 500 Internal Server Error");
    assert_eq!(seen.requests.len(), 2);
    let mut calls = 0;
    let (r, _) = fetch_remote(&mut f, "https://ex.com/y", &mut |_| {
        calls += 1;
        if calls == 1 { response(503, &[], b"") } else { response(200, &[], b"y") }
    });
    assert_eq!(r.unwrap().source.as_str(), "y");
}

#[test]
fn each_hop_has_its_own_retry() {
    let mut f = fetcher(CacheSetting::Use);
    let mut calls = 0;
    let (r, seen) = fetch_remote(&mut f, "https://a/x", &mut |args| {
        calls += 1;
        match (args.url.as_str(), calls) {
            ("https://a/x", 1) => response(502, &[], b""),
            ("https://a/x", 2) => response(301, &[("location", "https://b/y")], b""),
            ("https://b/y", 3) => response(502, &[], b""),
            ("https://b/y", 4) => response(200, &[], b"ok"),
            other => panic!("unexpected request {:?}", other),
        }
    });
    assert_eq!(r.unwrap().source.as_str(), "ok");
    assert_eq!(seen.waits, vec![50, 50]);
}

#[test]
fn other_transport_failures_are_fatal_at_once() {
    let mut f = fetcher(CacheSetting::Use);
    let (r, seen) = fetch_remote(&mut f, "https://ex.com/x", &mut |_| Transport::Failed {
        connect: false,
        timeout: false,
        message: "invalid certificate".to_string(),
    });
    let e = r.unwrap_err();
    assert_eq!(e.kind, ErrorKind::Http);
    assert_eq!(e.message, "invalid certificate");
    assert_eq!(seen.requests.len(), 1);
    assert!(seen.waits.is_empty());
}

#[test]
fn client_errors_are_fatal() {
    let mut f = fetcher(CacheSetting::Use);
    let (r, seen) = fetch_remote(&mut f, "https://ex.com/x", &mut |_| response(404, &[], b""));
    let e = r.unwrap_err();
    assert_eq!(e.kind, ErrorKind::NotFound);
    assert_eq!(e.message, "Import 'https://ex.com/x' failed, not found.");
    assert_eq!(seen.requests.len(), 1);
    let (r, _) = fetch_remote(&mut f, "https://ex.com/x", &mut |_| response(403, &[], b""));
    let e = r.unwrap_err();
    assert_eq!(e.kind, ErrorKind::Http);
    assert_eq!(e.message, "Import 'https://ex.com/x' failed: 403 Forbidden");
    assert_eq!(f.http_cache.len(), 0);
}

#[test]
fn cache_only_miss_is_not_cached() {
    let mut f = fetcher(CacheSetting::Only);
    let (r, seen) = fetch_remote(&mut f, "https://ex.com/x", &mut |_| panic!("no request is due"));
    let e = r.unwrap_err();
    assert_eq!(e.kind, ErrorKind::NotCached);
    assert_eq!(
        e.message,
        "Specifier not found in cache: \"https://ex.com/x\", --cached-only is specified."
    );
    assert!(seen.requests.is_empty());
}

#[test]
fn cache_only_hit_follows_stored_redirects() {
    let mut f = fetcher(CacheSetting::Use);
    let (r, _) = fetch_remote(&mut f, "https://a/x", &mut |args| match args.url.as_str() {
        "https://a/x" => response(301, &[("location", "/y.ts")], b""),
        _ => response(200, &[("content-type", "text/typescript")], b"let y;"),
    });
    r.unwrap();
    let cache = std::mem::replace(&mut f.http_cache, MemoryHttpCache::new());
    let mut g = FileFetcher::new(cache, CacheSetting::Only, true, AuthTokens::new(None));
    let (r, seen) = fetch_remote(&mut g, "https://a/x", &mut |_| panic!("no request is due"));
    let file = r.unwrap();
    assert_eq!(file.specifier.as_str(), "https://a/y.ts");
    assert_eq!(file.source.as_str(), "let y;");
    assert_eq!(file.media_type, MediaType::TypeScript);
    assert!(seen.requests.is_empty());
    assert!(g.fetch_cached(&spec("https://a/x"), 0).unwrap_err().message == "Too many redirects.");
    assert!(g.fetch_cached(&spec("https://a/x"), 1).unwrap().is_some());
    assert!(g.fetch_cached(&spec("https://a/x"), -1).is_err());
    assert!(g.fetch_cached(&spec("https://a/nothing"), 10).unwrap().is_none());
}

#[test]
fn reload_all_asks_again_and_still_writes() {
    let mut f = fetcher(CacheSetting::Use);
    let (r, _) = fetch_remote(&mut f, "https://ex.com/a.js", &mut |_| response(200, &[], b"A"));
    r.unwrap();
    let cache = std::mem::replace(&mut f.http_cache, MemoryHttpCache::new());
    let mut g = FileFetcher::new(cache, CacheSetting::ReloadAll, true, AuthTokens::new(None));
    let (r, seen) = fetch_remote(&mut g, "https://ex.com/a.js", &mut |_| response(200, &[], b"B"));
    assert_eq!(r.unwrap().source.as_str(), "B");
    assert_eq!(seen.requests.len(), 1);
    let key = g.http_cache.cache_item_key(&spec("https://ex.com/a.js"));
    assert_eq!(g.http_cache.read_file_bytes(&key).unwrap().unwrap(), b"B".to_vec());
}

#[test]
fn reload_some_bypasses_the_cache_below_its_entries() {
    let mut f = fetcher(CacheSetting::Use);
    for url in ["https://ex.com/a/b.ts", "https://ex.com/b/c.ts"] {
        let (r, _) = fetch_remote(&mut f, url, &mut |_| response(200, &[], b"old"));
        r.unwrap();
    }
    let cache = std::mem::replace(&mut f.http_cache, MemoryHttpCache::new());
    let setting = CacheSetting::ReloadSome(vec!["https://ex.com/a/".to_string()]);
    let mut g = FileFetcher::new(cache, setting, true, AuthTokens::new(None));
    let (r, seen) = fetch_remote(&mut g, "https://ex.com/a/b.ts", &mut |_| response(200, &[], b"new"));
    assert_eq!(r.unwrap().source.as_str(), "new");
    assert_eq!(seen.requests.len(), 1);
    let (r, seen) = fetch_remote(&mut g, "https://ex.com/b/c.ts", &mut |_| panic!("no request is due"));
    assert_eq!(r.unwrap().source.as_str(), "old");
    assert!(seen.requests.is_empty());
    assert!(!g.should_use_cache(&spec("https://ex.com/a/"), g.cache_setting(), NOW));
    assert!(g.should_use_cache(&spec("https://ex.com/b/c.ts"), g.cache_setting(), NOW));
}

#[test]
fn should_use_cache_by_setting() {
    let f = fetcher(CacheSetting::Use);
    let s = spec("https://ex.com/a.js");
    assert!(f.should_use_cache(&s, &CacheSetting::Use, NOW));
    assert!(f.should_use_cache(&s, &CacheSetting::Only, NOW));
    assert!(!f.should_use_cache(&s, &CacheSetting::ReloadAll, NOW));
    // Nothing stored: not fresh.
    assert!(!f.should_use_cache(&s, &CacheSetting::RespectHeaders, NOW));
}

#[test]
fn options_override_the_default_setting_and_carry_accept() {
    let mut f = fetcher(CacheSetting::Only);
    let options = FetchOptions {
        specifier: spec("https://ex.com/a.js"),
        permissions: AllowAll,
        maybe_accept: Some("application/typescript".to_string()),
        maybe_cache_setting: Some(CacheSetting::Use),
    };
    let mut seen = Seen { requests: vec![], waits: vec![] };
    let first = f.fetch_with_options(&options, NOW);
    let r = drive(&mut f, &AllowAll, first, &mut |_| response(200, &[], b"1;"), &mut seen);
    r.unwrap();
    assert_eq!(seen.requests[0].1, vec![("accept".to_string(), "application/typescript".to_string())]);
}

#[test]
fn token_is_sent_to_its_host_only() {
    let tokens = AuthTokens::new(Some("abc123@ex.com;user:pass@basic.example;nonsense;t2@Other.Example:8080".to_string()));
    assert_eq!(tokens.tokens.len(), 2);
    assert_eq!(tokens.tokens[1].host, "other.example:8080");
    assert_eq!(tokens.get(&spec("https://api.ex.com/a")), Some("Bearer abc123".to_string()));
    assert_eq!(tokens.get(&spec("https://other.example:8080/a")), Some("Bearer t2".to_string()));
    assert_eq!(tokens.get(&spec("https://other.example/a")), None);
    assert_eq!(tokens.get(&spec("data:text/plain,hi")), None);
    let mut f = FileFetcher::new(MemoryHttpCache::new(), CacheSetting::Use, true, tokens);
    let (r, seen) = fetch_remote(&mut f, "https://ex.com/a.js", &mut |_| response(200, &[], b"1;"));
    r.unwrap();
    assert_eq!(seen.requests[0].1, vec![("authorization".to_string(), "Bearer abc123".to_string())]);
    let (r, seen) = fetch_remote(&mut f, "https://elsewhere.org/a.js", &mut |_| response(200, &[], b"1;"));
    r.unwrap();
    assert!(seen.requests[0].1.is_empty());
}

#[test]
fn request_headers_in_order_and_validated() {
    let args = FetchOnceArgs {
        url: spec("https://ex.com/a"),
        maybe_accept: Some("*/*".to_string()),
        maybe_etag: Some("\"v1\"".to_string()),
        maybe_auth_token: Some("Bearer t".to_string()),
    };
    assert_eq!(
        request_headers(&args).unwrap(),
        vec![
            ("if-none-match".to_string(), "\"v1\"".to_string()),
            ("authorization".to_string(), "Bearer t".to_string()),
            ("accept".to_string(), "*/*".to_string()),
        ]
    );
    let args = FetchOnceArgs {
        url: spec("https://ex.com/a"),
        maybe_accept: Some("bad\nvalue".to_string()),
        maybe_etag: None,
        maybe_auth_token: Some("tab\tis fine é".to_string()),
    };
    let e = request_headers(&args).unwrap_err();
    assert_eq!(e.kind, ErrorKind::Http);
    assert_eq!(e.message, "The value for the header \"accept\" is not a header value.");
}

#[test]
fn response_headers_are_lowercased_and_joined() {
    let mut f = fetcher(CacheSetting::Use);
    let (r, _) = fetch_remote(&mut f, "https://ex.com/a.js", &mut |_| {
        response(
            200,
            &[("Set-Cookie", "a=1"), ("Content-Type", "text/javascript"), ("set-cookie", "b=2"), ("X-TypeScript-Types", "./a.d.ts")],
            b"1;",
        )
    });
    let file = r.unwrap();
    let headers = file.maybe_headers.unwrap();
    assert_eq!(headers.len(), 3);
    assert_eq!(headers.get("set-cookie"), Some(&"a=1,b=2".to_string()));
    assert_eq!(headers.get("content-type"), Some(&"text/javascript".to_string()));
    assert_eq!(file.maybe_types, Some("./a.d.ts".to_string()));
}

#[test]
fn declared_types_are_kept_for_the_javascript_family_only() {
    let mut f = fetcher(CacheSetting::Use);
    let (r, _) = fetch_remote(&mut f, "https://ex.com/a.ts", &mut |_| {
        response(200, &[("content-type", "application/typescript"), ("x-typescript-types", "./a.d.ts")], b"1;")
    });
    assert_eq!(r.unwrap().maybe_types, None);
}

#[test]
fn body_that_does_not_decode_is_an_encoding_error() {
    let mut f = fetcher(CacheSetting::Use);
    let (r, _) = fetch_remote(&mut f, "https://ex.com/a.js", &mut |_| {
        response(200, &[("content-type", "text/javascript; charset=utf-8")], &[0xff, 0xfe])
    });
    assert_eq!(r.unwrap_err().kind, ErrorKind::Encoding);
    assert!(!f.cache.contains(&spec("https://ex.com/a.js")));
}

#[test]
fn failure_to_record_a_redirect_is_fatal() {
    let mut f = FileFetcher::new(ReadOnlyCache, CacheSetting::Use, true, AuthTokens::new(None));
    let (r, seen) = fetch_remote(&mut f, "https://a/x", &mut |_| response(301, &[("location", "https://b/y")], b""));
    let e = r.unwrap_err();
    assert_eq!(e.message, "the cache cannot be written");
    assert_eq!(seen.requests.len(), 1);
}

#[test]
fn every_file_is_text_under_a_supported_scheme() {
    let mut f = fetcher(CacheSetting::Use);
    let mut files = vec![];
    let (r, _) = fetch_remote(&mut f, "https://a/x", &mut |args| match args.url.as_str() {
        "https://a/x" => response(301, &[("location", "http://b/y.ts")], b""),
        _ => response(200, &[("content-type", "text/plain; charset=windows-1252")], &[0x93, 0x68, 0x69, 0x94]),
    });
    files.push(r.unwrap());
    let data = spec("data:text/javascript,1%3B");
    match f.fetch(&data, &AllowAll, NOW) {
        FetchStep::Done(r) => files.push(r.unwrap()),
        other => panic!("unexpected {:?}", other),
    }
    let blob = spec("blob:https://ex.com/0f0e");
    files.push(f.on_blob(blob, Some(Blob { media_type: "text/css".to_string(), bytes: b"a{}".to_vec() })).unwrap());
    files.push(fetch_local(&spec("file:///tmp/a.mjs"), b"2;".to_vec()).unwrap());
    // Served from the session cache.
    match f.fetch(&spec("https://a/x"), &AllowAll, NOW) {
        FetchStep::Done(r) => files.push(r.unwrap()),
        other => panic!("unexpected {:?}", other),
    }
    let schemes: Vec<&str> = files.iter().map(|file| file.specifier.scheme()).collect();
    assert_eq!(schemes, vec!["http", "data", "blob", "file", "http"]);
    for file in &files {
        assert!(module_fetcher::specifier::get_validated_scheme(&file.specifier).is_ok());
        assert!(std::str::from_utf8(file.source.as_bytes()).is_ok());
    }
    assert_eq!(files[0].source.as_str(), "\u{201c}hi\u{201d}");
    assert_eq!(files[0], files[4]);
}

#[test]
fn two_fetches_make_one_request() {
    let mut f = fetcher(CacheSetting::Use);
    let (first, seen) = fetch_remote(&mut f, "https://ex.com/a.ts", &mut |_| response(200, &[("etag", "1")], b"let a;"));
    assert_eq!(seen.requests.len(), 1);
    let (second, seen) = fetch_remote(&mut f, "https://ex.com/a.ts", &mut |_| panic!("no request is due"));
    assert!(seen.requests.is_empty());
    let (first, second) = (first.unwrap(), second.unwrap());
    assert_eq!(first, second);
    assert_eq!(first.source.as_str(), "let a;");
    assert_eq!(first.maybe_headers.unwrap().get("etag"), Some(&"1".to_string()));
}

#[test]
fn insert_cached_then_get_source() {
    let mut f = fetcher(CacheSetting::Use);
    let s = spec("https://ex.com/seeded.ts");
    let file = File {
        maybe_types: None,
        media_type: MediaType::TypeScript,
        source: Arc::new("let seeded;".to_string()),
        specifier: s.clone(),
        maybe_headers: None,
    };
    assert!(matches!(f.get_source(&s), SourceLookup::Nothing));
    assert!(f.insert_cached(file.clone()).is_none());
    match f.get_source(&s) {
        SourceLookup::Found(found) => {
            assert_eq!(found, file);
            assert_eq!(found.source.as_str(), "let seeded;");
        }
        other => panic!("expected the seeded file, got {:?}", other),
    }
    let prior = f.insert_cached(file.clone()).unwrap();
    assert_eq!(prior, file);
    // A fetch is served the seeded file.
    assert!(matches!(f.fetch(&s, &AllowAll, NOW), FetchStep::Done(Ok(_))));
}

#[test]
fn log_level_and_setting_accessors() {
    let mut f = fetcher(CacheSetting::ReloadAll);
    assert_eq!(f.download_log_level, LogLevel::Info);
    f.set_download_log_level(LogLevel::Debug);
    assert_eq!(f.download_log_level, LogLevel::Debug);
    assert!(matches!(f.cache_setting(), CacheSetting::ReloadAll));
}

#[test]
fn statuses_outside_the_classes_give_the_body() {
    let url = spec("https://ex.com/a");
    let r = fetch_once(&url, response(204, &[], b"")).unwrap();
    assert!(matches!(r, module_fetcher::fetch_once::FetchOnceResult::Code(..)));
    let r = fetch_once(&url, response(600, &[], b"odd")).unwrap();
    assert!(matches!(r, module_fetcher::fetch_once::FetchOnceResult::Code(..)));
    let r = fetch_once(&url, response(599, &[], b"")).unwrap();
    assert!(matches!(r, module_fetcher::fetch_once::FetchOnceResult::ServerError(599)));
    let r = fetch_once(&url, response(304, &[("location", "/x")], b"")).unwrap();
    assert!(matches!(r, module_fetcher::fetch_once::FetchOnceResult::NotModified));
}
