use module_fetcher::cache_setting::{is_reload_listed, CacheSetting};
use module_fetcher::content_type::map_content_type;
use module_fetcher::data_url::get_source_from_data_url;
use module_fetcher::error::ErrorKind;
use module_fetcher::headers::HeadersMap;
use module_fetcher::media_type::MediaType;
use module_fetcher::specifier::Specifier;

fn spec(text: &str) -> Specifier {
    Specifier::parse(text).unwrap()
}

#[test]
fn content_type_gives_media_type_and_charset() {
    let s = spec("https://ex.com/a");
    let ct = "application/javascript; charset=utf-8".to_string();
    assert_eq!(map_content_type(&s, Some(&ct)), (MediaType::JavaScript, Some("utf-8".to_string())));
    let ct = "text/typescript".to_string();
    assert_eq!(map_content_type(&s, Some(&ct)), (MediaType::TypeScript, None));
}

#[test]
fn charset_is_the_first_matching_later_part() {
    let s = spec("https://ex.com/a");
    let ct = "text/javascript;foo=bar;  charset=latin1 ;charset=utf-8".to_string();
    assert_eq!(map_content_type(&s, Some(&ct)).1, Some("latin1".to_string()));
    // The first part is never taken for the charset.
    let ct = "charset=utf-8".to_string();
    assert_eq!(map_content_type(&s, Some(&ct)), (MediaType::Unknown, None));
    let ct = "text/javascript;".to_string();
    assert_eq!(map_content_type(&s, Some(&ct)).1, None);
    let ct = "text/javascript;charset=".to_string();
    assert_eq!(map_content_type(&s, Some(&ct)).1, Some(String::new()));
}

#[test]
fn the_path_wins_where_it_is_unambiguous() {
    let ct = "application/javascript".to_string();
    assert_eq!(map_content_type(&spec("https://ex.com/a.tsx"), Some(&ct)).0, MediaType::Tsx);
    assert_eq!(map_content_type(&spec("https://ex.com/a.d.ts"), Some(&ct)).0, MediaType::Dts);
}

#[test]
fn without_content_type_the_path_decides() {
    assert_eq!(map_content_type(&spec("https://ex.com/a.ts"), None), (MediaType::TypeScript, None));
    assert_eq!(map_content_type(&spec("https://ex.com/a.json"), None), (MediaType::Json, None));
}

#[test]
fn data_url_source_and_content_type() {
    let s = spec("data:application/typescript;base64,ZXhwb3J0IHt9Ow==");
    let (source, content_type) = get_source_from_data_url(&s).unwrap();
    assert_eq!(source, "export {};");
    assert_eq!(content_type, "application/typescript");
}

#[test]
fn data_url_with_charset_parameter() {
    let s = spec("data:text/javascript;charset=iso-8859-1,caf%E9");
    let (source, content_type) = get_source_from_data_url(&s).unwrap();
    assert_eq!(source, "café");
    assert_eq!(content_type, "text/javascript;charset=iso-8859-1");
}

#[test]
fn data_url_without_comma_is_a_uri_error() {
    let s = spec("data:text/plain");
    let e = get_source_from_data_url(&s).unwrap_err();
    assert_eq!(e.kind, ErrorKind::Uri);
    assert_eq!(e.message, "NoComma");
}

#[test]
fn data_url_with_bad_base64_is_a_uri_error() {
    let s = spec("data:text/plain;base64,!!!!");
    let e = get_source_from_data_url(&s).unwrap_err();
    assert_eq!(e.kind, ErrorKind::Uri);
}

#[test]
fn data_url_with_undecodable_body_is_an_encoding_error() {
    let s = spec("data:text/plain;charset=utf-8,%FF");
    let e = get_source_from_data_url(&s).unwrap_err();
    assert_eq!(e.kind, ErrorKind::Encoding);
}

#[test]
fn reload_list_covers_what_lies_below_an_entry() {
    let list = vec!["https://ex.com/a/".to_string()];
    assert!(is_reload_listed(&list, &spec("https://ex.com/a/b.ts")));
    assert!(is_reload_listed(&list, &spec("https://ex.com/a/")));
    assert!(!is_reload_listed(&list, &spec("https://ex.com/b/c.ts")));
}

#[test]
fn reload_list_entry_without_slash_and_deeper_paths() {
    let list = vec!["https://ex.com/a".to_string()];
    assert!(is_reload_listed(&list, &spec("https://ex.com/a/b/c/d.ts?x=1#top")));
    assert!(is_reload_listed(&list, &spec("https://ex.com/a")));
    assert!(!is_reload_listed(&list, &spec("https://ex.com/ab/c.ts")));
    assert!(!is_reload_listed(&list, &spec("https://ex.com/")));
}

#[test]
fn reload_list_compares_the_whole_url_without_fragment() {
    let list = vec!["https://ex.com/a.ts?v=2".to_string()];
    assert!(is_reload_listed(&list, &spec("https://ex.com/a.ts?v=2#frag")));
    assert!(!is_reload_listed(&list, &spec("https://ex.com/a.ts?v=3")));
    assert!(!is_reload_listed(&list, &spec("https://ex.com/a.ts")));
}

#[test]
fn reload_list_host_and_scheme_entries() {
    assert!(is_reload_listed(&vec!["https://ex.com".to_string()], &spec("https://ex.com/x/y.ts")));
    assert!(is_reload_listed(&vec!["https:".to_string()], &spec("https://ex.com/x/y.ts")));
    assert!(is_reload_listed(&vec![String::new()], &spec("https://ex.com/x/y.ts")));
    assert!(!is_reload_listed(&vec!["https://ex.co".to_string()], &spec("https://ex.com/x/y.ts")));
    assert!(!is_reload_listed(&vec![], &spec("https://ex.com/x/y.ts")));
}

#[test]
fn cache_setting_clone_and_only() {
    let s = CacheSetting::ReloadSome(vec!["https://ex.com/a/".to_string()]);
    match s.clone() {
        CacheSetting::ReloadSome(list) => assert_eq!(list, vec!["https://ex.com/a/".to_string()]),
        _ => panic!("the clone is another setting"),
    }
    assert!(CacheSetting::Only.is_only());
    assert!(!CacheSetting::Use.is_only());
}

#[test]
fn headers_map_insert_get_and_replace() {
    let mut h = HeadersMap::new();
    assert_eq!(h.len(), 0);
    assert_eq!(h.get("etag"), None);
    h.insert("etag".to_string(), "\"v1\"".to_string());
    h.insert("content-type".to_string(), "text/plain".to_string());
    assert_eq!(h.get("etag"), Some(&"\"v1\"".to_string()));
    h.insert("etag".to_string(), "\"v2\"".to_string());
    assert_eq!(h.len(), 2);
    assert_eq!(h.get("etag"), Some(&"\"v2\"".to_string()));
    assert!(h.contains("content-type"));
    assert!(!h.contains("location"));
    let c = h.clone();
    assert_eq!(c.len(), 2);
    assert_eq!(c.pair_at(0), (&"etag".to_string(), &"\"v2\"".to_string()));
}
