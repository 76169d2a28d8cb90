use module_fetcher::error::ErrorKind;
use module_fetcher::specifier::{get_validated_scheme, Scheme, Specifier};

#[test]
fn parse_keeps_the_serialization_and_its_parts() {
    let s = Specifier::parse("HTTPS://Example.COM:8443/a/../b.ts?x=1#frag").unwrap();
    assert_eq!(s.as_str(), "https://example.com:8443/b.ts?x=1#frag");
    assert_eq!(s.scheme(), "https");
    assert_eq!(s.host(), Some("example.com"));
    assert_eq!(s.port(), Some(8443));
    assert!(!s.is_local());
}

#[test]
fn default_port_is_not_named() {
    let s = Specifier::parse("https://example.com:443/").unwrap();
    assert_eq!(s.port(), None);
    assert_eq!(s.as_str(), "https://example.com/");
}

#[test]
fn parse_rejects_what_is_no_absolute_url() {
    let e = Specifier::parse("./relative.ts").unwrap_err();
    assert_eq!(e.kind, ErrorKind::Uri);
    assert_eq!(e.message, "Invalid URL: ./relative.ts");
}

#[test]
fn join_resolves_relative_and_absolute_references() {
    let base = Specifier::parse("https://a.example/x/y.ts").unwrap();
    assert_eq!(base.join("z.ts").unwrap().as_str(), "https://a.example/x/z.ts");
    assert_eq!(base.join("/root.ts").unwrap().as_str(), "https://a.example/root.ts");
    assert_eq!(base.join("//b.example/q").unwrap().as_str(), "https://b.example/q");
    assert_eq!(base.join("http://c.example/r").unwrap().as_str(), "http://c.example/r");
}

#[test]
fn join_failure_is_a_uri_error() {
    let base = Specifier::parse("https://a.example/x").unwrap();
    let e = base.join("https://[bad").unwrap_err();
    assert_eq!(e.kind, ErrorKind::Uri);
    assert_eq!(e.message, "Invalid redirect from \"https://a.example/x\" to \"https://[bad\".");
}

#[test]
fn the_five_schemes_are_validated() {
    let cases = [
        ("data:text/plain,hi", Scheme::Data),
        ("blob:https://ex.com/0f0e", Scheme::Blob),
        ("file:///tmp/x.ts", Scheme::File),
        ("http://ex.com/", Scheme::Http),
        ("https://ex.com/", Scheme::Https),
    ];
    for (text, scheme) in cases {
        let s = Specifier::parse(text).unwrap();
        assert_eq!(get_validated_scheme(&s).unwrap(), scheme);
    }
}

#[test]
fn another_scheme_is_unsupported() {
    let s = Specifier::parse("ftp://ex.com/a.ts").unwrap();
    let e = get_validated_scheme(&s).unwrap_err();
    assert_eq!(e.kind, ErrorKind::Unsupported);
    assert_eq!(
        e.message,
        "Unsupported scheme \"ftp\" for module \"ftp://ex.com/a.ts\". Supported schemes: [\n    \"data\",\n    \"blob\",\n    \"file\",\n    \"http\",\n    \"https\",\n]"
    );
    assert_eq!(e.kind_name(), "Unsupported");
}

#[test]
fn file_specifier_has_a_path_and_is_local() {
    let s = Specifier::parse("file:///tmp/x.ts").unwrap();
    assert!(s.is_local());
    assert_eq!(s.to_file_path().unwrap().to_str(), Some("/tmp/x.ts"));
    let r = Specifier::parse("https://ex.com/x.ts").unwrap();
    assert!(r.to_file_path().is_none());
}

#[test]
fn clone_and_same_as() {
    let s = Specifier::parse("https://ex.com/x.ts").unwrap();
    let t = s.clone();
    assert!(s.same_as(&t));
    assert!(!s.same_as(&Specifier::parse("https://ex.com/y.ts").unwrap()));
}

#[test]
fn a_foreign_host_names_no_path() {
    assert!(Specifier::parse("https://example.com/tmp/x.ts").unwrap().to_file_path().is_none());
    assert!(Specifier::parse("http://127.0.0.1/tmp/x.ts").unwrap().to_file_path().is_none());
    let local = Specifier::parse("file://localhost/tmp/x.ts").unwrap();
    assert_eq!(local.to_file_path().unwrap().to_str(), Some("/tmp/x.ts"));
    let spaced = Specifier::parse("file:///tmp/a%20b.ts").unwrap();
    assert_eq!(spaced.to_file_path().unwrap().to_str(), Some("/tmp/a b.ts"));
}
