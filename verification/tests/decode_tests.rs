use module_fetcher::decode::{detect_charset, get_source_from_bytes};
use module_fetcher::error::ErrorKind;
use module_fetcher::media_type::MediaType;

#[test]
fn utf8_without_charset() {
    let r = get_source_from_bytes(b"export const a = 1;\n".to_vec(), None);
    assert_eq!(r.unwrap(), "export const a = 1;\n");
}

#[test]
fn invalid_utf8_without_charset_is_an_encoding_error() {
    let e = get_source_from_bytes(vec![0x66, 0xff, 0x6f], None).unwrap_err();
    assert_eq!(e.kind, ErrorKind::Encoding);
    assert_eq!(e.message, "The bytes are not valid UTF-8 text.");
}

#[test]
fn latin1_charset_is_decoded() {
    let r = get_source_from_bytes(vec![0x63, 0x61, 0x66, 0xe9], Some("iso-8859-1".to_string()));
    assert_eq!(r.unwrap(), "café");
}

#[test]
fn utf16le_charset_is_decoded() {
    let r = get_source_from_bytes(vec![0x68, 0x00, 0x69, 0x00], Some("utf-16le".to_string()));
    assert_eq!(r.unwrap(), "hi");
}

#[test]
fn malformed_in_known_charset_is_an_encoding_error() {
    let e = get_source_from_bytes(vec![0x68, 0x00, 0x69], Some("utf-16le".to_string())).unwrap_err();
    assert_eq!(e.kind, ErrorKind::Encoding);
    assert_eq!(e.message, "The bytes are not valid utf-16le text.");
}

#[test]
fn unknown_charset_falls_back_to_utf8() {
    let r = get_source_from_bytes("héllo".as_bytes().to_vec(), Some("no-such-charset".to_string()));
    assert_eq!(r.unwrap(), "héllo");
    let e = get_source_from_bytes(vec![0xff], Some("no-such-charset".to_string())).unwrap_err();
    assert_eq!(e.kind, ErrorKind::Encoding);
}

#[test]
fn charset_is_detected_from_the_byte_order_mark() {
    assert_eq!(detect_charset(&vec![0xff, 0xfe, 0x68, 0x00]), "utf-16le");
    assert_eq!(detect_charset(&vec![0xfe, 0xff, 0x00, 0x68]), "utf-16be");
    assert_eq!(detect_charset(&vec![0x68, 0x69]), "utf-8");
    assert_eq!(detect_charset(&vec![0xff]), "utf-8");
    assert_eq!(detect_charset(&vec![]), "utf-8");
}

#[test]
fn media_type_from_path_and_content_type() {
    assert_eq!(MediaType::from_specifier("https://ex.com/a/b.ts"), MediaType::TypeScript);
    assert_eq!(MediaType::from_specifier("https://ex.com/a/b.tsx"), MediaType::Tsx);
    assert_eq!(MediaType::from_specifier("https://ex.com/a/b"), MediaType::Unknown);
    assert_eq!(MediaType::from_specifier("not a url"), MediaType::Unknown);
    assert_eq!(
        MediaType::from_content_type("https://ex.com/a/b", "application/javascript"),
        MediaType::JavaScript
    );
    assert_eq!(
        MediaType::from_content_type("https://ex.com/a/b.mjs", "application/javascript"),
        MediaType::Mjs
    );
    assert_eq!(
        MediaType::from_content_type("https://ex.com/a/b", "application/json; charset=utf-8"),
        MediaType::Json
    );
    assert_eq!(MediaType::from_content_type("https://ex.com/a/b", "application/wasm"), MediaType::Wasm);
}
