//! The source file that a fetch produces.

use crate::content_type::{content_type_parts, map_content_type};
use crate::decode::{get_source_from_bytes, source_from_bytes, text_view};
use crate::error::{FetchError, FetchErrorView};
use crate::headers::HeadersMap;
use crate::media_type::MediaType;
use crate::specifier::Specifier;
use crate::text::str_eq;
use std::sync::Arc;
use vstd::prelude::*;
use vstd::std_specs::cmp::PartialEqSpecImpl;
use vstd::utf8::{encode_utf8, valid_utf8};

verus! {

/// A structure representing a source file.
#[derive(Debug)]
pub struct File {
    /// For remote files, if there was an `X-TypeScript-Type` header, the parsed
    /// out value of that header.
    pub maybe_types: Option<String>,
    /// The resolved media type for the file.
    pub media_type: MediaType,
    /// The source of the file as a string, shared by all the copies of the
    /// file.
    pub source: Arc<String>,
    /// The _final_ specifier for the file.  The requested specifier and the final
    /// specifier maybe different for remote files that have been redirected.
    pub specifier: Specifier,
    /// The headers of the response, for files that are not local.
    pub maybe_headers: Option<HeadersMap>,
}

/// A `File` as a plain value.
pub struct FileView {
    pub maybe_types: Option<Seq<char>>,
    pub media_type: MediaType,
    pub source: Seq<char>,
    pub specifier: Seq<char>,
    pub maybe_headers: Option<Map<Seq<char>, Seq<char>>>,
}

/// Headers, or their absence, as a plain value.
pub open spec fn headers_view(headers: Option<HeadersMap>) -> Option<Map<Seq<char>, Seq<char>>> {
    match headers {
        Some(h) => Some(h@),
        None => None,
    }
}

impl View for File {
    type V = FileView;

    open spec fn view(&self) -> FileView {
        FileView {
            maybe_types: text_view(self.maybe_types),
            media_type: self.media_type,
            source: self.source@,
            specifier: self.specifier@,
            maybe_headers: headers_view(self.maybe_headers),
        }
    }
}

/// `Arc::clone`: another pointer to the same value.
#[verifier::external_body]
fn share(text: &Arc<String>) -> (r: Arc<String>)
    ensures
        r == *text,
{
    Arc::clone(text)
}

/// Whether the two hold the same text, or both none.
fn same_text(a: &Option<String>, b: &Option<String>) -> (r: bool)
    ensures
        r == (text_view(*a) == text_view(*b)),
{
    match (a, b) {
        (Some(a), Some(b)) => str_eq(a.as_str(), b.as_str()),
        (None, None) => true,
        _ => false,
    }
}

impl File {
    /// Whether the two files are the same in every part.
    pub fn same_as(&self, other: &File) -> (r: bool)
        ensures
            r == (self@ == other@),
    {
        let same_headers = match (&self.maybe_headers, &other.maybe_headers) {
            (Some(a), Some(b)) => a.same_as(b),
            (None, None) => true,
            _ => false,
        };
        same_headers && same_text(&self.maybe_types, &other.maybe_types) && self.media_type
            == other.media_type && str_eq(self.source.as_str(), other.source.as_str())
            && self.specifier.same_as(&other.specifier)
    }
}

impl PartialEq for File {
    fn eq(&self, other: &File) -> (r: bool) {
        self.same_as(other)
    }
}

impl PartialEqSpecImpl for File {
    open spec fn obeys_eq_spec() -> bool {
        true
    }

    open spec fn eq_spec(&self, other: &File) -> bool {
        self@ == other@
    }
}

impl Clone for File {
    fn clone(&self) -> (r: Self)
        ensures
            r@ == self@,
    {
        let maybe_types = match &self.maybe_types {
            Some(t) => Some(t.clone()),
            None => None,
        };
        let maybe_headers = match &self.maybe_headers {
            Some(h) => Some(h.clone()),
            None => None,
        };
        File {
            maybe_types,
            media_type: self.media_type,
            source: share(&self.source),
            specifier: self.specifier.clone(),
            maybe_headers,
        }
    }
}

/// The source of a file is valid UTF-8.
pub proof fn lemma_source_is_utf8(file: FileView)
    ensures
        valid_utf8(encode_utf8(file.source)),
{
    broadcast use vstd::utf8::encode_utf8_valid_utf8;

}

/// A file, or the error in place of it, as a plain value.
pub open spec fn file_view(r: Result<File, FetchError>) -> Result<FileView, FetchErrorView> {
    match r {
        Ok(f) => Ok(f@),
        Err(e) => Err(e@),
    }
}

/// A file, or its absence, as a plain value.
pub open spec fn some_file_view(r: Option<File>) -> Option<FileView> {
    match r {
        Some(f) => Some(f@),
        None => None,
    }
}

/// The name of the header that holds the content type.
pub open spec fn content_type_name() -> Seq<char> {
    "content-type"@
}

/// The name of the header that names the type declarations of a script.
pub open spec fn types_name() -> Seq<char> {
    "x-typescript-types"@
}

/// The value under `name`, where there is one.
pub open spec fn header(headers: Map<Seq<char>, Seq<char>>, name: Seq<char>) -> Option<
    Seq<char>,
> {
    if headers.contains_key(name) {
        Some(headers[name])
    } else {
        None
    }
}

/// The file that the response to `specifier` with the body `bytes` and the
/// headers `headers` stands for. The content type header gives the media type
/// and the character encoding; the bytes must decode. The header
/// `x-typescript-types` is kept for the JavaScript family only.
pub open spec fn remote_file(
    specifier: Seq<char>,
    bytes: Seq<u8>,
    headers: Map<Seq<char>, Seq<char>>,
) -> Result<FileView, FetchErrorView> {
    let parts = content_type_parts(specifier, header(headers, content_type_name()));
    match source_from_bytes(bytes, parts.1) {
        Ok(source) => Ok(
            FileView {
                maybe_types: if parts.0.takes_declared_types() {
                    header(headers, types_name())
                } else {
                    None
                },
                media_type: parts.0,
                source,
                specifier,
                maybe_headers: Some(headers),
            },
        ),
        Err(e) => Err(e),
    }
}

/// Creates a `File` structure for a remote file.
pub fn build_remote_file(specifier: &Specifier, bytes: Vec<u8>, headers: &HeadersMap) -> (r: Result<
    File,
    FetchError,
>)
    ensures
        file_view(r) == remote_file(specifier@, bytes@, headers@),
{
    let maybe_content_type = headers.get("content-type");
    let (media_type, maybe_charset) = map_content_type(specifier, maybe_content_type);
    let source = match get_source_from_bytes(bytes, maybe_charset) {
        Ok(source) => source,
        Err(e) => {
            return Err(e);
        },
    };
    let maybe_types = if media_type.is_js_family() {
        match headers.get("x-typescript-types") {
            Some(types) => Some(types.clone()),
            None => None,
        }
    } else {
        None
    };
    Ok(
        File {
            maybe_types,
            media_type,
            source: Arc::new(source),
            specifier: specifier.clone(),
            maybe_headers: Some(headers.clone()),
        },
    )
}

} // verus!
