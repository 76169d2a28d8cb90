//! The kinds of source that a specifier and a content type can name.

use crate::media_type::MediaType::{
    Cjs, Css, Cts, Dcts, Dmts, Dts, Html, JavaScript, Json, Json5, Jsonc, Jsx, Markdown, Mjs, Mts,
    SourceMap, Sql, Tsx, TypeScript, Unknown, Wasm,
};
use deno_ast::MediaType as Outside;
use vstd::prelude::*;

verus! {

/// A kind of source.
#[derive(Clone, Copy, Debug, PartialEq, Eq, Structural)]
pub enum MediaType {
    JavaScript,
    Jsx,
    Mjs,
    Cjs,
    TypeScript,
    Mts,
    Cts,
    Dts,
    Dmts,
    Dcts,
    Tsx,
    Css,
    Json,
    Jsonc,
    Json5,
    Html,
    Markdown,
    Sql,
    Wasm,
    SourceMap,
    Unknown,
}

/// A content type, or its absence, as a plain value.
pub open spec fn content_type_view(content_type: Option<&str>) -> Option<Seq<char>> {
    match content_type {
        Some(s) => Some(s@),
        None => None,
    }
}

/// What `deno_ast` makes of a URL and, where there is one, a content type:
/// `None` where the URL does not parse.
pub uninterp spec fn outside_media_type(specifier: Seq<char>, content_type: Option<Seq<char>>)
    -> Option<MediaType>;

/// `MediaType::from_specifier_and_content_type` of `deno_ast`, on the URL that
/// `specifier` parses to: with a content type it decides by the content type's
/// first part and, for the script types, by the URL's path; without one by the
/// path alone. The result is the variant of the same name, and depends on the
/// two arguments only.
#[verifier::external_body]
fn media_type_outside(specifier: &str, content_type: Option<&str>) -> (r: Option<MediaType>)
    ensures
        r == outside_media_type(specifier@, content_type_view(content_type)),
{
    let url = url::Url::parse(specifier).ok()?;
    Some(match Outside::from_specifier_and_content_type(&url, content_type) {
        Outside::JavaScript => JavaScript, Outside::Jsx => Jsx,
        Outside::Mjs => Mjs, Outside::Cjs => Cjs,
        Outside::TypeScript => TypeScript, Outside::Mts => Mts,
        Outside::Cts => Cts, Outside::Dts => Dts,
        Outside::Dmts => Dmts, Outside::Dcts => Dcts,
        Outside::Tsx => Tsx, Outside::Css => Css,
        Outside::Json => Json, Outside::Jsonc => Jsonc,
        Outside::Json5 => Json5, Outside::Html => Html,
        Outside::Markdown => Markdown, Outside::Sql => Sql,
        Outside::Wasm => Wasm, Outside::SourceMap => SourceMap,
        Outside::Unknown => Unknown,
    })
}

/// The media type of the source under `specifier` that came with
/// `content_type`: `Unknown` where `specifier` is no URL.
pub open spec fn media_type_of(specifier: Seq<char>, content_type: Option<Seq<char>>)
    -> MediaType {
    match outside_media_type(specifier, content_type) {
        Some(m) => m,
        None => MediaType::Unknown,
    }
}

impl MediaType {
    /// The media type that the specifier's path alone names.
    pub fn from_specifier(specifier: &str) -> (m: MediaType)
        ensures
            m == media_type_of(specifier@, None),
    {
        match media_type_outside(specifier, None) {
            Some(m) => m,
            None => MediaType::Unknown,
        }
    }

    /// The media type that `content_type` names for the source under
    /// `specifier`.
    pub fn from_content_type(specifier: &str, content_type: &str) -> (m: MediaType)
        ensures
            m == media_type_of(specifier@, Some(content_type@)),
    {
        match media_type_outside(specifier, Some(content_type)) {
            Some(m) => m,
            None => MediaType::Unknown,
        }
    }

    /// Whether a response of this type may name its type declarations in a
    /// header: the JavaScript family.
    pub open spec fn takes_declared_types(self) -> bool {
        self == MediaType::JavaScript || self == MediaType::Cjs || self == MediaType::Mjs || self
            == MediaType::Jsx
    }

    /// Whether a response of this type may name its type declarations in a
    /// header.
    pub fn is_js_family(&self) -> (r: bool)
        ensures
            r == self.takes_declared_types(),
    {
        match self {
            MediaType::JavaScript | MediaType::Cjs | MediaType::Mjs | MediaType::Jsx => true,
            _ => false,
        }
    }
}

} // verus!
