//! Module specifiers: absolute URLs, held as their serialization together
//! with the parts of it that the fetcher reads.

use crate::decode::text_view;
use crate::error::{invalid_redirect, invalid_uri, unsupported_scheme, FetchError, FetchErrorView};
use crate::text::{find, str_eq};
use std::path::PathBuf;
use vstd::prelude::*;
use vstd::std_specs::cmp::PartialEqSpecImpl;
use vstd::string::StringExecFns;

verus! {

/// The paths of `std`, which the library hands on without looking inside.
#[verifier::external_type_specification]
#[verifier::external_body]
pub struct ExPathBuf(PathBuf);

/// The serialization of the URL that `input` parses to, as the `url` crate
/// parses it; `None` where it is no absolute URL.
pub uninterp spec fn url_parse(input: Seq<char>) -> Option<Seq<char>>;

/// The serialization of the URL that `reference` names when it is resolved
/// against the URL `base`; `None` where either does not parse.
pub uninterp spec fn url_join(base: Seq<char>, reference: Seq<char>) -> Option<Seq<char>>;

/// The host of the URL with the serialization `text`, where it has one.
pub uninterp spec fn url_host(text: Seq<char>) -> Option<Seq<char>>;

/// The port that the URL with the serialization `text` names, where it names
/// one that is not its scheme's default.
pub uninterp spec fn url_port(text: Seq<char>) -> Option<u16>;

/// The scheme of a serialized URL: what stands before its first colon.
pub open spec fn scheme_of(text: Seq<char>) -> Seq<char> {
    text.take(find(text, ':'))
}

/// The parts of a URL that the fetcher reads.
struct UrlParts {
    text: String,
    scheme: String,
    host: Option<String>,
    port: Option<u16>,
}

/// `Url::parse` of the `url` crate, and of the URL it gives `as_str`,
/// `scheme`, `host_str` and `port`. The serialization depends on the input
/// alone, and parses to the same URL again; the scheme is the serialization up
/// to its first colon; host and port are those of the URL so serialized.
#[verifier::external_body]
fn parse_url(input: &str) -> (r: Option<UrlParts>)
    ensures
        r matches Some(parts) ==> url_parse(input@) == Some(parts.text@),
        r matches Some(parts) ==> url_parse(parts.text@) == Some(parts.text@),
        r matches Some(parts) ==> parts.scheme@ == scheme_of(parts.text@),
        r matches Some(parts) ==> text_view(parts.host) == url_host(parts.text@),
        r matches Some(parts) ==> parts.port == url_port(parts.text@),
        r is None ==> url_parse(input@) is None,
{
    let url = url::Url::parse(input).ok()?;
    Some(
        UrlParts {
            text: url.as_str().to_string(),
            scheme: url.scheme().to_string(),
            host: url.host_str().map(String::from),
            port: url.port(),
        },
    )
}

/// `Url::join` of the `url` crate on the URL that `base` parses to, and of the
/// URL it gives `as_str`, `scheme`, `host_str` and `port`, as in `parse_url`.
#[verifier::external_body]
fn join_url(base: &str, reference: &str) -> (r: Option<UrlParts>)
    ensures
        r matches Some(parts) ==> url_join(base@, reference@) == Some(parts.text@),
        r matches Some(parts) ==> url_parse(parts.text@) == Some(parts.text@),
        r matches Some(parts) ==> parts.scheme@ == scheme_of(parts.text@),
        r matches Some(parts) ==> text_view(parts.host) == url_host(parts.text@),
        r matches Some(parts) ==> parts.port == url_port(parts.text@),
        r is None ==> url_join(base@, reference@) is None,
{
    let url = url::Url::parse(base).ok()?.join(reference).ok()?;
    Some(
        UrlParts {
            text: url.as_str().to_string(),
            scheme: url.scheme().to_string(),
            host: url.host_str().map(String::from),
            port: url.port(),
        },
    )
}

/// Whether the host of the URL with the serialization `text` lets the URL
/// name a path: the URL has no host, or the host `localhost`; or it is a
/// `file` URL, which may name a path on another host where the machine knows
/// such paths.
pub open spec fn may_name_path(text: Seq<char>) -> bool {
    url_host(text) is None || url_host(text) == Some("localhost"@) || is_file(text)
}

/// `Url::to_file_path` of the `url` crate on the URL that `text` serializes:
/// the path that the URL names on this machine, where it names one. Which path
/// that is, and whether there is one, is for the machine to say. On every
/// machine there is none where the URL has a host other than `localhost`,
/// unless it is a `file` URL.
#[verifier::external_body]
fn file_path_of(text: &str) -> (r: Option<PathBuf>)
    requires
        url_parse(text@) == Some(text@),
    ensures
        r is Some ==> may_name_path(text@),
{
    url::Url::parse(text).ok()?.to_file_path().ok()
}

/// The schemes that the fetcher serves.
#[derive(Clone, Copy, Debug, PartialEq, Eq, Structural)]
pub enum Scheme {
    Data,
    Blob,
    File,
    Http,
    Https,
}

/// The scheme that `scheme` names, where the fetcher serves it.
pub open spec fn scheme_kind(scheme: Seq<char>) -> Option<Scheme> {
    if scheme == "data"@ {
        Some(Scheme::Data)
    } else if scheme == "blob"@ {
        Some(Scheme::Blob)
    } else if scheme == "file"@ {
        Some(Scheme::File)
    } else if scheme == "http"@ {
        Some(Scheme::Http)
    } else if scheme == "https"@ {
        Some(Scheme::Https)
    } else {
        None
    }
}

/// Whether the fetcher serves the scheme of the serialized URL `text`.
pub open spec fn has_supported_scheme(text: Seq<char>) -> bool {
    scheme_kind(scheme_of(text)) is Some
}

/// Whether the serialized URL `text` names a local file.
pub open spec fn is_file(text: Seq<char>) -> bool {
    scheme_of(text) == "file"@
}

/// An absolute URL.
#[derive(Debug)]
pub struct Specifier {
    text: String,
    scheme: String,
    host: Option<String>,
    port: Option<u16>,
}

impl View for Specifier {
    type V = Seq<char>;

    /// The serialization of the URL.
    closed spec fn view(&self) -> Seq<char> {
        self.text@
    }
}

/// What resolving `reference` against `base` gives.
pub open spec fn joined(base: Seq<char>, reference: Seq<char>) -> Result<
    Seq<char>,
    FetchErrorView,
> {
    match url_join(base, reference) {
        Some(text) => Ok(text),
        None => Err(invalid_redirect(base, reference)),
    }
}

/// What parsing `input` gives.
pub open spec fn parsed(input: Seq<char>) -> Result<Seq<char>, FetchErrorView> {
    match url_parse(input) {
        Some(text) => Ok(text),
        None => Err(invalid_uri("Invalid URL: "@ + input)),
    }
}

/// A specifier, or the error in place of it, as a plain value.
pub open spec fn specifier_view(r: Result<Specifier, FetchError>) -> Result<
    Seq<char>,
    FetchErrorView,
> {
    match r {
        Ok(s) => Ok(s@),
        Err(e) => Err(e@),
    }
}

impl Specifier {
    #[verifier::type_invariant]
    spec fn parts_agree(&self) -> bool {
        &&& url_parse(self.text@) == Some(self.text@)
        &&& self.scheme@ == scheme_of(self.text@)
        &&& text_view(self.host) == url_host(self.text@)
        &&& self.port == url_port(self.text@)
    }

    fn from_parts(parts: UrlParts) -> (s: Specifier)
        requires
            url_parse(parts.text@) == Some(parts.text@),
            parts.scheme@ == scheme_of(parts.text@),
            text_view(parts.host) == url_host(parts.text@),
            parts.port == url_port(parts.text@),
        ensures
            s@ == parts.text@,
    {
        Specifier { text: parts.text, scheme: parts.scheme, host: parts.host, port: parts.port }
    }

    /// Parses an absolute URL.
    pub fn parse(input: &str) -> (r: Result<Specifier, FetchError>)
        ensures
            specifier_view(r) == parsed(input@),
    {
        match parse_url(input) {
            Some(parts) => Ok(Specifier::from_parts(parts)),
            None => Err(
                FetchError::invalid_uri(String::from_str("Invalid URL: ").concat(input)),
            ),
        }
    }

    /// Resolves `reference`, relative or absolute, against this URL.
    pub fn join(&self, reference: &str) -> (r: Result<Specifier, FetchError>)
        ensures
            specifier_view(r) == joined(self@, reference@),
    {
        match join_url(self.text.as_str(), reference) {
            Some(parts) => Ok(Specifier::from_parts(parts)),
            None => Err(FetchError::invalid_redirect(self.text.as_str(), reference)),
        }
    }

    /// The serialization of the URL.
    pub fn as_str(&self) -> (s: &str)
        ensures
            s@ == self@,
    {
        self.text.as_str()
    }

    /// The scheme, in lower case and without the colon.
    pub fn scheme(&self) -> (s: &str)
        ensures
            s@ == scheme_of(self@),
    {
        proof {
            use_type_invariant(self);
        }
        self.scheme.as_str()
    }

    /// The host, where the URL has one.
    pub fn host(&self) -> (h: Option<&str>)
        ensures
            h matches Some(s) ==> url_host(self@) == Some(s@),
            h is None ==> url_host(self@) is None,
    {
        proof {
            use_type_invariant(self);
        }
        match &self.host {
            Some(h) => Some(h.as_str()),
            None => None,
        }
    }

    /// The port, where the URL names one that is not its scheme's default.
    pub fn port(&self) -> (p: Option<u16>)
        ensures
            p == url_port(self@),
    {
        proof {
            use_type_invariant(self);
        }
        self.port
    }

    /// Whether the URL names a local file.
    pub fn is_local(&self) -> (r: bool)
        ensures
            r == is_file(self@),
    {
        str_eq(self.scheme(), "file")
    }

    /// Whether the two are the same URL.
    pub fn same_as(&self, other: &Specifier) -> (r: bool)
        ensures
            r == (self@ == other@),
    {
        str_eq(self.text.as_str(), other.text.as_str())
    }

    /// The path that the URL names on this machine, where it names one. A
    /// URL with a host other than `localhost` names none, unless it is a
    /// `file` URL. Beyond that it is for the machine to say which URL names a
    /// path, and which.
    pub fn to_file_path(&self) -> (r: Option<PathBuf>)
        ensures
            r is Some ==> may_name_path(self@),
    {
        proof {
            use_type_invariant(self);
        }
        file_path_of(self.text.as_str())
    }
}

impl PartialEq for Specifier {
    fn eq(&self, other: &Specifier) -> (r: bool) {
        self.same_as(other)
    }
}

impl PartialEqSpecImpl for Specifier {
    open spec fn obeys_eq_spec() -> bool {
        true
    }

    open spec fn eq_spec(&self, other: &Specifier) -> bool {
        self@ == other@
    }
}

impl Clone for Specifier {
    fn clone(&self) -> (r: Self)
        ensures
            r@ == self@,
    {
        proof {
            use_type_invariant(self);
        }
        let host = match &self.host {
            Some(h) => Some(h.clone()),
            None => None,
        };
        Specifier { text: self.text.clone(), scheme: self.scheme.clone(), host, port: self.port }
    }
}

/// What validating the scheme of the serialized URL `text` gives.
pub open spec fn validated_scheme(text: Seq<char>) -> Result<Scheme, FetchErrorView> {
    match scheme_kind(scheme_of(text)) {
        Some(kind) => Ok(kind),
        None => Err(unsupported_scheme(scheme_of(text), text)),
    }
}

/// A validated scheme, or the error in place of it, as a plain value.
pub open spec fn scheme_view(r: Result<Scheme, FetchError>) -> Result<Scheme, FetchErrorView> {
    match r {
        Ok(s) => Ok(s),
        Err(e) => Err(e@),
    }
}

/// Return a validated scheme for a given module specifier.
pub fn get_validated_scheme(specifier: &Specifier) -> (r: Result<Scheme, FetchError>)
    ensures
        scheme_view(r) == validated_scheme(specifier@),
{
    let scheme = specifier.scheme();
    if str_eq(scheme, "data") {
        Ok(Scheme::Data)
    } else if str_eq(scheme, "blob") {
        Ok(Scheme::Blob)
    } else if str_eq(scheme, "file") {
        Ok(Scheme::File)
    } else if str_eq(scheme, "http") {
        Ok(Scheme::Http)
    } else if str_eq(scheme, "https") {
        Ok(Scheme::Https)
    } else {
        Err(FetchError::unsupported_scheme(scheme, specifier.as_str()))
    }
}

} // verus!
