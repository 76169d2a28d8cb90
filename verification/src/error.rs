//! The errors that a fetch surfaces: a machine-readable kind and a message
//! that names the specifier.

use crate::text::str_eq;
use vstd::prelude::*;
use vstd::std_specs::cmp::PartialEqSpecImpl;
use vstd::string::StringExecFns;

verus! {

/// What went wrong, for a program to branch on.
#[derive(Clone, Copy, Debug, PartialEq, Eq, Structural)]
pub enum ErrorKind {
    /// The specifier's scheme is none of `data`, `blob`, `file`, `http`, `https`.
    Unsupported,
    /// The redirect limit was passed, or the origin answered with a failure.
    Http,
    /// The origin, or the blob store, has nothing under the specifier.
    NotFound,
    /// Only the cache may be used and it has nothing under the specifier.
    NotCached,
    /// A remote specifier was asked for while remote fetches are switched off.
    NoRemote,
    /// The specifier, or what it was to be resolved against, is no usable URI.
    Uri,
    /// The bytes are not text in the character encoding they came with.
    Encoding,
    /// The permissions do not allow the specifier.
    Permission,
}

/// An error of a fetch.
#[derive(Debug)]
pub struct FetchError {
    pub kind: ErrorKind,
    pub message: String,
}

/// A `FetchError` as a plain value.
pub struct FetchErrorView {
    pub kind: ErrorKind,
    pub message: Seq<char>,
}

impl View for FetchError {
    type V = FetchErrorView;

    open spec fn view(&self) -> FetchErrorView {
        FetchErrorView { kind: self.kind, message: self.message@ }
    }
}

impl PartialEq for FetchError {
    fn eq(&self, other: &FetchError) -> (r: bool) {
        self.kind == other.kind && str_eq(self.message.as_str(), other.message.as_str())
    }
}

impl PartialEqSpecImpl for FetchError {
    open spec fn obeys_eq_spec() -> bool {
        true
    }

    open spec fn eq_spec(&self, other: &FetchError) -> bool {
        self@ == other@
    }
}

impl Clone for FetchError {
    fn clone(&self) -> (r: Self)
        ensures
            r@ == self@,
    {
        FetchError { kind: self.kind, message: self.message.clone() }
    }
}

/// The error of the given kind whose message is `before`, then `subject`, then
/// `after`.
pub open spec fn framed(kind: ErrorKind, before: Seq<char>, subject: Seq<char>, after: Seq<char>)
    -> FetchErrorView {
    FetchErrorView { kind, message: before + subject + after }
}

pub open spec fn too_many_redirects() -> FetchErrorView {
    FetchErrorView { kind: ErrorKind::Http, message: "Too many redirects."@ }
}

pub open spec fn unsupported_scheme(scheme: Seq<char>, specifier: Seq<char>) -> FetchErrorView {
    FetchErrorView {
        kind: ErrorKind::Unsupported,
        message: "Unsupported scheme \""@ + scheme + "\" for module \""@ + specifier
            + "\". Supported schemes: [\n    \"data\",\n    \"blob\",\n    \"file\",\n    \"http\",\n    \"https\",\n]"@,
    }
}

pub open spec fn not_cached(specifier: Seq<char>) -> FetchErrorView {
    framed(
        ErrorKind::NotCached,
        "Specifier not found in cache: \""@,
        specifier,
        "\", --cached-only is specified."@,
    )
}

pub open spec fn no_remote(specifier: Seq<char>) -> FetchErrorView {
    framed(
        ErrorKind::NoRemote,
        "A remote specifier was requested: \""@,
        specifier,
        "\", but --no-remote is specified."@,
    )
}

pub open spec fn import_not_found(specifier: Seq<char>) -> FetchErrorView {
    framed(ErrorKind::NotFound, "Import '"@, specifier, "' failed, not found."@)
}

/// The error of an import that failed for the reason `why`: a status line, or
/// what the transport said.
pub open spec fn import_failed(specifier: Seq<char>, why: Seq<char>) -> FetchErrorView {
    FetchErrorView { kind: ErrorKind::Http, message: "Import '"@ + specifier + "' failed: "@ + why }
}

pub open spec fn blob_not_found(specifier: Seq<char>) -> FetchErrorView {
    framed(ErrorKind::NotFound, "Blob URL not found: \""@, specifier, "\"."@)
}

pub open spec fn invalid_file_path(specifier: Seq<char>) -> FetchErrorView {
    framed(ErrorKind::Uri, "Invalid file path.\n  Specifier: "@, specifier, ""@)
}

pub open spec fn invalid_uri(why: Seq<char>) -> FetchErrorView {
    FetchErrorView { kind: ErrorKind::Uri, message: why }
}

pub open spec fn invalid_redirect(specifier: Seq<char>, location: Seq<char>) -> FetchErrorView {
    FetchErrorView {
        kind: ErrorKind::Uri,
        message: "Invalid redirect from \""@ + specifier + "\" to \""@ + location + "\"."@,
    }
}

pub open spec fn undecodable(charset: Seq<char>) -> FetchErrorView {
    framed(ErrorKind::Encoding, "The bytes are not valid "@, charset, " text."@)
}

pub open spec fn permission_denied(specifier: Seq<char>) -> FetchErrorView {
    framed(ErrorKind::Permission, "Requires access to \""@, specifier, "\"."@)
}

/// A 304 answer for a specifier that the cache holds nothing under.
pub open spec fn not_modified_without_entry(specifier: Seq<char>) -> FetchErrorView {
    framed(
        ErrorKind::Http,
        "Import '"@,
        specifier,
        "' failed: the origin answered \"not modified\" but the cache holds no entry."@,
    )
}

pub open spec fn invalid_header_value(name: Seq<char>) -> FetchErrorView {
    framed(ErrorKind::Http, "The value for the header \""@, name, "\" is not a header value."@)
}

pub open spec fn missing_location(specifier: Seq<char>) -> FetchErrorView {
    framed(ErrorKind::Http, "Redirection from '"@, specifier, "' did not provide location header"@)
}

impl FetchError {
    /// The error of the given kind and message.
    pub fn new(kind: ErrorKind, message: String) -> (e: FetchError)
        ensures
            e@ == (FetchErrorView { kind, message: message@ }),
    {
        FetchError { kind, message }
    }

    /// The error whose message is `before`, then `subject`, then `after`.
    pub fn framed(kind: ErrorKind, before: &str, subject: &str, after: &str) -> (e: FetchError)
        ensures
            e@ == framed(kind, before@, subject@, after@),
    {
        let message = String::from_str(before).concat(subject).concat(after);
        FetchError { kind, message }
    }

    pub fn too_many_redirects() -> (e: FetchError)
        ensures
            e@ == too_many_redirects(),
    {
        FetchError { kind: ErrorKind::Http, message: String::from_str("Too many redirects.") }
    }

    pub fn unsupported_scheme(scheme: &str, specifier: &str) -> (e: FetchError)
        ensures
            e@ == unsupported_scheme(scheme@, specifier@),
    {
        let message = String::from_str("Unsupported scheme \"").concat(scheme).concat(
            "\" for module \"",
        ).concat(specifier).concat("\". Supported schemes: [\n    \"data\",\n    \"blob\",\n    \"file\",\n    \"http\",\n    \"https\",\n]");
        FetchError { kind: ErrorKind::Unsupported, message }
    }

    pub fn not_cached(specifier: &str) -> (e: FetchError)
        ensures
            e@ == not_cached(specifier@),
    {
        FetchError::framed(
            ErrorKind::NotCached,
            "Specifier not found in cache: \"",
            specifier,
            "\", --cached-only is specified.",
        )
    }

    pub fn no_remote(specifier: &str) -> (e: FetchError)
        ensures
            e@ == no_remote(specifier@),
    {
        FetchError::framed(
            ErrorKind::NoRemote,
            "A remote specifier was requested: \"",
            specifier,
            "\", but --no-remote is specified.",
        )
    }

    pub fn import_not_found(specifier: &str) -> (e: FetchError)
        ensures
            e@ == import_not_found(specifier@),
    {
        FetchError::framed(ErrorKind::NotFound, "Import '", specifier, "' failed, not found.")
    }

    pub fn import_failed(specifier: &str, why: &str) -> (e: FetchError)
        ensures
            e@ == import_failed(specifier@, why@),
    {
        let message = String::from_str("Import '").concat(specifier).concat("' failed: ").concat(
            why,
        );
        FetchError { kind: ErrorKind::Http, message }
    }

    pub fn blob_not_found(specifier: &str) -> (e: FetchError)
        ensures
            e@ == blob_not_found(specifier@),
    {
        FetchError::framed(ErrorKind::NotFound, "Blob URL not found: \"", specifier, "\".")
    }

    pub fn invalid_file_path(specifier: &str) -> (e: FetchError)
        ensures
            e@ == invalid_file_path(specifier@),
    {
        FetchError::framed(ErrorKind::Uri, "Invalid file path.\n  Specifier: ", specifier, "")
    }

    pub fn invalid_uri(why: String) -> (e: FetchError)
        ensures
            e@ == invalid_uri(why@),
    {
        FetchError { kind: ErrorKind::Uri, message: why }
    }

    pub fn invalid_redirect(specifier: &str, location: &str) -> (e: FetchError)
        ensures
            e@ == invalid_redirect(specifier@, location@),
    {
        let message = String::from_str("Invalid redirect from \"").concat(specifier).concat(
            "\" to \"",
        ).concat(location).concat("\".");
        FetchError { kind: ErrorKind::Uri, message }
    }

    pub fn undecodable(charset: &str) -> (e: FetchError)
        ensures
            e@ == undecodable(charset@),
    {
        FetchError::framed(ErrorKind::Encoding, "The bytes are not valid ", charset, " text.")
    }

    pub fn permission_denied(specifier: &str) -> (e: FetchError)
        ensures
            e@ == permission_denied(specifier@),
    {
        FetchError::framed(ErrorKind::Permission, "Requires access to \"", specifier, "\".")
    }

    pub fn not_modified_without_entry(specifier: &str) -> (e: FetchError)
        ensures
            e@ == not_modified_without_entry(specifier@),
    {
        FetchError::framed(
            ErrorKind::Http,
            "Import '",
            specifier,
            "' failed: the origin answered \"not modified\" but the cache holds no entry.",
        )
    }

    pub fn invalid_header_value(name: &str) -> (e: FetchError)
        ensures
            e@ == invalid_header_value(name@),
    {
        FetchError::framed(
            ErrorKind::Http,
            "The value for the header \"",
            name,
            "\" is not a header value.",
        )
    }

    pub fn missing_location(specifier: &str) -> (e: FetchError)
        ensures
            e@ == missing_location(specifier@),
    {
        FetchError::framed(
            ErrorKind::Http,
            "Redirection from '",
            specifier,
            "' did not provide location header",
        )
    }

    /// The kind as the word that names it.
    pub fn kind_name(&self) -> (s: &'static str)
        ensures
            s@ == kind_name(self.kind),
    {
        match self.kind {
            ErrorKind::Unsupported => "Unsupported",
            ErrorKind::Http => "Http",
            ErrorKind::NotFound => "NotFound",
            ErrorKind::NotCached => "NotCached",
            ErrorKind::NoRemote => "NoRemote",
            ErrorKind::Uri => "Uri",
            ErrorKind::Encoding => "Encoding",
            ErrorKind::Permission => "Permission",
        }
    }

    /// The error as one line: the kind's name, a colon and the message.
    pub fn to_text(&self) -> (s: String)
        ensures
            s@ == kind_name(self.kind) + ": "@ + self.message@,
    {
        String::from_str(self.kind_name()).concat(": ").concat(self.message.as_str())
    }
}

pub open spec fn kind_name(kind: ErrorKind) -> Seq<char> {
    match kind {
        ErrorKind::Unsupported => "Unsupported"@,
        ErrorKind::Http => "Http"@,
        ErrorKind::NotFound => "NotFound"@,
        ErrorKind::NotCached => "NotCached"@,
        ErrorKind::NoRemote => "NoRemote"@,
        ErrorKind::Uri => "Uri"@,
        ErrorKind::Encoding => "Encoding"@,
        ErrorKind::Permission => "Permission"@,
    }
}

} // verus!
