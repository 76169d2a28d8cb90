//! One HTTP request that follows no redirect: the headers that it sends, and
//! what its outcome means to the fetcher.

use crate::decode::text_view;
use crate::error::{
    import_failed, import_not_found, invalid_header_value, missing_location, ErrorKind,
    FetchError, FetchErrorView,
};
use crate::file::header;
use crate::headers::HeadersMap;
use crate::specifier::{joined, Specifier};
use crate::text::{decimal_digits, decimal_string, from_chars, lower, to_chars, to_lower};
use vstd::prelude::*;
use vstd::string::StringExecFns;

verus! {

/// What one request is made with.
#[derive(Debug)]
pub struct FetchOnceArgs {
    pub url: Specifier,
    pub maybe_accept: Option<String>,
    pub maybe_etag: Option<String>,
    /// The value of the `authorization` header.
    pub maybe_auth_token: Option<String>,
}

/// `FetchOnceArgs` as a plain value.
pub struct FetchOnceArgsView {
    pub url: Seq<char>,
    pub maybe_accept: Option<Seq<char>>,
    pub maybe_etag: Option<Seq<char>>,
    pub maybe_auth_token: Option<Seq<char>>,
}

impl View for FetchOnceArgs {
    type V = FetchOnceArgsView;

    open spec fn view(&self) -> FetchOnceArgsView {
        FetchOnceArgsView {
            url: self.url@,
            maybe_accept: text_view(self.maybe_accept),
            maybe_etag: text_view(self.maybe_etag),
            maybe_auth_token: text_view(self.maybe_auth_token),
        }
    }
}

/// What one request led to.
#[derive(Debug)]
pub enum FetchOnceResult {
    /// A body with the headers it came with.
    Code(Vec<u8>, HeadersMap),
    /// What the cache holds is still good.
    NotModified,
    /// The source is to be found at another URL.
    Redirect(Specifier, HeadersMap),
    /// The origin could not be reached in time.
    RequestError(String),
    /// The origin failed, with this status.
    ServerError(u16),
}

/// `FetchOnceResult` as a plain value.
pub enum FetchOnceResultView {
    Code(Seq<u8>, Map<Seq<char>, Seq<char>>),
    NotModified,
    Redirect(Seq<char>, Map<Seq<char>, Seq<char>>),
    RequestError(Seq<char>),
    ServerError(u16),
}

impl View for FetchOnceResult {
    type V = FetchOnceResultView;

    open spec fn view(&self) -> FetchOnceResultView {
        match self {
            FetchOnceResult::Code(bytes, headers) => FetchOnceResultView::Code(bytes@, headers@),
            FetchOnceResult::NotModified => FetchOnceResultView::NotModified,
            FetchOnceResult::Redirect(to, headers) => FetchOnceResultView::Redirect(to@, headers@),
            FetchOnceResult::RequestError(why) => FetchOnceResultView::RequestError(why@),
            FetchOnceResult::ServerError(status) => FetchOnceResultView::ServerError(*status),
        }
    }
}

/// What the transport reports of one request.
#[derive(Debug)]
pub enum Transport {
    /// A response. The headers are in the order in which the response gives
    /// them, a name as often as the response has a value for it. The body
    /// need not be read for a status from 300 to 599.
    Response { status: u16, headers: Vec<(String, String)>, body: Vec<u8> },
    /// No response, for the reason that `message` gives.
    Failed { connect: bool, timeout: bool, message: String },
}

/// Whether `http` takes `value` for the value of a header: it holds no control
/// character but the tabulator.
pub open spec fn is_header_value(value: Seq<char>) -> bool {
    forall|i: int|
        0 <= i < value.len() ==> (#[trigger] value[i]) == '\t' || (value[i] as u32 >= 32
            && value[i] as u32 != 127)
}

/// `HeaderValue::from_str` of `http`: it succeeds where every byte of the
/// string is the tabulator or is at least 32 and not 127.
#[verifier::external_body]
fn header_value_is_valid(value: &str) -> (valid: bool)
    ensures
        valid == is_header_value(value@),
{
    http::HeaderValue::from_str(value).is_ok()
}

/// The status line that `http` writes for a status: the number and the
/// phrase that belongs to it. There is none for a number that is no status.
pub uninterp spec fn status_text(status: u16) -> Option<Seq<char>>;

/// `StatusCode::from_u16` of `http`, which takes the numbers from 100 to 999,
/// and the status as `Display` writes it.
#[verifier::external_body]
fn status_line(status: u16) -> (r: Option<String>)
    ensures
        text_view(r) == status_text(status),
        r is Some <==> 100 <= status <= 999,
{
    match http::StatusCode::from_u16(status) {
        Ok(code) => Some(code.to_string()),
        Err(_) => None,
    }
}

/// How a status is written in a message: as its status line, or as the bare
/// number where it has none.
pub open spec fn status_display(status: u16) -> Seq<char> {
    match status_text(status) {
        Some(line) => line,
        None => decimal_digits(status as nat),
    }
}

/// How a status is written in a message.
pub fn display_status(status: u16) -> (r: String)
    ensures
        r@ == status_display(status),
{
    match status_line(status) {
        Some(line) => line,
        None => from_chars(&decimal_string(status as u64)),
    }
}

/// The header `name` with `value`, where there is a value.
pub open spec fn optional_header(name: Seq<char>, value: Option<Seq<char>>) -> Seq<
    (Seq<char>, Seq<char>),
> {
    match value {
        Some(v) => seq![(name, v)],
        None => Seq::empty(),
    }
}

/// The headers, as plain values.
pub open spec fn pairs_view(headers: Seq<(String, String)>) -> Seq<(Seq<char>, Seq<char>)> {
    Seq::new(headers.len(), |i: int| (headers[i].0@, headers[i].1@))
}

/// Whether `value`, where there is one, can be the value of a header.
pub open spec fn sendable(value: Option<Seq<char>>) -> bool {
    value matches Some(v) ==> is_header_value(v)
}

/// The headers that a request is sent with: `if-none-match` with the entity
/// tag, `authorization` with the token and `accept`, each where it is given.
/// A value that cannot be the value of a header is an error, the first of
/// them in that order.
pub open spec fn request_headers_of(
    etag: Option<Seq<char>>,
    token: Option<Seq<char>>,
    accept: Option<Seq<char>>,
) -> Result<Seq<(Seq<char>, Seq<char>)>, FetchErrorView> {
    if !sendable(etag) {
        Err(invalid_header_value("if-none-match"@))
    } else if !sendable(token) {
        Err(invalid_header_value("authorization"@))
    } else if !sendable(accept) {
        Err(invalid_header_value("accept"@))
    } else {
        Ok(
            optional_header("if-none-match"@, etag) + optional_header("authorization"@, token)
                + optional_header("accept"@, accept),
        )
    }
}

/// Request headers, or the error in place of them, as a plain value.
pub open spec fn request_headers_view(r: Result<Vec<(String, String)>, FetchError>) -> Result<
    Seq<(Seq<char>, Seq<char>)>,
    FetchErrorView,
> {
    match r {
        Ok(headers) => Ok(pairs_view(headers@)),
        Err(e) => Err(e@),
    }
}

/// Adds the header `name` to `headers` where there is a value.
fn add_header(headers: &mut Vec<(String, String)>, name: &str, value: &Option<String>) -> (r:
    Result<(), FetchError>)
    ensures
        sendable(text_view(*value)) ==> r is Ok && pairs_view(final(headers)@) == pairs_view(
            old(headers)@,
        ) + optional_header(name@, text_view(*value)),
        !sendable(text_view(*value)) ==> (r matches Err(e) && e@ == invalid_header_value(name@)),
{
    match value {
        Some(v) => {
            if !header_value_is_valid(v.as_str()) {
                return Err(FetchError::invalid_header_value(name));
            }
            headers.push((String::from_str(name), v.clone()));
            assert(pairs_view(headers@) =~= pairs_view(old(headers)@) + optional_header(
                name@,
                text_view(*value),
            ));
        },
        None => {
            assert(pairs_view(headers@) =~= pairs_view(old(headers)@) + optional_header(
                name@,
                text_view(*value),
            ));
        },
    }
    Ok(())
}

/// The headers that the request for `args` is sent with.
pub fn request_headers(args: &FetchOnceArgs) -> (r: Result<Vec<(String, String)>, FetchError>)
    ensures
        request_headers_view(r) == request_headers_of(
            text_view(args.maybe_etag),
            text_view(args.maybe_auth_token),
            text_view(args.maybe_accept),
        ),
{
    let mut headers: Vec<(String, String)> = Vec::new();
    assert(pairs_view(headers@) =~= Seq::empty());
    match add_header(&mut headers, "if-none-match", &args.maybe_etag) {
        Err(e) => {
            return Err(e);
        },
        Ok(()) => {},
    }
    match add_header(&mut headers, "authorization", &args.maybe_auth_token) {
        Err(e) => {
            return Err(e);
        },
        Ok(()) => {},
    }
    match add_header(&mut headers, "accept", &args.maybe_accept) {
        Err(e) => {
            return Err(e);
        },
        Ok(()) => {},
    }
    assert(pairs_view(headers@) =~= optional_header(
        "if-none-match"@,
        text_view(args.maybe_etag),
    ) + optional_header("authorization"@, text_view(args.maybe_auth_token)) + optional_header(
        "accept"@,
        text_view(args.maybe_accept),
    ));
    Ok(headers)
}

/// The headers of a response as the fetcher keeps them: the names in lower
/// case, and the values of a name that occurs more than once joined by
/// commas, in the order of the response.
pub open spec fn captured_headers(raw: Seq<(String, String)>) -> Map<Seq<char>, Seq<char>>
    decreases raw.len(),
{
    if raw.len() == 0 {
        Map::empty()
    } else {
        let before = captured_headers(raw.drop_last());
        let name = lower(raw.last().0@);
        if before.contains_key(name) {
            before.insert(name, before[name] + seq![','] + raw.last().1@)
        } else {
            before.insert(name, raw.last().1@)
        }
    }
}

/// The headers of a response as the fetcher keeps them.
pub fn capture_headers(raw: &Vec<(String, String)>) -> (headers: HeadersMap)
    ensures
        headers@ == captured_headers(raw@),
{
    let mut headers = HeadersMap::new();
    let mut i: usize = 0;
    while i < raw.len()
        invariant
            i <= raw@.len(),
            headers@ == captured_headers(raw@.take(i as int)),
        decreases raw@.len() - i,
    {
        proof {
            let next = raw@.take(i + 1);
            assert(next.drop_last() =~= raw@.take(i as int));
            assert(next.last() == raw@[i as int]);
        }
        let name = from_chars(&to_lower(&to_chars(raw[i].0.as_str())));
        let value = match headers.get(name.as_str()) {
            Some(held) => {
                let mut joined = to_chars(held.as_str());
                joined.push(',');
                let mut more = to_chars(raw[i].1.as_str());
                joined.append(&mut more);
                assert(joined@ =~= held@ + seq![','] + raw@[i as int].1@);
                from_chars(&joined)
            },
            None => raw[i].1.clone(),
        };
        headers.insert(name, value);
        i += 1;
    }
    assert(raw@.take(raw@.len() as int) =~= raw@);
    headers
}

/// `Transport` as a plain value.
pub enum TransportView {
    Response { status: u16, headers: Map<Seq<char>, Seq<char>>, body: Seq<u8> },
    Failed { connect: bool, timeout: bool, message: Seq<char> },
}

impl View for Transport {
    type V = TransportView;

    open spec fn view(&self) -> TransportView {
        match self {
            Transport::Response { status, headers, body } => TransportView::Response {
                status: *status,
                headers: captured_headers(headers@),
                body: body@,
            },
            Transport::Failed { connect, timeout, message } => TransportView::Failed {
                connect: *connect,
                timeout: *timeout,
                message: message@,
            },
        }
    }
}

/// The error of a request that the transport gave up for good.
pub open spec fn transport_failed(message: Seq<char>) -> FetchErrorView {
    FetchErrorView { kind: ErrorKind::Http, message }
}

/// The target of a redirect: the `location` header, resolved against the URL
/// that was asked for.
pub open spec fn redirect_target(url: Seq<char>, headers: Map<Seq<char>, Seq<char>>) -> Result<
    Seq<char>,
    FetchErrorView,
> {
    match header(headers, "location"@) {
        Some(location) => joined(url, location),
        None => Err(missing_location(url)),
    }
}

/// What the outcome of the request for `url` means.
///
/// A failure to connect or a timeout is a request error, to be tried again;
/// any other failure of the transport is fatal. Of the responses, 304 means
/// that the cache is still good; another status from 300 to 399 is a redirect
/// to the resolved `location`; one from 500 to 599 is a server error; 404 is
/// fatal, as not found; another from 400 to 499 is fatal, with the status in
/// the message; and any other status gives the body with the headers.
pub open spec fn outcome_of(url: Seq<char>, outcome: TransportView) -> Result<
    FetchOnceResultView,
    FetchErrorView,
> {
    match outcome {
        TransportView::Failed { connect, timeout, message } => {
            if connect || timeout {
                Ok(FetchOnceResultView::RequestError(message))
            } else {
                Err(transport_failed(message))
            }
        },
        TransportView::Response { status, headers, body } => {
            if status == 304 {
                Ok(FetchOnceResultView::NotModified)
            } else if 300 <= status < 400 {
                match redirect_target(url, headers) {
                    Ok(to) => Ok(FetchOnceResultView::Redirect(to, headers)),
                    Err(e) => Err(e),
                }
            } else if 500 <= status < 600 {
                Ok(FetchOnceResultView::ServerError(status))
            } else if status == 404 {
                Err(import_not_found(url))
            } else if 400 <= status < 500 {
                Err(import_failed(url, status_display(status)))
            } else {
                Ok(FetchOnceResultView::Code(body, headers))
            }
        },
    }
}

/// The meaning of an outcome, or the error in place of it, as a plain value.
pub open spec fn fetch_once_view(r: Result<FetchOnceResult, FetchError>) -> Result<
    FetchOnceResultView,
    FetchErrorView,
> {
    match r {
        Ok(result) => Ok(result@),
        Err(e) => Err(e@),
    }
}

/// Says what the outcome of the one request made for `url` means: the part of
/// fetching a URL once that follows the transport's report.
pub fn fetch_once(url: &Specifier, outcome: Transport) -> (r: Result<FetchOnceResult, FetchError>)
    ensures
        fetch_once_view(r) == outcome_of(url@, outcome@),
{
    match outcome {
        Transport::Failed { connect, timeout, message } => {
            if connect || timeout {
                Ok(FetchOnceResult::RequestError(message))
            } else {
                Err(FetchError::new(ErrorKind::Http, message))
            }
        },
        Transport::Response { status, headers, body } => {
            if status == 304 {
                return Ok(FetchOnceResult::NotModified);
            }
            let result_headers = capture_headers(&headers);
            if 300 <= status && status < 400 {
                let to = match result_headers.get("location") {
                    Some(location) => url.join(location.as_str()),
                    None => Err(FetchError::missing_location(url.as_str())),
                };
                return match to {
                    Ok(to) => Ok(FetchOnceResult::Redirect(to, result_headers)),
                    Err(e) => Err(e),
                };
            }
            if 500 <= status && status < 600 {
                return Ok(FetchOnceResult::ServerError(status));
            }
            if status == 404 {
                return Err(FetchError::import_not_found(url.as_str()));
            }
            if 400 <= status && status < 500 {
                let line = display_status(status);
                return Err(FetchError::import_failed(url.as_str(), line.as_str()));
            }
            Ok(FetchOnceResult::Code(body, result_headers))
        },
    }
}

} // verus!
