//! The remote path of a fetch as a machine of steps: each step says what is
//! to be done outside (a request, a wait, the reading of a file or a blob) or
//! that the fetch is done, and the outcome of what was done outside leads to
//! the next step.

use crate::auth_tokens::{token_for, token_views, AuthTokenView};
use crate::cache_setting::{CacheSetting, CacheSettingView};
use crate::decode::text_view;
use crate::error::{
    import_failed, invalid_file_path, no_remote, not_cached, not_modified_without_entry,
    too_many_redirects, FetchError, FetchErrorView,
};
use crate::fetch_once::{
    display_status, fetch_once_view, status_display, FetchOnceArgs, FetchOnceArgsView,
    FetchOnceResult, FetchOnceResultView,
};
use crate::file::{build_remote_file, file_view, header, remote_file, File, FileView};
use crate::file_cache::{cached, holds_no_local_file, with_file};
use crate::file_fetcher::{
    blob_file, blob_view, cached_file, data_url_file, local_path,
    uses_cache, Blob, FetchOptions, FileFetcher, REDIRECT_LIMIT,
};
use crate::http_cache::{holds, HttpCache};
use crate::permissions::{checked, Permissions};
use crate::specifier::{
    get_validated_scheme, has_supported_scheme, is_file, validated_scheme, Scheme, Specifier,
};
use std::path::PathBuf;
use vstd::prelude::*;

verus! {

/// How long to wait before the one retry of a request, in milliseconds.
pub const RETRY_DELAY_MS: u64 = 50;

/// A remote fetch that waits for the outcome of a request.
#[derive(Debug)]
pub struct RemoteFetch {
    requested: Specifier,
    args: FetchOnceArgs,
    redirect_limit: i64,
    retried: bool,
    cache_setting: CacheSetting,
}

/// `RemoteFetch` as a plain value.
pub struct RemoteFetchView {
    /// The specifier that the fetch was asked for.
    pub requested: Seq<char>,
    /// What the request is made with; its URL is where the redirects have led.
    pub args: FetchOnceArgsView,
    /// How many redirects may still be followed.
    pub redirect_limit: int,
    /// Whether the request for this URL was already tried again.
    pub retried: bool,
    pub cache_setting: CacheSettingView,
}

impl View for RemoteFetch {
    type V = RemoteFetchView;

    closed spec fn view(&self) -> RemoteFetchView {
        RemoteFetchView {
            requested: self.requested@,
            args: self.args@,
            redirect_limit: self.redirect_limit as int,
            retried: self.retried,
            cache_setting: self.cache_setting@,
        }
    }
}

impl RemoteFetch {
    #[verifier::type_invariant]
    spec fn is_under_way(&self) -> bool {
        &&& 0 <= self.redirect_limit
        &&& has_supported_scheme(self.args.url@)
    }

    /// What the request is to be made with.
    pub fn args(&self) -> (args: &FetchOnceArgs)
        ensures
            args@ == self@.args,
            has_supported_scheme(args@.url),
            self@.redirect_limit >= 0,
    {
        proof {
            use_type_invariant(self);
        }
        &self.args
    }

    /// The specifier that the fetch was asked for.
    pub fn requested(&self) -> (specifier: &Specifier)
        ensures
            specifier@ == self@.requested,
    {
        &self.requested
    }

    /// How many redirects may still be followed.
    pub fn redirect_limit(&self) -> (limit: i64)
        ensures
            limit == self@.redirect_limit,
            limit >= 0,
    {
        proof {
            use_type_invariant(self);
        }
        self.redirect_limit
    }

    /// Whether the request for this URL was already tried again.
    pub fn retried(&self) -> (retried: bool)
        ensures
            retried == self@.retried,
    {
        self.retried
    }
}

/// What is to be done next for a fetch.
#[derive(Debug)]
pub enum FetchStep {
    /// The fetch is done.
    Done(Result<File, FetchError>),
    /// The file at `path` is to be read and handed to `fetch_local`.
    ReadLocal { specifier: Specifier, path: PathBuf },
    /// The blob is to be looked up and read, and handed to `on_blob`.
    ReadBlob { specifier: Specifier },
    /// The request is to be made, and its outcome handed to `on_response`.
    Request(RemoteFetch),
    /// The request is to be made after the delay, and its outcome handed to
    /// `on_response`.
    Retry { delay_ms: u64, pending: RemoteFetch },
}

/// `FetchStep` as a plain value.
pub enum FetchStepView {
    Done(Result<FileView, FetchErrorView>),
    ReadLocal { specifier: Seq<char> },
    ReadBlob { specifier: Seq<char> },
    Request(RemoteFetchView),
    Retry { delay_ms: u64, pending: RemoteFetchView },
}

impl View for FetchStep {
    type V = FetchStepView;

    open spec fn view(&self) -> FetchStepView {
        match self {
            FetchStep::Done(r) => FetchStepView::Done(file_view(*r)),
            FetchStep::ReadLocal { specifier, path } => FetchStepView::ReadLocal {
                specifier: specifier@,
            },
            FetchStep::ReadBlob { specifier } => FetchStepView::ReadBlob { specifier: specifier@ },
            FetchStep::Request(pending) => FetchStepView::Request(pending@),
            FetchStep::Retry { delay_ms, pending } => FetchStepView::Retry {
                delay_ms: *delay_ms,
                pending: pending@,
            },
        }
    }
}

/// The entity tag of the response that the cache holds for `specifier`.
pub open spec fn stored_etag<C: HttpCache>(cache: C, specifier: Seq<char>) -> Option<Seq<char>> {
    match cache.metadata(cache.key_for(specifier)) {
        Ok(Some(metadata)) => header(metadata.headers, "etag"@),
        _ => None,
    }
}

/// The step with which one hop of a remote fetch begins: the fetch asked for
/// `requested` has come to `url` and may follow `redirect_limit` redirects
/// more.
///
/// A limit below 0 ends the fetch, and so does a scheme that is not supported
/// and a URL that the permissions do not allow. Where the cache is to be used
/// and has the file, the file ends the fetch; an error of the cache ends it
/// too. Where the cache gave nothing and only the cache may be used, that is an
/// error. Otherwise the request is to be made, with the entity tag of what is
/// stored and the token for the host.
pub open spec fn hop_step<C: HttpCache, P: Permissions>(
    cache: C,
    permissions: P,
    tokens: Seq<AuthTokenView>,
    requested: Seq<char>,
    url: Seq<char>,
    redirect_limit: int,
    accept: Option<Seq<char>>,
    setting: CacheSettingView,
    now: u64,
) -> FetchStepView {
    if redirect_limit < 0 {
        FetchStepView::Done(Err(too_many_redirects()))
    } else if validated_scheme(url) is Err {
        FetchStepView::Done(Err(validated_scheme(url)->Err_0))
    } else if checked(permissions, url) is Err {
        FetchStepView::Done(Err(checked(permissions, url)->Err_0))
    } else {
        let hit = if uses_cache(cache, url, setting, now) {
            cached_file(cache, url, redirect_limit)
        } else {
            Ok(None)
        };
        match hit {
            Ok(Some(file)) => FetchStepView::Done(Ok(file)),
            Err(e) => FetchStepView::Done(Err(e)),
            Ok(None) => if setting == CacheSettingView::Only {
                FetchStepView::Done(Err(not_cached(url)))
            } else {
                FetchStepView::Request(
                    RemoteFetchView {
                        requested,
                        args: FetchOnceArgsView {
                            url,
                            maybe_accept: accept,
                            maybe_etag: stored_etag(cache, url),
                            maybe_auth_token: token_for(tokens, url),
                        },
                        redirect_limit,
                        retried: false,
                        cache_setting: setting,
                    },
                )
            },
        }
    }
}

/// The step after a request failed for a reason that may pass: the one retry
/// where there was none yet, the end of the fetch else.
pub open spec fn retry_step(pending: RemoteFetchView, why: Seq<char>) -> FetchStepView {
    if !pending.retried {
        FetchStepView::Retry {
            delay_ms: RETRY_DELAY_MS,
            pending: RemoteFetchView { retried: true, ..pending },
        }
    } else {
        FetchStepView::Done(Err(import_failed(pending.args.url, why)))
    }
}

/// The step after the outcome `outcome` of the request of `pending`.
/// `before` is the cache when the outcome came in, `after` the cache once a
/// response was stored.
///
/// A fatal outcome ends the fetch. "Not modified" ends it with what the cache
/// has, followed through up to the full number of redirects; a cache that has
/// nothing is an error. A redirect is stored under the URL that was asked,
/// without a body, and the next hop begins at its target with one redirect
/// less to go. A body is stored with its headers and ends the fetch with the
/// file it stands for. A failure to store ends the fetch. A failure that may
/// pass leads to the one retry.
pub open spec fn response_step<C: HttpCache, P: Permissions>(
    before: C,
    after: C,
    permissions: P,
    tokens: Seq<AuthTokenView>,
    pending: RemoteFetchView,
    outcome: Result<FetchOnceResultView, FetchErrorView>,
    now: u64,
) -> FetchStepView {
    let url = pending.args.url;
    match outcome {
        Err(e) => FetchStepView::Done(Err(e)),
        Ok(FetchOnceResultView::NotModified) => FetchStepView::Done(
            match cached_file(before, url, REDIRECT_LIMIT as int) {
                Ok(Some(file)) => Ok(file),
                Ok(None) => Err(not_modified_without_entry(url)),
                Err(e) => Err(e),
            },
        ),
        Ok(FetchOnceResultView::Redirect(to, headers)) => match before.write_result(
            url,
            headers,
            Seq::<u8>::empty(),
        ) {
            Err(e) => FetchStepView::Done(Err(e)),
            Ok(()) => hop_step(
                after,
                permissions,
                tokens,
                pending.requested,
                to,
                pending.redirect_limit - 1,
                pending.args.maybe_accept,
                pending.cache_setting,
                now,
            ),
        },
        Ok(FetchOnceResultView::Code(bytes, headers)) => match before.write_result(
            url,
            headers,
            bytes,
        ) {
            Err(e) => FetchStepView::Done(Err(e)),
            Ok(()) => FetchStepView::Done(remote_file(url, bytes, headers)),
        },
        Ok(FetchOnceResultView::RequestError(why)) => retry_step(pending, why),
        Ok(FetchOnceResultView::ServerError(status)) => retry_step(pending, status_display(status)),
    }
}

/// The session cache after a step of the fetch asked for `requested`: a fetch
/// that is done with a file leaves the file under what was asked for, unless
/// that names a local file.
pub open spec fn session_after(
    session: Map<Seq<char>, FileView>,
    requested: Seq<char>,
    step: FetchStepView,
) -> Map<Seq<char>, FileView> {
    match step {
        FetchStepView::Done(Ok(file)) => with_file(session, requested, file),
        _ => session,
    }
}

/// How the cache `after` follows from the cache `before` by the storing of a
/// response under the key of `url`: the key holds the response where the
/// storing succeeds and what it held where it fails, every other key holds
/// what it held, and the keys are what they were.
pub open spec fn stored<C: HttpCache>(
    before: C,
    after: C,
    url: Seq<char>,
    headers: Map<Seq<char>, Seq<char>>,
    content: Seq<u8>,
) -> bool {
    let key = before.key_for(url);
    &&& forall|s: Seq<char>| #[trigger] after.key_for(s) == before.key_for(s)
    &&& forall|k: Seq<char>| k != key ==> #[trigger] after.metadata(k) == before.metadata(k)
    &&& forall|k: Seq<char>| k != key ==> #[trigger] after.body(k) == before.body(k)
    &&& match before.write_result(url, headers, content) {
        Ok(()) => holds(after.metadata(key), after.body(key), headers, content),
        Err(e) => after.metadata(key) == before.metadata(key) && after.body(key) == before.body(
            key,
        ),
    }
}

/// How the cache `after` follows from the cache `before` by the outcome of
/// the request for `url`: a body and a redirect are stored, and nothing else
/// touches the cache.
pub open spec fn cache_after<C: HttpCache>(
    before: C,
    after: C,
    url: Seq<char>,
    outcome: Result<FetchOnceResultView, FetchErrorView>,
) -> bool {
    match outcome {
        Ok(FetchOnceResultView::Code(bytes, headers)) => stored(before, after, url, headers, bytes),
        Ok(FetchOnceResultView::Redirect(to, headers)) => stored(
            before,
            after,
            url,
            headers,
            Seq::<u8>::empty(),
        ),
        _ => after == before,
    }
}

/// A cache setting, or the default in place of it.
pub open spec fn setting_or(setting: Option<CacheSetting>, default: CacheSetting)
    -> CacheSettingView {
    match setting {
        Some(s) => s@,
        None => default@,
    }
}

/// The step with which the fetch of `specifier` begins.
///
/// The scheme must be supported and the permissions must allow the specifier.
/// What the session cache holds ends the fetch at once. A local file is to be
/// read, a data URL is decoded on the spot, a blob is to be looked up. A
/// remote specifier is an error where remote fetches are switched off, and
/// else begins its first hop with the full number of redirects to go.
pub open spec fn first_step<C: HttpCache, P: Permissions>(
    cache: C,
    session: Map<Seq<char>, FileView>,
    tokens: Seq<AuthTokenView>,
    allow_remote: bool,
    permissions: P,
    specifier: Seq<char>,
    accept: Option<Seq<char>>,
    setting: CacheSettingView,
    now: u64,
) -> FetchStepView {
    match validated_scheme(specifier) {
        Err(e) => FetchStepView::Done(Err(e)),
        Ok(scheme) => match checked(permissions, specifier) {
            Err(e) => FetchStepView::Done(Err(e)),
            Ok(()) => match cached(session, specifier) {
                Some(file) => FetchStepView::Done(Ok(file)),
                None => match scheme {
                    Scheme::File => FetchStepView::ReadLocal { specifier },
                    Scheme::Data => FetchStepView::Done(data_url_file(specifier)),
                    Scheme::Blob => FetchStepView::ReadBlob { specifier },
                    _ => if !allow_remote {
                        FetchStepView::Done(Err(no_remote(specifier)))
                    } else {
                        hop_step(
                            cache,
                            permissions,
                            tokens,
                            specifier,
                            specifier,
                            REDIRECT_LIMIT as int,
                            accept,
                            setting,
                            now,
                        )
                    },
                },
            },
        },
    }
}

/// Whether the step serves only files under specifiers with a supported
/// scheme.
pub open spec fn step_is_supported(step: FetchStepView) -> bool {
    step matches FetchStepView::Done(Ok(file)) ==> has_supported_scheme(file.specifier)
}

/// The step that a fetch has come to when `failures` failures that may pass,
/// each for the reason `why`, have come in a row for the request of `pending`.
pub open spec fn after_failures(pending: RemoteFetchView, why: Seq<char>, failures: nat)
    -> FetchStepView
    decreases failures,
{
    if failures == 0 {
        FetchStepView::Request(pending)
    } else {
        match after_failures(pending, why, (failures - 1) as nat) {
            FetchStepView::Request(waiting) => retry_step(waiting, why),
            FetchStepView::Retry { delay_ms, pending: waiting } => retry_step(waiting, why),
            done => done,
        }
    }
}

/// A request is tried again at most once: after one failure that may pass the
/// fetch waits and asks again, after the second in a row it has failed, and
/// stays so.
pub proof fn lemma_at_most_one_retry(pending: RemoteFetchView, why: Seq<char>, failures: nat)
    requires
        !pending.retried,
    ensures
        failures == 0 ==> after_failures(pending, why, failures) == FetchStepView::Request(pending),
        failures == 1 ==> after_failures(pending, why, failures) == (FetchStepView::Retry {
            delay_ms: RETRY_DELAY_MS,
            pending: RemoteFetchView { retried: true, ..pending },
        }),
        failures >= 2 ==> after_failures(pending, why, failures) == FetchStepView::Done(
            Err(import_failed(pending.args.url, why)),
        ),
    decreases failures,
{
    if failures >= 1 {
        lemma_at_most_one_retry(pending, why, (failures - 1) as nat);
    }
}

/// A body that comes after at most one failure that may pass ends the fetch
/// as it would have without the failure: with the file that it stands for,
/// where it can be stored.
pub proof fn lemma_body_after_failures<C: HttpCache, P: Permissions>(
    before: C,
    after: C,
    permissions: P,
    tokens: Seq<AuthTokenView>,
    pending: RemoteFetchView,
    why: Seq<char>,
    failures: nat,
    bytes: Seq<u8>,
    headers: Map<Seq<char>, Seq<char>>,
    now: u64,
)
    requires
        !pending.retried,
        failures <= 1,
    ensures
        ({
            let waiting = match after_failures(pending, why, failures) {
                FetchStepView::Retry { delay_ms, pending: waiting } => waiting,
                _ => pending,
            };
            response_step(
                before,
                after,
                permissions,
                tokens,
                waiting,
                Ok(FetchOnceResultView::Code(bytes, headers)),
                now,
            ) == response_step(
                before,
                after,
                permissions,
                tokens,
                pending,
                Ok(FetchOnceResultView::Code(bytes, headers)),
                now,
            )
        }),
{
    lemma_at_most_one_retry(pending, why, failures);
}

/// The redirects of a fetch are counted down from the limit: the hop that
/// follows the redirect number `followed + 1` begins with that many fewer to
/// go, and where more than the limit were followed it ends the fetch with
/// "too many redirects". Below the limit, a target that is allowed and not
/// served from the cache is asked for.
pub proof fn lemma_redirect_budget<C: HttpCache, P: Permissions>(
    before: C,
    after: C,
    permissions: P,
    tokens: Seq<AuthTokenView>,
    pending: RemoteFetchView,
    followed: nat,
    to: Seq<char>,
    headers: Map<Seq<char>, Seq<char>>,
    now: u64,
)
    requires
        pending.redirect_limit == REDIRECT_LIMIT - followed,
        before.write_result(pending.args.url, headers, Seq::<u8>::empty()) is Ok,
    ensures
        ({
            let step = response_step(
                before,
                after,
                permissions,
                tokens,
                pending,
                Ok(FetchOnceResultView::Redirect(to, headers)),
                now,
            );
            &&& followed + 1 > REDIRECT_LIMIT ==> step == FetchStepView::Done(
                Err(too_many_redirects()),
            )
            &&& followed + 1 <= REDIRECT_LIMIT && validated_scheme(to) is Ok && permissions.allows(to)
                && !uses_cache(after, to, pending.cache_setting, now) ==> (step matches FetchStepView::Request(
                next,
            ) && next.args.url == to && next.redirect_limit == REDIRECT_LIMIT - (followed + 1))
        }),
{
}

/// An answer of "not modified" for a URL that the cache holds nothing under
/// ends the fetch with an error.
pub proof fn lemma_not_modified_without_entry<C: HttpCache, P: Permissions>(
    before: C,
    after: C,
    permissions: P,
    tokens: Seq<AuthTokenView>,
    pending: RemoteFetchView,
    now: u64,
)
    requires
        cached_file(before, pending.args.url, REDIRECT_LIMIT as int) == Ok::<
            Option<FileView>,
            FetchErrorView,
        >(None),
    ensures
        response_step(
            before,
            after,
            permissions,
            tokens,
            pending,
            Ok(FetchOnceResultView::NotModified),
            now,
        ) == FetchStepView::Done(Err(not_modified_without_entry(pending.args.url))),
{
}

/// Whether the scheme of the serialized URL `text` is `http` or `https`.
pub open spec fn is_remote(text: Seq<char>) -> bool {
    validated_scheme(text) == Ok::<Scheme, FetchErrorView>(Scheme::Http) || validated_scheme(text)
        == Ok::<Scheme, FetchErrorView>(Scheme::Https)
}

/// The fetch of a remote specifier of which neither cache holds anything
/// makes one request, and the body that answers it ends the fetch with the
/// file that it stands for, where it can be stored.
pub proof fn lemma_first_fetch_asks_once<C: HttpCache, P: Permissions>(
    before: C,
    after: C,
    session: Map<Seq<char>, FileView>,
    tokens: Seq<AuthTokenView>,
    permissions: P,
    specifier: Seq<char>,
    accept: Option<Seq<char>>,
    bytes: Seq<u8>,
    headers: Map<Seq<char>, Seq<char>>,
    now: u64,
)
    requires
        is_remote(specifier),
        permissions.allows(specifier),
        !session.contains_key(specifier),
        cached_file(before, specifier, REDIRECT_LIMIT as int) == Ok::<
            Option<FileView>,
            FetchErrorView,
        >(None),
        before.write_result(specifier, headers, bytes) is Ok,
    ensures
        ({
            let first = first_step(
                before,
                session,
                tokens,
                true,
                permissions,
                specifier,
                accept,
                CacheSettingView::Use,
                now,
            );
            &&& first matches FetchStepView::Request(pending)
            &&& pending.args.url == specifier
            &&& pending.requested == specifier
            &&& response_step(
                before,
                after,
                permissions,
                tokens,
                pending,
                Ok(FetchOnceResultView::Code(bytes, headers)),
                now,
            ) == FetchStepView::Done(remote_file(specifier, bytes, headers))
        }),
{
}

/// A fetch that ended with a file is answered from the session cache the next
/// time: the fetch of the same specifier is done at its first step, with the
/// same file and without a request, whatever the cache setting.
pub proof fn lemma_second_fetch_is_served<C: HttpCache, P: Permissions>(
    cache: C,
    session: Map<Seq<char>, FileView>,
    tokens: Seq<AuthTokenView>,
    allow_remote: bool,
    permissions: P,
    specifier: Seq<char>,
    file: FileView,
    accept: Option<Seq<char>>,
    setting: CacheSettingView,
    now: u64,
)
    requires
        has_supported_scheme(specifier),
        !is_file(specifier),
        permissions.allows(specifier),
    ensures
        first_step(
            cache,
            session_after(session, specifier, FetchStepView::Done(Ok(file))),
            tokens,
            allow_remote,
            permissions,
            specifier,
            accept,
            setting,
            now,
        ) == FetchStepView::Done(Ok(file)),
{
}

/// A local file is never answered from the session cache: where the
/// specifier names a local file and is allowed, the first step of its fetch is
/// to read the file.
pub proof fn lemma_local_file_is_read<C: HttpCache, P: Permissions>(
    cache: C,
    session: Map<Seq<char>, FileView>,
    tokens: Seq<AuthTokenView>,
    allow_remote: bool,
    permissions: P,
    specifier: Seq<char>,
    accept: Option<Seq<char>>,
    setting: CacheSettingView,
    now: u64,
)
    requires
        holds_no_local_file(session),
        is_file(specifier),
        permissions.allows(specifier),
    ensures
        first_step(
            cache,
            session,
            tokens,
            allow_remote,
            permissions,
            specifier,
            accept,
            setting,
            now,
        ) == (FetchStepView::ReadLocal { specifier }),
{
    reveal_strlit("data");
    reveal_strlit("blob");
    reveal_strlit("file");
    assert("data"@[0] != "file"@[0]);
    assert("blob"@[0] != "file"@[0]);
}

/// Retry once, and bail otherwise.
pub fn handle_request_or_server_error(retried: &mut bool, specifier: &Specifier, err_str: String) -> (r:
    Result<(), FetchError>)
    ensures
        *final(retried),
        !*old(retried) ==> r is Ok,
        *old(retried) ==> (r matches Err(e) && e@ == import_failed(specifier@, err_str@)),
{
    if !*retried {
        *retried = true;
        Ok(())
    } else {
        Err(FetchError::import_failed(specifier.as_str(), err_str.as_str()))
    }
}

impl<C: HttpCache> FileFetcher<C> {
    /// Ends a fetch with `file`, which is kept in the session cache under what
    /// was asked for.
    fn finish(&mut self, requested: Specifier, file: File) -> (step: FetchStep)
        requires
            has_supported_scheme(file@.specifier),
        ensures
            step@ == FetchStepView::Done(Ok(file@)),
            final(self).cache@ == with_file(old(self).cache@, requested@, file@),
            final(self).http_cache == old(self).http_cache,
            final(self).has_settings_of(*old(self)),
    {
        let _ = self.cache.insert(requested, file.clone());
        FetchStep::Done(Ok(file))
    }

    /// Begins one hop of a remote fetch: the fetch asked for `requested` has
    /// come to `specifier` and may follow `redirect_limit` redirects more.
    pub fn fetch_remote<P: Permissions>(
        &mut self,
        requested: Specifier,
        specifier: &Specifier,
        permissions: &P,
        redirect_limit: i64,
        maybe_accept: Option<String>,
        cache_setting: CacheSetting,
        now: u64,
    ) -> (step: FetchStep)
        ensures
            step@ == hop_step(
                old(self).http_cache,
                *permissions,
                token_views(old(self).auth_tokens.tokens@),
                requested@,
                specifier@,
                redirect_limit as int,
                text_view(maybe_accept),
                cache_setting@,
                now,
            ),
            final(self).cache@ == session_after(old(self).cache@, requested@, step@),
            step_is_supported(step@),
            final(self).http_cache == old(self).http_cache,
            final(self).has_settings_of(*old(self)),
    {
        if redirect_limit < 0 {
            return FetchStep::Done(Err(FetchError::too_many_redirects()));
        }
        match get_validated_scheme(specifier) {
            Err(e) => {
                return FetchStep::Done(Err(e));
            },
            Ok(_) => {},
        }
        match permissions.check_specifier(specifier) {
            Err(e) => {
                return FetchStep::Done(Err(e));
            },
            Ok(()) => {},
        }
        if self.should_use_cache(specifier, &cache_setting, now) {
            match self.fetch_cached(specifier, redirect_limit) {
                Ok(Some(file)) => {
                    return self.finish(requested, file);
                },
                Ok(None) => {},
                Err(e) => {
                    return FetchStep::Done(Err(e));
                },
            }
        }
        if cache_setting.is_only() {
            return FetchStep::Done(Err(FetchError::not_cached(specifier.as_str())));
        }
        let cache_key = self.http_cache.cache_item_key(specifier);
        let maybe_etag = match self.http_cache.read_metadata(&cache_key) {
            Ok(Some(metadata)) => match metadata.headers.get("etag") {
                Some(etag) => Some(etag.clone()),
                None => None,
            },
            _ => None,
        };
        let maybe_auth_token = self.auth_tokens.get(specifier);
        FetchStep::Request(
            RemoteFetch {
                requested,
                args: FetchOnceArgs {
                    url: specifier.clone(),
                    maybe_accept,
                    maybe_etag,
                    maybe_auth_token,
                },
                redirect_limit,
                retried: false,
                cache_setting,
            },
        )
    }

    /// Takes the outcome of the request of `pending` and says what is next.
    pub fn on_response<P: Permissions>(
        &mut self,
        permissions: &P,
        pending: RemoteFetch,
        outcome: Result<FetchOnceResult, FetchError>,
        now: u64,
    ) -> (step: FetchStep)
        ensures
            step@ == response_step(
                old(self).http_cache,
                final(self).http_cache,
                *permissions,
                token_views(old(self).auth_tokens.tokens@),
                pending@,
                fetch_once_view(outcome),
                now,
            ),
            cache_after(
                old(self).http_cache,
                final(self).http_cache,
                pending@.args.url,
                fetch_once_view(outcome),
            ),
            final(self).cache@ == session_after(old(self).cache@, pending@.requested, step@),
            step_is_supported(step@),
            final(self).has_settings_of(*old(self)),
    {
        proof {
            use_type_invariant(&pending);
        }
        let RemoteFetch { requested, args, redirect_limit, retried, cache_setting } = pending;
        let FetchOnceArgs { url, maybe_accept, maybe_etag, maybe_auth_token } = args;
        match outcome {
            Err(e) => FetchStep::Done(Err(e)),
            Ok(FetchOnceResult::NotModified) => {
                match self.fetch_cached(&url, REDIRECT_LIMIT) {
                    Ok(Some(file)) => self.finish(requested, file),
                    Ok(None) => FetchStep::Done(
                        Err(FetchError::not_modified_without_entry(url.as_str())),
                    ),
                    Err(e) => FetchStep::Done(Err(e)),
                }
            },
            Ok(FetchOnceResult::Redirect(redirect_url, headers)) => {
                let nothing: Vec<u8> = Vec::new();
                match self.http_cache.set(&url, headers, nothing.as_slice()) {
                    Err(e) => FetchStep::Done(Err(e)),
                    Ok(()) => self.fetch_remote(
                        requested,
                        &redirect_url,
                        permissions,
                        redirect_limit - 1,
                        maybe_accept,
                        cache_setting,
                        now,
                    ),
                }
            },
            Ok(FetchOnceResult::Code(bytes, headers)) => {
                match self.http_cache.set(&url, headers.clone(), bytes.as_slice()) {
                    Err(e) => FetchStep::Done(Err(e)),
                    Ok(()) => match build_remote_file(&url, bytes, &headers) {
                        Ok(file) => self.finish(requested, file),
                        Err(e) => FetchStep::Done(Err(e)),
                    },
                }
            },
            Ok(FetchOnceResult::RequestError(why)) => {
                let mut retried = retried;
                match handle_request_or_server_error(&mut retried, &url, why) {
                    Ok(()) => FetchStep::Retry {
                        delay_ms: RETRY_DELAY_MS,
                        pending: RemoteFetch {
                            requested,
                            args: FetchOnceArgs { url, maybe_accept, maybe_etag, maybe_auth_token },
                            redirect_limit,
                            retried,
                            cache_setting,
                        },
                    },
                    Err(e) => FetchStep::Done(Err(e)),
                }
            },
            Ok(FetchOnceResult::ServerError(status)) => {
                let mut retried = retried;
                match handle_request_or_server_error(&mut retried, &url, display_status(status)) {
                    Ok(()) => FetchStep::Retry {
                        delay_ms: RETRY_DELAY_MS,
                        pending: RemoteFetch {
                            requested,
                            args: FetchOnceArgs { url, maybe_accept, maybe_etag, maybe_auth_token },
                            redirect_limit,
                            retried,
                            cache_setting,
                        },
                    },
                    Err(e) => FetchStep::Done(Err(e)),
                }
            },
        }
    }

    /// Takes the blob that was looked up for `specifier`, or its absence, and
    /// ends the fetch.
    pub fn on_blob(&mut self, specifier: Specifier, blob: Option<Blob>) -> (r: Result<
        File,
        FetchError,
    >)
        ensures
            file_view(r) == blob_file(specifier@, blob_view(blob)),
            final(self).cache@ == session_after(
                old(self).cache@,
                specifier@,
                FetchStepView::Done(file_view(r)),
            ),
            final(self).http_cache == old(self).http_cache,
            final(self).has_settings_of(*old(self)),
    {
        match self.fetch_blob_url(&specifier, blob) {
            Ok(file) => {
                let _ = self.cache.insert(specifier, file.clone());
                Ok(file)
            },
            Err(e) => Err(e),
        }
    }

    /// Fetch a source file: the first step.
    pub fn fetch<P: Permissions>(&mut self, specifier: &Specifier, permissions: &P, now: u64) -> (step:
        FetchStep)
        ensures
            step@ == first_step(
                old(self).http_cache,
                old(self).cache@,
                token_views(old(self).auth_tokens.tokens@),
                old(self).allow_remote,
                *permissions,
                specifier@,
                None,
                old(self).cache_setting@,
                now,
            ) || (is_file(specifier@) && step@ == FetchStepView::Done(
                Err(invalid_file_path(specifier@)),
            )),
            final(self).cache@ == session_after(old(self).cache@, specifier@, step@),
            holds_no_local_file(final(self).cache@),
            step_is_supported(step@),
            final(self).http_cache == old(self).http_cache,
            final(self).has_settings_of(*old(self)),
    {
        self.begin(specifier, permissions, None, None, now)
    }

    /// Fetch a source file with the options given: the first step.
    pub fn fetch_with_options<P: Permissions>(&mut self, options: &FetchOptions<P>, now: u64) -> (step:
        FetchStep)
        ensures
            step@ == first_step(
                old(self).http_cache,
                old(self).cache@,
                token_views(old(self).auth_tokens.tokens@),
                old(self).allow_remote,
                options.permissions,
                options.specifier@,
                text_view(options.maybe_accept),
                setting_or(options.maybe_cache_setting, old(self).cache_setting),
                now,
            ) || (is_file(options.specifier@) && step@ == FetchStepView::Done(
                Err(invalid_file_path(options.specifier@)),
            )),
            final(self).cache@ == session_after(old(self).cache@, options.specifier@, step@),
            holds_no_local_file(final(self).cache@),
            step_is_supported(step@),
            final(self).http_cache == old(self).http_cache,
            final(self).has_settings_of(*old(self)),
    {
        let maybe_accept = match &options.maybe_accept {
            Some(accept) => Some(accept.clone()),
            None => None,
        };
        let maybe_cache_setting = match &options.maybe_cache_setting {
            Some(setting) => Some(setting.clone()),
            None => None,
        };
        self.begin(
            &options.specifier,
            &options.permissions,
            maybe_accept,
            maybe_cache_setting,
            now,
        )
    }

    /// The first step of a fetch.
    fn begin<P: Permissions>(
        &mut self,
        specifier: &Specifier,
        permissions: &P,
        maybe_accept: Option<String>,
        maybe_cache_setting: Option<CacheSetting>,
        now: u64,
    ) -> (step: FetchStep)
        ensures
            step@ == first_step(
                old(self).http_cache,
                old(self).cache@,
                token_views(old(self).auth_tokens.tokens@),
                old(self).allow_remote,
                *permissions,
                specifier@,
                text_view(maybe_accept),
                setting_or(maybe_cache_setting, old(self).cache_setting),
                now,
            ) || (is_file(specifier@) && step@ == FetchStepView::Done(
                Err(invalid_file_path(specifier@)),
            )),
            final(self).cache@ == session_after(old(self).cache@, specifier@, step@),
            holds_no_local_file(final(self).cache@),
            step_is_supported(step@),
            final(self).http_cache == old(self).http_cache,
            final(self).has_settings_of(*old(self)),
    {
        let held = self.cache.get(specifier);
        let scheme = match get_validated_scheme(specifier) {
            Err(e) => {
                return FetchStep::Done(Err(e));
            },
            Ok(scheme) => scheme,
        };
        match permissions.check_specifier(specifier) {
            Err(e) => {
                return FetchStep::Done(Err(e));
            },
            Ok(()) => {},
        }
        match held {
            Some(file) => {
                assert(with_file(self.cache@, specifier@, file@) =~= self.cache@);
                return FetchStep::Done(Ok(file));
            },
            None => {},
        }
        match scheme {
            Scheme::File => {
                // we do not in memory cache files, as this would prevent files on the
                // disk changing effecting things like workers and dynamic imports.
                match local_path(specifier) {
                    Ok(path) => FetchStep::ReadLocal { specifier: specifier.clone(), path },
                    Err(e) => FetchStep::Done(Err(e)),
                }
            },
            Scheme::Data => {
                match self.fetch_data_url(specifier) {
                    Ok(file) => self.finish(specifier.clone(), file),
                    Err(e) => FetchStep::Done(Err(e)),
                }
            },
            Scheme::Blob => FetchStep::ReadBlob { specifier: specifier.clone() },
            _ => {
                if !self.allow_remote {
                    return FetchStep::Done(Err(FetchError::no_remote(specifier.as_str())));
                }
                let cache_setting = match maybe_cache_setting {
                    Some(setting) => setting,
                    None => self.cache_setting.clone(),
                };
                self.fetch_remote(
                    specifier.clone(),
                    specifier,
                    permissions,
                    REDIRECT_LIMIT,
                    maybe_accept,
                    cache_setting,
                    now,
                )
            },
        }
    }
}

} // verus!
