//! The registry of bearer tokens, and the choice of one by the host of a
//! specifier.

use crate::decode::text_view;
use crate::specifier::{url_host, url_port, Specifier};
use crate::text::{
    decimal_digits, decimal_string, ends_with, find, find_char, from_chars, lower, rfind,
    rfind_char, slice_of, split, split_chars, to_chars, to_lower, trim, trimmed, views,
};
use vstd::prelude::*;
use vstd::string::StringExecFns;

verus! {

/// A bearer token and the host that it is for.
#[derive(Debug)]
pub struct AuthToken {
    /// The host, in lower case, with its port where the token is for one port
    /// only. The token is also for the subdomains of the host.
    pub host: String,
    /// The token.
    pub token: String,
}

/// An `AuthToken` as a plain value.
pub struct AuthTokenView {
    pub host: Seq<char>,
    pub token: Seq<char>,
}

impl View for AuthToken {
    type V = AuthTokenView;

    open spec fn view(&self) -> AuthTokenView {
        AuthTokenView { host: self.host@, token: self.token@ }
    }
}

/// The tokens as plain values.
pub open spec fn token_views(tokens: Seq<AuthToken>) -> Seq<AuthTokenView> {
    Seq::new(tokens.len(), |i: int| tokens[i]@)
}

/// The registry of tokens, in the order in which they are tried.
#[derive(Debug)]
pub struct AuthTokens {
    pub tokens: Vec<AuthToken>,
}

/// The host of the URL with the serialization `text`, followed by a colon and
/// the port where the URL names one.
pub open spec fn authority(text: Seq<char>) -> Option<Seq<char>> {
    match url_host(text) {
        Some(host) => Some(
            match url_port(text) {
                Some(port) => host + seq![':'] + decimal_digits(port as nat),
                None => host,
            },
        ),
        None => None,
    }
}

/// The value of the `authorization` header that carries `token`.
pub open spec fn bearer(token: Seq<char>) -> Seq<char> {
    "Bearer "@ + token
}

/// The header value for the first of `tokens[from..]` whose host the
/// authority `authority`, in lower case, ends with.
pub open spec fn token_from(tokens: Seq<AuthTokenView>, authority: Seq<char>, from: int) -> Option<
    Seq<char>,
>
    decreases tokens.len() - from,
{
    if from < 0 || from >= tokens.len() {
        None
    } else if tokens[from].host.is_suffix_of(lower(authority)) {
        Some(bearer(tokens[from].token))
    } else {
        token_from(tokens, authority, from + 1)
    }
}

/// The value of the `authorization` header for the URL with the serialization
/// `text`: that of the first token whose host the URL's authority ends with;
/// none where the URL has no host.
pub open spec fn token_for(tokens: Seq<AuthTokenView>, text: Seq<char>) -> Option<Seq<char>> {
    match authority(text) {
        Some(authority) => token_from(tokens, authority, 0),
        None => None,
    }
}

/// The token that the piece `token@host` of a registry text stands for: none
/// where the piece has no `@`, or where what stands before the last `@` holds
/// a colon and so is no bearer token.
pub open spec fn entry_of(piece: Seq<char>) -> Option<AuthTokenView> {
    let at = rfind(piece, '@');
    if at < 0 {
        None
    } else if find(piece.take(at), ':') < at {
        None
    } else {
        Some(AuthTokenView { host: lower(piece.skip(at + 1)), token: piece.take(at) })
    }
}

/// The tokens that the pieces stand for, in their order.
pub open spec fn entries_of(pieces: Seq<Seq<char>>) -> Seq<AuthTokenView>
    decreases pieces.len(),
{
    if pieces.len() == 0 {
        Seq::empty()
    } else {
        match entry_of(pieces.last()) {
            Some(entry) => entries_of(pieces.drop_last()).push(entry),
            None => entries_of(pieces.drop_last()),
        }
    }
}

/// The tokens that a registry text names: the text is trimmed and parted at
/// its semicolons, and each piece read as `token@host`.
pub open spec fn parsed_tokens(text: Seq<char>) -> Seq<AuthTokenView> {
    entries_of(split(trim(text), ';'))
}

impl AuthTokens {
    /// The registry that the text names, or the empty one where there is no
    /// text.
    pub fn new(maybe_tokens: Option<String>) -> (r: AuthTokens)
        ensures
            token_views(r.tokens@) == match maybe_tokens {
                Some(text) => parsed_tokens(text@),
                None => Seq::empty(),
            },
    {
        match maybe_tokens {
            Some(text) => AuthTokens::parse(text.as_str()),
            None => {
                let r = AuthTokens { tokens: Vec::new() };
                assert(token_views(r.tokens@) =~= Seq::empty());
                r
            },
        }
    }

    /// The registry that the text names.
    pub fn parse(text: &str) -> (r: AuthTokens)
        ensures
            token_views(r.tokens@) == parsed_tokens(text@),
    {
        let chars = to_chars(text);
        let kept = trimmed(&chars, 0, chars.len());
        assert(chars@.subrange(0, chars@.len() as int) == chars@);
        let pieces = split_chars(&kept, ';');
        let mut tokens: Vec<AuthToken> = Vec::new();
        assert(token_views(tokens@) =~= entries_of(views(pieces@).take(0)));
        let mut i: usize = 0;
        while i < pieces.len()
            invariant
                i <= pieces@.len(),
                token_views(tokens@) == entries_of(views(pieces@).take(i as int)),
            decreases pieces@.len() - i,
        {
            let piece = &pieces[i];
            proof {
                let next = views(pieces@).take(i + 1);
                assert(next.drop_last() =~= views(pieces@).take(i as int));
                assert(next.last() == piece@);
            }
            match rfind_char(piece, '@') {
                Some(at) => {
                    let token = slice_of(piece, 0, at);
                    assert(token@ == piece@.take(at as int));
                    if find_char(&token, ':', 0) >= at {
                        let host = slice_of(piece, at + 1, piece.len());
                        assert(host@ == piece@.skip(at + 1));
                        let host = from_chars(&to_lower(&host));
                        let ghost before = token_views(tokens@);
                        tokens.push(AuthToken { host, token: from_chars(&token) });
                        assert(token_views(tokens@) =~= before.push(entry_of(piece@)->0));
                    }
                },
                None => {},
            }
            i += 1;
        }
        assert(views(pieces@).take(pieces@.len() as int) =~= views(pieces@));
        AuthTokens { tokens }
    }

    /// The value of the `authorization` header for `specifier`.
    pub fn get(&self, specifier: &Specifier) -> (r: Option<String>)
        ensures
            text_view(r) == token_for(token_views(self.tokens@), specifier@),
    {
        let host = match specifier.host() {
            Some(host) => host,
            None => {
                return None;
            },
        };
        let mut name = to_chars(host);
        match specifier.port() {
            Some(port) => {
                name.push(':');
                let mut digits = decimal_string(port as u64);
                name.append(&mut digits);
            },
            None => {},
        }
        assert(authority(specifier@) == Some(name@));
        let name = to_lower(&name);
        let mut i: usize = 0;
        while i < self.tokens.len()
            invariant
                i <= self.tokens@.len(),
                authority(specifier@) is Some,
                name@ == lower(authority(specifier@)->0),
                token_from(token_views(self.tokens@), authority(specifier@)->0, 0) == token_from(
                    token_views(self.tokens@),
                    authority(specifier@)->0,
                    i as int,
                ),
            decreases self.tokens@.len() - i,
        {
            let entry = &self.tokens[i];
            let entry_host = to_chars(entry.host.as_str());
            if ends_with(&name, &entry_host) {
                return Some(String::from_str("Bearer ").concat(entry.token.as_str()));
            }
            i += 1;
        }
        None
    }
}

} // verus!
