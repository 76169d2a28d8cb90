//! Whether a stored response may still be used without asking the origin: the
//! freshness rule of HTTP caching. The lifetime of a response is its
//! `max-age`, or else the distance from its `date` to its `expires`; no
//! lifetime is guessed where neither is given.

use crate::file::header;
use crate::headers::HeadersMap;
use crate::text::{
    chars_equal, lower, parse_decimal, parse_decimal_spec, split, split_chars, starts_with,
    to_chars, to_lower, trim, trimmed, views,
};
use vstd::prelude::*;

verus! {

/// The second since the epoch that `text` names as a date of RFC 2822, which
/// the dates of HTTP are; `None` where it names none.
pub uninterp spec fn http_date(text: Seq<char>) -> Option<i64>;

/// `DateTime::parse_from_rfc2822` of `chrono`, and of the date it gives the
/// `timestamp`: the seconds from the epoch to the date.
#[verifier::external_body]
fn parse_http_date(text: &str) -> (r: Option<i64>)
    ensures
        r == http_date(text@),
{
    match chrono::DateTime::parse_from_rfc2822(text) {
        Ok(date) => Some(date.timestamp()),
        Err(_) => None,
    }
}

/// A piece of a `cache-control` value as the directive it is: trimmed, and in
/// lower case.
pub open spec fn directive(piece: Seq<char>) -> Seq<char> {
    lower(trim(piece))
}

/// The pieces of the `cache-control` header, where there is one.
pub open spec fn cache_control(headers: Map<Seq<char>, Seq<char>>) -> Seq<Seq<char>> {
    match header(headers, "cache-control"@) {
        Some(value) => split(value, ','),
        None => Seq::empty(),
    }
}

/// Whether one of the directives forbids serving the stored response without
/// asking: `no-cache` or `no-store`.
pub open spec fn forbids_reuse(pieces: Seq<Seq<char>>) -> bool {
    exists|i: int|
        0 <= i < pieces.len() && (directive(#[trigger] pieces[i]) == "no-cache"@ || directive(
            pieces[i],
        ) == "no-store"@)
}

/// What introduces the lifetime among the directives.
pub open spec fn max_age_prefix() -> Seq<char> {
    "max-age="@
}

/// What the first `max-age` directive of `pieces[from..]` names: the seconds,
/// or `None` where it names no number that fits in 64 bits. Without such a
/// directive there is nothing.
pub open spec fn max_age_from(pieces: Seq<Seq<char>>, from: int) -> Option<Option<u64>>
    decreases pieces.len() - from,
{
    if from < 0 || from >= pieces.len() {
        None
    } else if max_age_prefix().is_prefix_of(directive(pieces[from])) {
        Some(parse_decimal_spec(directive(pieces[from]).skip(max_age_prefix().len() as int)))
    } else {
        max_age_from(pieces, from + 1)
    }
}

/// The seconds that the response had already spent in caches when it was
/// received: the `age` header, or 0 where there is none that is a number.
pub open spec fn age_on_arrival(headers: Map<Seq<char>, Seq<char>>) -> u64 {
    match header(headers, "age"@) {
        Some(value) => match parse_decimal_spec(trim(value)) {
            Some(age) => age,
            None => 0,
        },
        None => 0,
    }
}

/// The second at which the origin made the response: its `date` header, or
/// the second at which it was stored where it has none that is a date.
pub open spec fn date_of(headers: Map<Seq<char>, Seq<char>>, stored_at: u64) -> int {
    match header(headers, "date"@) {
        Some(value) => match http_date(value) {
            Some(date) => date as int,
            None => stored_at as int,
        },
        None => stored_at as int,
    }
}

/// The seconds for which the response may be used from when the origin made
/// it. A `max-age` directive decides alone, and gives no lifetime where it
/// names no number. Without one, the lifetime runs to what `expires` names,
/// and there is none where `expires` is missing or no date.
pub open spec fn lifetime(headers: Map<Seq<char>, Seq<char>>, stored_at: u64) -> int {
    match max_age_from(cache_control(headers), 0) {
        Some(Some(max_age)) => max_age as int,
        Some(None) => 0,
        None => match header(headers, "expires"@) {
            Some(value) => match http_date(value) {
                Some(expires) => expires - date_of(headers, stored_at),
                None => 0,
            },
            None => 0,
        },
    }
}

/// The seconds that have passed at the second `now` since a response was
/// stored at the second `stored_at`; none where the clock went back.
pub open spec fn resident_time(stored_at: u64, now: u64) -> int {
    if now >= stored_at {
        now - stored_at
    } else {
        0
    }
}

/// Whether a response with the headers `headers`, stored at the second
/// `stored_at`, is fresh at the second `now`: its `cache-control` forbids no
/// reuse, and its age, which is the age on arrival and the time since it was
/// stored, is below its lifetime.
pub open spec fn is_fresh(headers: Map<Seq<char>, Seq<char>>, stored_at: u64, now: u64) -> bool {
    &&& !forbids_reuse(cache_control(headers))
    &&& age_on_arrival(headers) + resident_time(stored_at, now) < lifetime(headers, stored_at)
}

/// The seconds that the response had already spent in caches when it was
/// received.
fn arrival_age(headers: &HeadersMap) -> (age: u64)
    ensures
        age == age_on_arrival(headers@),
{
    match headers.get("age") {
        Some(value) => {
            let chars = to_chars(value.as_str());
            let kept = trimmed(&chars, 0, chars.len());
            assert(chars@.subrange(0, chars@.len() as int) == chars@);
            assert(kept@.subrange(0, kept@.len() as int) == kept@);
            match parse_decimal(&kept, 0, kept.len()) {
                Some(age) => age,
                None => 0,
            }
        },
        None => 0,
    }
}

/// The second at which the origin made the response.
fn response_date(headers: &HeadersMap, stored_at: u64) -> (date: i128)
    ensures
        date == date_of(headers@, stored_at),
{
    match headers.get("date") {
        Some(value) => match parse_http_date(value.as_str()) {
            Some(date) => date as i128,
            None => stored_at as i128,
        },
        None => stored_at as i128,
    }
}

/// What the directives say: whether one of them forbids reuse, and what the
/// first `max-age` among them names.
#[verifier::loop_isolation(false)]
fn read_directives(headers: &HeadersMap) -> (r: (bool, Option<Option<u64>>))
    ensures
        r.0 == forbids_reuse(cache_control(headers@)),
        !r.0 ==> r.1 == max_age_from(cache_control(headers@), 0),
{
    let value = match headers.get("cache-control") {
        Some(value) => value,
        None => {
            return (false, None);
        },
    };
    let chars = to_chars(value.as_str());
    let pieces = split_chars(&chars, ',');
    let no_cache = to_chars("no-cache");
    let no_store = to_chars("no-store");
    let prefix = to_chars("max-age=");
    let mut max_age: Option<Option<u64>> = None;
    let mut i: usize = 0;
    while i < pieces.len()
        invariant
            i <= pieces@.len(),
            forall|j: int|
                0 <= j < i ==> directive(#[trigger] views(pieces@)[j]) != "no-cache"@ && directive(
                    views(pieces@)[j],
                ) != "no-store"@,
            max_age is Some ==> max_age == max_age_from(views(pieces@), 0),
            max_age is None ==> max_age_from(views(pieces@), 0) == max_age_from(
                views(pieces@),
                i as int,
            ),
        decreases pieces@.len() - i,
    {
        let kept = trimmed(&pieces[i], 0, pieces[i].len());
        let name = to_lower(&kept);
        assert(pieces@[i as int]@.subrange(0, pieces@[i as int]@.len() as int)
            == pieces@[i as int]@);
        assert(name@ == directive(views(pieces@)[i as int]));
        if chars_equal(&name, &no_cache) || chars_equal(&name, &no_store) {
            assert(forbids_reuse(views(pieces@)));
            return (true, None);
        }
        if max_age.is_none() && starts_with(&name, &prefix) {
            max_age = Some(parse_decimal(&name, prefix.len(), name.len()));
            assert(name@.subrange(prefix@.len() as int, name@.len() as int) == name@.skip(
                prefix@.len() as int,
            ));
        }
        i += 1;
    }
    (false, max_age)
}

/// Whether the stored response is fresh at the second `now`.
pub fn check_fresh(headers: &HeadersMap, stored_at: u64, now: u64) -> (r: bool)
    ensures
        r == is_fresh(headers@, stored_at, now),
{
    let (forbidden, max_age) = read_directives(headers);
    if forbidden {
        return false;
    }
    let lifetime: i128 = match max_age {
        Some(Some(max_age)) => max_age as i128,
        Some(None) => 0,
        None => match headers.get("expires") {
            Some(value) => match parse_http_date(value.as_str()) {
                Some(expires) => expires as i128 - response_date(headers, stored_at),
                None => 0,
            },
            None => 0,
        },
    };
    let resident: u64 = if now >= stored_at {
        now - stored_at
    } else {
        0
    };
    let age: i128 = arrival_age(headers) as i128 + resident as i128;
    age < lifetime
}

} // verus!
