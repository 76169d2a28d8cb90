use module_fetcher::freshness::check_fresh;
use module_fetcher::headers::HeadersMap;

fn headers(pairs: &[(&str, &str)]) -> HeadersMap {
    let mut h = HeadersMap::new();
    for (name, value) in pairs {
        h.insert(name.to_string(), value.to_string());
    }
    h
}

#[test]
fn max_age_bounds_the_age() {
    let h = headers(&[("cache-control", "max-age=60")]);
    assert!(check_fresh(&h, 1000, 1000));
    assert!(check_fresh(&h, 1000, 1059));
    assert!(!check_fresh(&h, 1000, 1060));
    assert!(!check_fresh(&h, 1000, 5000));
    // A clock that went back counts as no time passed.
    assert!(check_fresh(&h, 1000, 10));
}

#[test]
fn age_on_arrival_counts() {
    let h = headers(&[("cache-control", "max-age=60"), ("age", " 50 ")]);
    assert!(check_fresh(&h, 1000, 1009));
    assert!(!check_fresh(&h, 1000, 1010));
    let h = headers(&[("cache-control", "max-age=60"), ("age", "soon")]);
    assert!(check_fresh(&h, 1000, 1059));
}

#[test]
fn expires_gives_the_lifetime_where_there_is_no_max_age() {
    // 784111777 is Sun, 06 Nov 1994 08:49:37 GMT.
    let h = headers(&[("date", "Sun, 06 Nov 1994 08:49:37 GMT"), ("expires", "Sun, 06 Nov 1994 08:50:37 GMT")]);
    assert!(check_fresh(&h, 784111777, 784111777 + 59));
    assert!(!check_fresh(&h, 784111777, 784111777 + 60));
    // Without a date the time of storing stands for it.
    let h = headers(&[("expires", "Sun, 06 Nov 1994 08:50:37 GMT")]);
    assert!(check_fresh(&h, 784111777 + 30, 784111777 + 59));
    assert!(!check_fresh(&h, 784111777 + 30, 784111777 + 60));
    // What expired before it was made is never fresh.
    let h = headers(&[("date", "Sun, 06 Nov 1994 08:49:37 GMT"), ("expires", "Sun, 06 Nov 1994 08:49:37 GMT")]);
    assert!(!check_fresh(&h, 784111777, 784111777));
    assert!(!check_fresh(&headers(&[("expires", "0")]), 1000, 1000));
    assert!(!check_fresh(&headers(&[("expires", "Thu, 01 Jan 1970 00:00:00 GMT")]), 1000, 1000));
    // A max-age decides alone, also where it names no number.
    let h = headers(&[("cache-control", "max-age=10"), ("expires", "Thu, 01 Dec 2094 16:00:00 GMT")]);
    assert!(!check_fresh(&h, 1000, 1010));
    let h = headers(&[("cache-control", "max-age=soon"), ("expires", "Thu, 01 Dec 2094 16:00:00 GMT")]);
    assert!(!check_fresh(&h, 1000, 1000));
    let h = headers(&[("cache-control", "no-cache"), ("expires", "Thu, 01 Dec 2094 16:00:00 GMT")]);
    assert!(!check_fresh(&h, 1000, 1000));
}

#[test]
fn without_a_lifetime_nothing_is_fresh() {
    assert!(!check_fresh(&headers(&[]), 1000, 1000));
    assert!(!check_fresh(&headers(&[("cache-control", "public")]), 1000, 1000));
    assert!(!check_fresh(&headers(&[("last-modified", "Sun, 06 Nov 1994 08:49:37 GMT")]), 1000, 1000));
    assert!(!check_fresh(&headers(&[("cache-control", "max-age=0")]), 1000, 1000));
    assert!(!check_fresh(&headers(&[("cache-control", "max-age=abc")]), 1000, 1000));
    assert!(!check_fresh(&headers(&[("cache-control", "max-age=-1")]), 1000, 1000));
    assert!(!check_fresh(&headers(&[("cache-control", "max-age=99999999999999999999999")]), 1000, 1000));
}

#[test]
fn no_cache_and_no_store_forbid_reuse() {
    assert!(!check_fresh(&headers(&[("cache-control", "max-age=60, no-cache")]), 1000, 1000));
    assert!(!check_fresh(&headers(&[("cache-control", "No-Store,max-age=60")]), 1000, 1000));
    assert!(check_fresh(&headers(&[("cache-control", "no-cachet, max-age=60")]), 1000, 1000));
}

#[test]
fn directives_are_trimmed_and_taken_without_case() {
    assert!(check_fresh(&headers(&[("cache-control", " Public ,  MAX-AGE=60 ")]), 1000, 1030));
    // The first max-age decides.
    assert!(!check_fresh(&headers(&[("cache-control", "max-age=10, max-age=60")]), 1000, 1030));
    assert!(check_fresh(&headers(&[("cache-control", "max-age=18446744073709551615")]), 0, u64::MAX - 1));
}
