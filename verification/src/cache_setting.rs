//! How far a fetch may rely on the persistent cache, and the reload list that
//! exempts URLs and whole directories from it.

use crate::specifier::Specifier;
use crate::text::{
    find, find_char, lemma_find_from, lemma_trim_end_at, prefix_equals, slice_of, to_chars,
    trim_end, trim_end_at, trim_end_len,
};
use vstd::prelude::*;

verus! {

/// How far a fetch may rely on the persistent cache.
#[derive(Debug)]
pub enum CacheSetting {
    /// Only the cache is used; a miss is an error.
    Only,
    /// The cache is never read, but still written.
    ReloadAll,
    /// The cache is not read for the URLs in the list, nor for what lies
    /// below them.
    ReloadSome(Vec<String>),
    /// The cache is read while the stored response is fresh.
    RespectHeaders,
    /// The cache is read whenever it holds the specifier.
    Use,
}

/// What each of the strings holds.
pub open spec fn strings_view(list: Seq<String>) -> Seq<Seq<char>> {
    Seq::new(list.len(), |i: int| list[i]@)
}

/// A cache setting as a plain value.
pub enum CacheSettingView {
    Only,
    ReloadAll,
    ReloadSome(Seq<Seq<char>>),
    RespectHeaders,
    Use,
}

impl View for CacheSetting {
    type V = CacheSettingView;

    open spec fn view(&self) -> CacheSettingView {
        match self {
            CacheSetting::Only => CacheSettingView::Only,
            CacheSetting::ReloadAll => CacheSettingView::ReloadAll,
            CacheSetting::ReloadSome(list) => CacheSettingView::ReloadSome(strings_view(list@)),
            CacheSetting::RespectHeaders => CacheSettingView::RespectHeaders,
            CacheSetting::Use => CacheSettingView::Use,
        }
    }
}

impl Clone for CacheSetting {
    fn clone(&self) -> (r: Self)
        ensures
            r@ == self@,
    {
        match self {
            CacheSetting::Only => CacheSetting::Only,
            CacheSetting::ReloadAll => CacheSetting::ReloadAll,
            CacheSetting::ReloadSome(list) => {
                let mut copy: Vec<String> = Vec::new();
                let mut i: usize = 0;
                while i < list.len()
                    invariant
                        i <= list@.len(),
                        copy@.len() == i,
                        forall|j: int| 0 <= j < i ==> (#[trigger] copy@[j])@ == list@[j]@,
                    decreases list@.len() - i,
                {
                    copy.push(list[i].clone());
                    i += 1;
                }
                assert(strings_view(copy@) =~= strings_view(list@));
                CacheSetting::ReloadSome(copy)
            },
            CacheSetting::RespectHeaders => CacheSetting::RespectHeaders,
            CacheSetting::Use => CacheSetting::Use,
        }
    }
}

impl CacheSetting {
    /// Whether only the cache may be used.
    pub fn is_only(&self) -> (r: bool)
        ensures
            r == (self@ == CacheSettingView::Only),
    {
        match self {
            CacheSetting::Only => true,
            _ => false,
        }
    }
}

/// A serialized URL without its fragment.
pub open spec fn without_fragment(text: Seq<char>) -> Seq<char> {
    text.take(find(text, '#'))
}

/// A serialized URL that has no fragment, without its query.
pub open spec fn without_query(text: Seq<char>) -> Seq<char> {
    text.take(find(text, '?'))
}

/// Whether `prefix` is `path` cut at the end of one of its segments: all of
/// it, nothing of it, or what stands before one of its slashes.
pub open spec fn at_segment_end(prefix: Seq<char>, path: Seq<char>) -> bool {
    &&& prefix.is_prefix_of(path)
    &&& (prefix.len() == path.len() || prefix.len() == 0 || path[prefix.len() as int] == '/')
}

/// Whether the entry `entry` of a reload list exempts the serialized URL
/// `text` from the cache. It does where it is the URL without its fragment;
/// and where, slashes at the end of both left aside, it is the URL without
/// fragment and query, or what is left of that after some of its last
/// segments are taken away.
pub open spec fn entry_covers(entry: Seq<char>, text: Seq<char>) -> bool {
    let url = without_fragment(text);
    entry == url || at_segment_end(trim_end(entry, '/'), trim_end(without_query(url), '/'))
}

/// Whether some entry of the reload list exempts the serialized URL `text`
/// from the cache.
pub open spec fn reload_list_covers(list: Seq<Seq<char>>, text: Seq<char>) -> bool {
    exists|i: int| 0 <= i < list.len() && entry_covers(#[trigger] list[i], text)
}

/// An entry that ends in a slash exempts every URL that lies below it: every
/// URL that, without fragment and query, begins with the entry.
pub proof fn lemma_entry_covers_below(entry: Seq<char>, text: Seq<char>)
    requires
        entry.len() > 0,
        entry.last() == '/',
        entry.is_prefix_of(without_query(without_fragment(text))),
    ensures
        entry_covers(entry, text),
{
    let path = without_query(without_fragment(text));
    let kept = trim_end_at(entry, '/', entry.len() as int);
    let end = trim_end_at(path, '/', path.len() as int);
    lemma_trim_end_at(entry, '/', entry.len() as int);
    lemma_trim_end_at(path, '/', path.len() as int);
    assert(kept < entry.len());
    if kept > 0 {
        assert(entry[kept - 1] == path[kept - 1]);
    }
    assert(kept <= end);
    assert(trim_end(entry, '/') =~= trim_end(path, '/').take(kept));
    if 0 < kept < end {
        assert(entry[kept] == path[kept]);
        assert(trim_end(path, '/')[kept] == '/');
    }
}

/// An entry exempts only URLs that lie below it: the URL, without its
/// fragment, begins with the entry, slashes at the end of the entry left
/// aside.
pub proof fn lemma_entry_covers_only_below(entry: Seq<char>, text: Seq<char>)
    requires
        entry_covers(entry, text),
    ensures
        trim_end(entry, '/').is_prefix_of(without_fragment(text)),
{
    let url = without_fragment(text);
    let path = without_query(url);
    lemma_trim_end_at(entry, '/', entry.len() as int);
    lemma_trim_end_at(path, '/', path.len() as int);
    lemma_find_from(url, '?', 0);
    lemma_find_from(text, '#', 0);
    if entry == url {
    } else {
        assert(trim_end(path, '/').is_prefix_of(path));
        assert(path.is_prefix_of(url));
    }
}

/// Taking the last segment from `path[..end]`, and the slashes before it,
/// passes over no cut of `path` that ends a segment and does not end in a
/// slash.
proof fn lemma_strip_segment(path: Seq<char>, prefix: Seq<char>, end: int, k: int)
    requires
        0 < end <= path.len(),
        0 <= k <= end,
        forall|j: int| k <= j < end ==> path[j] != '/',
        at_segment_end(prefix, path),
        prefix.len() < end,
        prefix.len() == 0 || prefix.last() != '/',
    ensures
        prefix.len() <= trim_end_at(path, '/', k),
{
    lemma_trim_end_at(path, '/', k);
    let n = prefix.len() as int;
    if n > trim_end_at(path, '/', k) {
        if n >= k {
            assert(path[n] == '/');
        } else {
            assert(prefix.last() == prefix[n - 1]);
            assert(prefix[n - 1] == path[n - 1]);
            assert(path[n - 1] == '/');
        }
    }
}

/// The position in `list` of what `path[..end]` equals, where there is one.
fn position_of(list: &Vec<Vec<char>>, path: &Vec<char>, end: usize) -> (r: Option<usize>)
    requires
        end <= path.len(),
    ensures
        r matches Some(i) ==> i < list@.len() && list@[i as int]@ == path@.take(end as int),
        r is None ==> forall|i: int|
            0 <= i < list@.len() ==> (#[trigger] list@[i])@ != path@.take(end as int),
{
    let mut i: usize = 0;
    while i < list.len()
        invariant
            i <= list@.len(),
            end <= path.len(),
            forall|j: int| 0 <= j < i ==> (#[trigger] list@[j])@ != path@.take(end as int),
        decreases list@.len() - i,
    {
        if prefix_equals(path, end, &list[i]) {
            return Some(i);
        }
        i += 1;
    }
    None
}

/// Whether the reload list exempts the specifier from the cache. The URL is
/// compared without its fragment; then, without its query, it is cut back
/// segment by segment and each cut compared with the list.
pub fn is_reload_listed(list: &Vec<String>, specifier: &Specifier) -> (r: bool)
    ensures
        r == reload_list_covers(strings_view(list@), specifier@),
{
    let text = to_chars(specifier.as_str());
    let url = slice_of(&text, 0, find_char(&text, '#', 0));
    assert(url@ == without_fragment(specifier@));
    let ghost entries = strings_view(list@);
    let mut whole: Vec<Vec<char>> = Vec::new();
    let mut cut: Vec<Vec<char>> = Vec::new();
    let mut i: usize = 0;
    while i < list.len()
        invariant
            i <= list@.len(),
            entries == strings_view(list@),
            whole@.len() == i,
            cut@.len() == i,
            forall|j: int| 0 <= j < i ==> (#[trigger] whole@[j])@ == entries[j],
            forall|j: int| 0 <= j < i ==> (#[trigger] cut@[j])@ == trim_end(entries[j], '/'),
        decreases list@.len() - i,
    {
        let entry = to_chars(list[i].as_str());
        let kept = slice_of(&entry, 0, trim_end_len(&entry, '/', entry.len()));
        whole.push(entry);
        cut.push(kept);
        i += 1;
    }
    match position_of(&whole, &url, url.len()) {
        Some(at) => {
            assert(url@.take(url@.len() as int) == url@);
            assert(entry_covers(entries[at as int], specifier@));
            return true;
        },
        None => {
            assert(url@.take(url@.len() as int) == url@);
            assert forall|j: int| 0 <= j < entries.len() implies #[trigger] entries[j] != url@ by {
                assert(whole@[j]@ == entries[j]);
            }
        },
    }
    let query_free = slice_of(&url, 0, find_char(&url, '?', 0));
    let path = slice_of(&query_free, 0, trim_end_len(&query_free, '/', query_free.len()));
    assert(path@ == trim_end(without_query(url@), '/'));
    proof {
        lemma_trim_end_at(query_free@, '/', query_free@.len() as int);
        assert forall|j: int| 0 <= j < cut@.len() implies (#[trigger] cut@[j])@.len() == 0
            || cut@[j]@.last() != '/' by {
            lemma_trim_end_at(entries[j], '/', entries[j].len() as int);
        }
    }
    let mut end: usize = path.len();
    loop
        invariant
            end <= path@.len(),
            end == path@.len() || end == 0 || path@[end as int] == '/',
            forall|j: int|
                0 <= j < cut@.len() ==> (#[trigger] cut@[j])@.len() == 0 || cut@[j]@.last() != '/',
            forall|j: int|
                0 <= j < cut@.len() && at_segment_end((#[trigger] cut@[j])@, path@) ==> cut@[j]@.len()
                    <= end,
            cut@.len() == entries.len(),
            entries == strings_view(list@),
            url@ == without_fragment(specifier@),
            path@ == trim_end(without_query(url@), '/'),
            forall|j: int| 0 <= j < entries.len() ==> (#[trigger] cut@[j])@ == trim_end(entries[j], '/'),
            forall|j: int| 0 <= j < entries.len() ==> #[trigger] entries[j] != url@,
        decreases end,
    {
        match position_of(&cut, &path, end) {
            Some(at) => {
                assert(at_segment_end(cut@[at as int]@, path@));
                assert(entry_covers(entries[at as int], specifier@));
                return true;
            },
            None => {},
        }
        if end == 0 {
            proof {
                assert forall|j: int| 0 <= j < entries.len() implies !entry_covers(
                    #[trigger] entries[j],
                    specifier@,
                ) by {
                    if at_segment_end(cut@[j]@, path@) {
                        assert(cut@[j]@ =~= path@.take(0));
                    }
                }
            }
            return false;
        }
        let mut k: usize = end;
        while k > 0 && path[k - 1] != '/'
            invariant
                k <= end <= path@.len(),
                forall|j: int| k <= j < end ==> path@[j] != '/',
            decreases k,
        {
            k -= 1;
        }
        let shorter = trim_end_len(&path, '/', k);
        proof {
            lemma_trim_end_at(path@, '/', k as int);
            assert forall|j: int|
                0 <= j < cut@.len() && at_segment_end((#[trigger] cut@[j])@, path@) implies cut@[j]@.len()
                <= shorter by {
                if cut@[j]@.len() == end {
                    assert(cut@[j]@ =~= path@.take(end as int));
                }
                lemma_strip_segment(path@, cut@[j]@, end as int, k as int);
            }
        }
        end = shorter;
    }
}

} // verus!
