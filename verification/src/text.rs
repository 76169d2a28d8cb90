//! Character sequences: conversion between strings and vectors of characters,
//! and the small searches that the header and URL rules are built from.
//!
//! Every rule of this crate that looks inside a string is stated over
//! `Seq<char>`; the executable code works on `Vec<char>`.

use vstd::prelude::*;
use vstd::std_specs::iter::IteratorSpec;

verus! {

/// The position of the first `c` in `s` at or after `from`, or `s.len()` when
/// there is none.
pub open spec fn find_from(s: Seq<char>, c: char, from: int) -> int
    decreases s.len() - from,
{
    if from < 0 || from >= s.len() {
        s.len() as int
    } else if s[from] == c {
        from
    } else {
        find_from(s, c, from + 1)
    }
}

/// The position of the first `c` in `s`, or `s.len()` when there is none.
pub open spec fn find(s: Seq<char>, c: char) -> int {
    find_from(s, c, 0)
}

/// `find_from` returns the least position at or after `from` that holds `c`.
pub proof fn lemma_find_from(s: Seq<char>, c: char, from: int)
    requires
        0 <= from <= s.len(),
    ensures
        from <= find_from(s, c, from) <= s.len(),
        find_from(s, c, from) < s.len() ==> s[find_from(s, c, from)] == c,
        forall|j: int| from <= j < find_from(s, c, from) ==> s[j] != c,
    decreases s.len() - from,
{
    if from < s.len() && s[from] != c {
        lemma_find_from(s, c, from + 1);
    }
}

/// The length of `s[..end]` once the `c` at its end are dropped.
pub open spec fn trim_end_at(s: Seq<char>, c: char, end: int) -> int
    decreases end,
{
    if end <= 0 || end > s.len() {
        0
    } else if s[end - 1] == c {
        trim_end_at(s, c, end - 1)
    } else {
        end
    }
}

/// `s` without the `c` at its end.
pub open spec fn trim_end(s: Seq<char>, c: char) -> Seq<char> {
    s.take(trim_end_at(s, c, s.len() as int))
}

/// `trim_end_at` returns the least length that leaves only `c` behind it.
pub proof fn lemma_trim_end_at(s: Seq<char>, c: char, end: int)
    requires
        0 <= end <= s.len(),
    ensures
        0 <= trim_end_at(s, c, end) <= end,
        trim_end_at(s, c, end) > 0 ==> s[trim_end_at(s, c, end) - 1] != c,
        forall|j: int| trim_end_at(s, c, end) <= j < end ==> s[j] == c,
    decreases end,
{
    if end > 0 && s[end - 1] == c {
        lemma_trim_end_at(s, c, end - 1);
    }
}

/// The position of the last `c` in `s[..end]`, or -1 when there is none.
pub open spec fn rfind_before(s: Seq<char>, c: char, end: int) -> int
    decreases end,
{
    if end <= 0 || end > s.len() {
        -1
    } else if s[end - 1] == c {
        end - 1
    } else {
        rfind_before(s, c, end - 1)
    }
}

/// The position of the last `c` in `s`, or -1 when there is none.
pub open spec fn rfind(s: Seq<char>, c: char) -> int {
    rfind_before(s, c, s.len() as int)
}

/// Unicode white space, as `str::trim` understands it.
pub open spec fn is_space(c: char) -> bool {
    let n = c as u32;
    (0x09 <= n <= 0x0d) || n == 0x20 || n == 0x85 || n == 0xa0 || n == 0x1680 || (0x2000 <= n
        <= 0x200a) || n == 0x2028 || n == 0x2029 || n == 0x202f || n == 0x205f || n == 0x3000
}

/// The position of the first character of `s` at or after `from` that is no
/// white space, or `s.len()`.
pub open spec fn skip_space(s: Seq<char>, from: int) -> int
    decreases s.len() - from,
{
    if from < 0 || from >= s.len() {
        s.len() as int
    } else if is_space(s[from]) {
        skip_space(s, from + 1)
    } else {
        from
    }
}

/// The length of `s[..end]` once the white space at its end is dropped, but
/// never less than `low`.
pub open spec fn drop_space(s: Seq<char>, low: int, end: int) -> int
    decreases end,
{
    if end <= low || end <= 0 || end > s.len() {
        low
    } else if is_space(s[end - 1]) {
        drop_space(s, low, end - 1)
    } else {
        end
    }
}

/// `s` without the white space on either side.
pub open spec fn trim(s: Seq<char>) -> Seq<char> {
    let start = skip_space(s, 0);
    s.subrange(start, drop_space(s, start, s.len() as int))
}

/// The lower-case form of an ASCII letter; any other character unchanged.
pub open spec fn lower_char(c: char) -> char {
    if 'A' <= c <= 'Z' {
        ((c as u8) + 32) as char
    } else {
        c
    }
}

/// `s` with its ASCII letters in lower case.
pub open spec fn lower(s: Seq<char>) -> Seq<char> {
    Seq::new(s.len(), |i: int| lower_char(s[i]))
}

/// The value of the decimal digit `c`.
pub open spec fn digit_value(c: char) -> int {
    c as u32 - '0' as u32
}

/// Whether `c` is a decimal digit.
pub open spec fn is_digit(c: char) -> bool {
    '0' <= c <= '9'
}

/// The number that the decimal digits `s` write, read from the left.
pub open spec fn decimal_value(s: Seq<char>) -> nat
    decreases s.len(),
{
    if s.len() == 0 {
        0
    } else {
        (decimal_value(s.drop_last()) * 10 + digit_value(s.last())) as nat
    }
}

/// Whether `s` is one or more decimal digits.
pub open spec fn is_decimal(s: Seq<char>) -> bool {
    s.len() > 0 && forall|i: int| 0 <= i < s.len() ==> is_digit(#[trigger] s[i])
}

/// The decimal digits of `n`, without leading zeros.
pub open spec fn decimal_digits(n: nat) -> Seq<char>
    decreases n,
{
    if n < 10 {
        seq![digit_char(n)]
    } else {
        decimal_digits(n / 10).push(digit_char(n % 10))
    }
}

/// The character for the digit `d`.
pub open spec fn digit_char(d: nat) -> char {
    if d < 10 {
        (('0' as u8) + (d as u8)) as char
    } else {
        '0'
    }
}

/// The pieces of `s` from `from` on that the separator `c` parts: at least
/// one, and one more than there are separators.
pub open spec fn split_from(s: Seq<char>, c: char, from: int) -> Seq<Seq<char>>
    decreases s.len() - from,
    via split_from_decreases
{
    if from < 0 || from > s.len() {
        Seq::empty()
    } else {
        let end = find_from(s, c, from);
        if end >= s.len() {
            seq![s.subrange(from, s.len() as int)]
        } else {
            seq![s.subrange(from, end)] + split_from(s, c, end + 1)
        }
    }
}

/// The next separator lies at or after where the piece begins, so what is
/// left to part gets shorter.
#[via_fn]
proof fn split_from_decreases(s: Seq<char>, c: char, from: int) {
    if 0 <= from <= s.len() {
        lemma_find_from(s, c, from);
    }
}

/// The pieces of `s` that the separator `c` parts.
pub open spec fn split(s: Seq<char>, c: char) -> Seq<Seq<char>> {
    split_from(s, c, 0)
}

/// There is always a first piece.
pub proof fn lemma_split_from_nonempty(s: Seq<char>, c: char, from: int)
    requires
        0 <= from <= s.len(),
    ensures
        split_from(s, c, from).len() >= 1,
        split_from(s, c, from)[0] == s.subrange(from, find_from(s, c, from)),
{
    lemma_find_from(s, c, from);
}

/// What each of the vectors holds.
pub open spec fn views(v: Seq<Vec<char>>) -> Seq<Seq<char>> {
    Seq::new(v.len(), |i: int| v[i]@)
}

/// The characters of `s`, in order.
pub fn to_chars(s: &str) -> (v: Vec<char>)
    ensures
        v@ == s@,
{
    let mut v: Vec<char> = Vec::new();
    for c in it: s.chars()
        invariant
            it.seq() == s@,
            v@ == it.seq().take(it.index() as int),
    {
        v.push(c);
    }
    v
}

/// `String::push` appends one character to the end of the string.
#[verifier::external_body]
fn push_char(s: &mut String, c: char)
    ensures
        final(s)@ == old(s)@.push(c),
{
    s.push(c)
}

/// `str`'s `==` compares two strings character by character.
#[verifier::external_body]
pub(crate) fn str_eq(a: &str, b: &str) -> (r: bool)
    ensures
        r == (a@ == b@),
{
    a == b
}

/// The string whose characters are `v[from..to]`.
pub fn string_of(v: &Vec<char>, from: usize, to: usize) -> (s: String)
    requires
        from <= to <= v.len(),
    ensures
        s@ == v@.subrange(from as int, to as int),
{
    let mut s = String::new();
    let mut i: usize = from;
    while i < to
        invariant
            from <= i <= to <= v.len(),
            s@ == v@.subrange(from as int, i as int),
        decreases to - i,
    {
        push_char(&mut s, v[i]);
        i += 1;
    }
    s
}

/// The string whose characters are `v`.
pub fn from_chars(v: &Vec<char>) -> (s: String)
    ensures
        s@ == v@,
{
    let s = string_of(v, 0, v.len());
    assert(v@.subrange(0, v.len() as int) == v@);
    s
}

/// A copy of `v[from..to]`.
pub fn slice_of(v: &Vec<char>, from: usize, to: usize) -> (r: Vec<char>)
    requires
        from <= to <= v.len(),
    ensures
        r@ == v@.subrange(from as int, to as int),
{
    let mut r: Vec<char> = Vec::new();
    let mut i: usize = from;
    while i < to
        invariant
            from <= i <= to <= v.len(),
            r@ == v@.subrange(from as int, i as int),
        decreases to - i,
    {
        r.push(v[i]);
        i += 1;
    }
    r
}

/// Whether `a[..a_len]` and `b` hold the same characters.
pub fn prefix_equals(a: &Vec<char>, a_len: usize, b: &Vec<char>) -> (r: bool)
    requires
        a_len <= a.len(),
    ensures
        r == (a@.take(a_len as int) == b@),
{
    if a_len != b.len() {
        return false;
    }
    let mut i: usize = 0;
    while i < a_len
        invariant
            i <= a_len == b.len(),
            a_len <= a.len(),
            forall|j: int| 0 <= j < i ==> a@[j] == b@[j],
        decreases a_len - i,
    {
        if a[i] != b[i] {
            assert(a@.take(a_len as int)[i as int] != b@[i as int]);
            return false;
        }
        i += 1;
    }
    assert(a@.take(a_len as int) =~= b@);
    true
}

/// Whether `a` and `b` hold the same characters.
pub fn chars_equal(a: &Vec<char>, b: &Vec<char>) -> (r: bool)
    ensures
        r == (a@ == b@),
{
    assert(a@.take(a.len() as int) == a@);
    prefix_equals(a, a.len(), b)
}

/// Whether `s` begins with `p`.
pub fn starts_with(s: &Vec<char>, p: &Vec<char>) -> (r: bool)
    ensures
        r == p@.is_prefix_of(s@),
{
    if p.len() > s.len() {
        return false;
    }
    let r = prefix_equals(s, p.len(), p);
    assert(p@.is_prefix_of(s@) <==> s@.take(p.len() as int) == p@) by {
        if p@.is_prefix_of(s@) {
            assert(s@.take(p.len() as int) =~= p@);
        }
    }
    r
}

/// Whether `s` ends with `p`.
pub fn ends_with(s: &Vec<char>, p: &Vec<char>) -> (r: bool)
    ensures
        r == p@.is_suffix_of(s@),
{
    if p.len() > s.len() {
        return false;
    }
    let off: usize = s.len() - p.len();
    let mut i: usize = 0;
    while i < p.len()
        invariant
            i <= p.len() <= s.len(),
            off == s.len() - p.len(),
            forall|j: int| 0 <= j < i ==> s@[off + j] == p@[j],
        decreases p.len() - i,
    {
        if s[off + i] != p[i] {
            assert(s@.skip(off as int)[i as int] != p@[i as int]);
            return false;
        }
        i += 1;
    }
    assert(s@.skip(off as int) =~= p@);
    true
}

/// The position of the first `c` in `v` at or after `from`, or `v.len()`.
pub fn find_char(v: &Vec<char>, c: char, from: usize) -> (i: usize)
    requires
        from <= v.len(),
    ensures
        i == find_from(v@, c, from as int),
        from <= i <= v.len(),
{
    let mut i: usize = from;
    while i < v.len() && v[i] != c
        invariant
            from <= i <= v.len(),
            find_from(v@, c, from as int) == find_from(v@, c, i as int),
        decreases v.len() - i,
    {
        i += 1;
    }
    i
}

/// The position of the last `c` in `v`, where there is one.
pub fn rfind_char(v: &Vec<char>, c: char) -> (r: Option<usize>)
    ensures
        r matches Some(i) ==> i == rfind(v@, c) && i < v.len(),
        r is None ==> rfind(v@, c) == -1,
{
    let mut end: usize = v.len();
    while end > 0
        invariant
            end <= v.len(),
            rfind(v@, c) == rfind_before(v@, c, end as int),
        decreases end,
    {
        if v[end - 1] == c {
            return Some(end - 1);
        }
        end -= 1;
    }
    None
}

/// The length of `v[..end]` without the `c` at its end.
pub fn trim_end_len(v: &Vec<char>, c: char, end: usize) -> (n: usize)
    requires
        end <= v.len(),
    ensures
        n == trim_end_at(v@, c, end as int),
        n <= end,
{
    let mut n: usize = end;
    while n > 0 && v[n - 1] == c
        invariant
            n <= end <= v.len(),
            trim_end_at(v@, c, end as int) == trim_end_at(v@, c, n as int),
        decreases n,
    {
        n -= 1;
    }
    n
}

/// The pieces of `v` that the separator `c` parts.
pub fn split_chars(v: &Vec<char>, c: char) -> (r: Vec<Vec<char>>)
    ensures
        views(r@) == split(v@, c),
        r@.len() >= 1,
{
    let mut r: Vec<Vec<char>> = Vec::new();
    let mut from: usize = 0;
    loop
        invariant_except_break
            from <= v.len(),
            views(r@) + split_from(v@, c, from as int) == split(v@, c),
        ensures
            views(r@) == split(v@, c),
            r@.len() >= 1,
        decreases v.len() - from,
    {
        let end = find_char(v, c, from);
        let piece = slice_of(v, from, end);
        let ghost before = views(r@);
        r.push(piece);
        assert(views(r@) =~= before + seq![v@.subrange(from as int, end as int)]);
        if end >= v.len() {
            assert(views(r@) =~= before + split_from(v@, c, from as int));
            break ;
        }
        assert(views(r@) + split_from(v@, c, end + 1) =~= before + split_from(
            v@,
            c,
            from as int,
        ));
        from = end + 1;
    }
    r
}

/// Whether `c` is Unicode white space.
pub fn char_is_space(c: char) -> (r: bool)
    ensures
        r == is_space(c),
{
    let n: u32 = c as u32;
    (0x09 <= n && n <= 0x0d) || n == 0x20 || n == 0x85 || n == 0xa0 || n == 0x1680 || (0x2000 <= n
        && n <= 0x200a) || n == 0x2028 || n == 0x2029 || n == 0x202f || n == 0x205f || n == 0x3000
}

/// A copy of `v[from..to]` without the white space on either side.
pub fn trimmed(v: &Vec<char>, from: usize, to: usize) -> (r: Vec<char>)
    requires
        from <= to <= v.len(),
    ensures
        r@ == trim(v@.subrange(from as int, to as int)),
{
    let ghost part = v@.subrange(from as int, to as int);
    let mut a: usize = from;
    while a < to && char_is_space(v[a])
        invariant
            from <= a <= to <= v.len(),
            part == v@.subrange(from as int, to as int),
            skip_space(part, 0) == skip_space(part, a - from),
        decreases to - a,
    {
        a += 1;
    }
    let mut b: usize = to;
    while b > a && char_is_space(v[b - 1])
        invariant
            from <= a <= b <= to <= v.len(),
            part == v@.subrange(from as int, to as int),
            drop_space(part, a - from, part.len() as int) == drop_space(part, a - from, b - from),
        decreases b,
    {
        b -= 1;
    }
    let r = slice_of(v, a, b);
    assert(r@ =~= part.subrange(a - from, b - from));
    r
}

/// The lower-case form of an ASCII letter; any other character unchanged.
pub fn to_lower_char(c: char) -> (r: char)
    ensures
        r == lower_char(c),
{
    if 'A' <= c && c <= 'Z' {
        ((c as u8) + 32) as char
    } else {
        c
    }
}

/// `v` with its ASCII letters in lower case.
pub fn to_lower(v: &Vec<char>) -> (r: Vec<char>)
    ensures
        r@ == lower(v@),
{
    let mut r: Vec<char> = Vec::new();
    let mut i: usize = 0;
    while i < v.len()
        invariant
            i <= v.len(),
            r@ == lower(v@).take(i as int),
        decreases v.len() - i,
    {
        r.push(to_lower_char(v[i]));
        assert(r@ =~= lower(v@).take(i + 1));
        i += 1;
    }
    assert(lower(v@).take(v.len() as int) =~= lower(v@));
    r
}

/// What reading the digits `s` as a `u64` gives: `None` where `s` is empty,
/// holds anything but digits, or names a number that does not fit.
pub open spec fn parse_decimal_spec(s: Seq<char>) -> Option<u64> {
    if is_decimal(s) && decimal_value(s) <= u64::MAX {
        Some(decimal_value(s) as u64)
    } else {
        None
    }
}

/// Reads `v[from..to]` as a decimal number.
pub fn parse_decimal(v: &Vec<char>, from: usize, to: usize) -> (r: Option<u64>)
    requires
        from <= to <= v.len(),
    ensures
        r == parse_decimal_spec(v@.subrange(from as int, to as int)),
{
    let ghost part = v@.subrange(from as int, to as int);
    if from == to {
        return None;
    }
    let mut n: u64 = 0;
    let mut i: usize = from;
    while i < to
        invariant
            from <= i <= to <= v.len(),
            part == v@.subrange(from as int, to as int),
            forall|j: int| 0 <= j < i - from ==> is_digit(#[trigger] part[j]),
            n == decimal_value(part.take(i - from)),
        decreases to - i,
    {
        let c: char = v[i];
        if !('0' <= c && c <= '9') {
            assert(!is_digit(part[i - from]));
            return None;
        }
        let d: u64 = (c as u32 - '0' as u32) as u64;
        proof {
            assert(part.take(i - from + 1).drop_last() =~= part.take(i - from));
            assert(part.take(i - from + 1).last() == c);
            assert(decimal_value(part.take(i - from + 1)) == n * 10 + d);
            if is_decimal(part) {
                lemma_decimal_value_monotone(part, i - from + 1);
            }
        }
        if n > (u64::MAX - d) / 10 {
            return None;
        }
        n = n * 10 + d;
        i += 1;
    }
    assert(part.take(to - from) =~= part);
    Some(n)
}

/// A prefix of a digit string names a number no larger than the whole.
pub proof fn lemma_decimal_value_monotone(s: Seq<char>, k: int)
    requires
        0 <= k <= s.len(),
        forall|i: int| 0 <= i < s.len() ==> is_digit(#[trigger] s[i]),
    ensures
        decimal_value(s.take(k)) <= decimal_value(s),
    decreases s.len() - k,
{
    if k < s.len() {
        lemma_decimal_value_monotone(s, k + 1);
        assert(s.take(k + 1).drop_last() =~= s.take(k));
        assert(is_digit(s[k]));
        assert(s.take(k + 1).last() == s[k]);
        assert(digit_value(s[k]) >= 0);
    } else {
        assert(s.take(k) =~= s);
    }
}

/// The decimal digits of `n`.
pub fn decimal_string(n: u64) -> (r: Vec<char>)
    ensures
        r@ == decimal_digits(n as nat),
    decreases n,
{
    if n < 10 {
        let c: char = (('0' as u8) + (n as u8)) as char;
        let mut r: Vec<char> = Vec::new();
        r.push(c);
        assert(r@ =~= seq![digit_char(n as nat)]);
        r
    } else {
        let mut r = decimal_string(n / 10);
        let d: u64 = n % 10;
        let c: char = (('0' as u8) + (d as u8)) as char;
        r.push(c);
        r
    }
}

} // verus!
