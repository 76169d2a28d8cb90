//! Media type and character encoding from a content type header.

use crate::decode::text_view;
use crate::media_type::{media_type_of, MediaType};
use crate::specifier::Specifier;
use crate::text::{
    from_chars, lemma_split_from_nonempty, split, split_chars, starts_with, string_of, to_chars,
    trim, trimmed, views,
};
use vstd::prelude::*;

verus! {

/// What introduces the character encoding among the parts of a content type.
pub open spec fn charset_prefix() -> Seq<char> {
    "charset="@
}

/// The character encoding that the first of `tokens[from..]` to begin, once
/// trimmed, with `charset=` names.
pub open spec fn first_charset(tokens: Seq<Seq<char>>, from: int) -> Option<Seq<char>>
    decreases tokens.len() - from,
{
    if from < 0 || from >= tokens.len() {
        None
    } else if charset_prefix().is_prefix_of(trim(tokens[from])) {
        Some(trim(tokens[from]).skip(charset_prefix().len() as int))
    } else {
        first_charset(tokens, from + 1)
    }
}

/// The first part of a content type: what stands before its first semicolon.
pub open spec fn first_part(content_type: Seq<char>) -> Seq<char> {
    split(content_type, ';')[0]
}

/// The character encoding that a content type names: that of the first part
/// after the first which, trimmed, begins with `charset=`.
pub open spec fn charset_of(content_type: Seq<char>) -> Option<Seq<char>> {
    first_charset(split(content_type, ';'), 1)
}

/// The media type and the character encoding of the source under `specifier`
/// that came with `content_type`. Without a content type the path of the
/// specifier decides the media type and no encoding is known.
pub open spec fn content_type_parts(specifier: Seq<char>, content_type: Option<Seq<char>>) -> (
    MediaType,
    Option<Seq<char>>,
) {
    match content_type {
        Some(value) => (media_type_of(specifier, Some(first_part(value))), charset_of(value)),
        None => (media_type_of(specifier, None), None),
    }
}

/// A content type, or its absence, as a plain value.
pub open spec fn header_view(value: Option<&String>) -> Option<Seq<char>> {
    match value {
        Some(s) => Some(s@),
        None => None,
    }
}

/// Resolve a media type and optionally the charset from a module specifier and
/// the value of a content type header.
pub fn map_content_type(specifier: &Specifier, maybe_content_type: Option<&String>) -> (r: (
    MediaType,
    Option<String>,
))
    ensures
        (r.0, text_view(r.1)) == content_type_parts(specifier@, header_view(maybe_content_type)),
{
    match maybe_content_type {
        Some(content_type) => {
            let chars = to_chars(content_type.as_str());
            let parts = split_chars(&chars, ';');
            proof {
                lemma_split_from_nonempty(chars@, ';', 0);
            }
            let first = from_chars(&parts[0]);
            assert(first@ == first_part(content_type@));
            let media_type = MediaType::from_content_type(specifier.as_str(), first.as_str());
            let prefix = to_chars("charset=");
            let mut charset: Option<String> = None;
            let mut i: usize = 1;
            while i < parts.len()
                invariant_except_break
                    1 <= i <= parts@.len(),
                    charset is None,
                    first_charset(views(parts@), 1) == first_charset(views(parts@), i as int),
                invariant
                    prefix@ == charset_prefix(),
                ensures
                    text_view(charset) == first_charset(views(parts@), 1),
                decreases parts@.len() - i,
            {
                let token = trimmed(&parts[i], 0, parts[i].len());
                assert(parts@[i as int]@.subrange(0, parts@[i as int]@.len() as int)
                    == parts@[i as int]@);
                assert(token@ == trim(views(parts@)[i as int]));
                if starts_with(&token, &prefix) {
                    charset = Some(string_of(&token, prefix.len(), token.len()));
                    assert(token@.subrange(prefix@.len() as int, token@.len() as int)
                        == token@.skip(prefix@.len() as int));
                    break ;
                }
                i += 1;
            }
            (media_type, charset)
        },
        None => (MediaType::from_specifier(specifier.as_str()), None),
    }
}

} // verus!
