//! Table naming: the registered name is derived from the path's file stem,
//! with every character that is not alphanumeric replaced by an underscore,
//! so that the name parses as a bare identifier in query text.
use vstd::prelude::*;
use vstd::string::*;

use crate::text::{
    alphanumeric_char, find_last, is_alphanumeric_char, last_index_of, lemma_last_index_of,
    push_char, suffix_after_last, suffix_after_last_sep,
};

verus! {

/// The path without its directory part: everything after the last slash.
pub open spec fn file_part(path: Seq<char>) -> Seq<char> {
    suffix_after_last(path, '/')
}

/// The file part without its final extension. A name whose only dot is the
/// leading one is kept whole: a hidden file has no extension to strip.
pub open spec fn stem_of(path: Seq<char>) -> Seq<char> {
    let name = file_part(path);
    let d = last_index_of(name, '.');
    if d > 0 {
        name.take(d)
    } else {
        name
    }
}

/// The stem, or the fixed fallback identifier when the stem is empty.
pub open spec fn base_name(path: Seq<char>) -> Seq<char> {
    if stem_of(path).len() == 0 {
        "data"@
    } else {
        stem_of(path)
    }
}

/// Each character kept when alphanumeric and replaced by an underscore
/// otherwise; length and order are preserved.
pub open spec fn sanitized(s: Seq<char>) -> Seq<char> {
    Seq::new(s.len(), |i: int| if alphanumeric_char(s[i]) { s[i] } else { '_' })
}

/// The table name a path yields: the sanitized base name.
pub open spec fn table_name_of(path: Seq<char>) -> Seq<char> {
    sanitized(base_name(path))
}

/// Replaces every character that is not alphanumeric with an underscore.
pub fn sanitize_identifier(s: &str) -> (r: String)
    ensures
        r@ == sanitized(s@),
{
    let n = s.unicode_len();
    let mut out = String::new();
    let mut i: usize = 0;
    while i < n
        invariant
            i <= n,
            n == s@.len(),
            out@ =~= sanitized(s@).take(i as int),
        decreases n - i,
    {
        let c = s.get_char(i);
        if is_alphanumeric_char(c) {
            push_char(&mut out, c);
        } else {
            push_char(&mut out, '_');
        }
        i += 1;
    }
    proof {
        assert(sanitized(s@).take(n as int) =~= sanitized(s@));
    }
    out
}

/// The stem of the path: the file part up to its last dot, or whole when the
/// dot is missing or leading.
pub fn file_stem<'a>(path: &'a str) -> (r: &'a str)
    ensures
        r@ == stem_of(path@),
{
    let name = suffix_after_last_sep(path, '/');
    match find_last(name, '.') {
        Some(d) => {
            if d > 0 {
                proof {
                    lemma_last_index_of(name@, '.');
                }
                name.substring_char(0, d)
            } else {
                name
            }
        },
        None => name,
    }
}

/// Derives the table name for the path: the sanitized file stem, or the
/// sanitized fallback identifier when the stem is empty.
pub fn table_name_for(path: &str) -> (r: String)
    ensures
        r@ == table_name_of(path@),
{
    let stem = file_stem(path);
    if stem.unicode_len() == 0 {
        sanitize_identifier("data")
    } else {
        sanitize_identifier(stem)
    }
}

/// Every character of a derived table name is alphanumeric or an underscore,
/// and the name maps the base name's characters one for one, keeping its
/// length and their relative order.
pub proof fn lemma_table_name_sanitized(path: Seq<char>)
    ensures
        table_name_of(path).len() == base_name(path).len(),
        forall|i: int|
            0 <= i < base_name(path).len() ==> table_name_of(path)[i] == (
            if alphanumeric_char(base_name(path)[i]) {
                base_name(path)[i]
            } else {
                '_'
            }),
        forall|i: int|
            0 <= i < table_name_of(path).len() ==> alphanumeric_char(table_name_of(path)[i])
                || table_name_of(path)[i] == '_',
{
}

} // verus!
