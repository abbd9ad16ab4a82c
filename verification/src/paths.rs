//! File extensions, compared without regard to the case of ASCII letters.

use crate::backend::extension;
use crate::backend::path_extension;
use vstd::prelude::*;
use vstd::string::*;

verus! {

/// `c` with an ASCII capital turned into its small letter.
pub open spec fn ascii_lower(c: char) -> char {
    if 'A' <= c && c <= 'Z' {
        ((c as u8) + 32) as char
    } else {
        c
    }
}

/// `text` with every ASCII capital turned into its small letter.
pub open spec fn lowered(text: Seq<char>) -> Seq<char> {
    Seq::new(text.len(), |i: int| ascii_lower(text[i]))
}

/// The extension of an output file if it is one that the tool writes, in
/// small letters: `jpg` or `png`.
pub open spec fn supported_extension(raw: Seq<char>) -> Option<Seq<char>> {
    if lowered(raw) == "jpg"@ || lowered(raw) == "png"@ {
        Some(lowered(raw))
    } else {
        None
    }
}

/// The supported extension of `path`, if it has one.
pub open spec fn file_ext(path: Seq<char>) -> Option<Seq<char>> {
    match path_extension(path) {
        Some(raw) => supported_extension(raw),
        None => None,
    }
}

fn lower(c: char) -> (small: char)
    ensures
        small == ascii_lower(c),
{
    if 'A' <= c && c <= 'Z' {
        ((c as u8) + 32) as char
    } else {
        c
    }
}

/// Whether `text`, with its ASCII capitals made small, reads `word`.
pub fn reads_as(text: &str, word: &str) -> (same: bool)
    ensures
        same == (lowered(text@) == word@),
{
    let n: usize = text.unicode_len();
    if n != word.unicode_len() {
        return false;
    }
    let mut i: usize = 0;
    while i < n
        invariant
            i <= n,
            n == text@.len(),
            n == word@.len(),
            forall|k: int| 0 <= k < i ==> ascii_lower(text@[k]) == word@[k],
        decreases n - i,
    {
        if lower(text.get_char(i)) != word.get_char(i) {
            assert(lowered(text@)[i as int] != word@[i as int]);
            return false;
        }
        i = i + 1;
    }
    assert(lowered(text@) =~= word@);
    true
}

/// Tells whether `raw`, the extension of a path as written, is one that the
/// tool writes, and gives it back in small letters.
pub fn accept_extension(raw: &str) -> (found: Option<String>)
    ensures
        found is Some <==> supported_extension(raw@) is Some,
        found matches Some(ext) ==> supported_extension(raw@) == Some(ext@),
{
    if reads_as(raw, "jpg") {
        Some(String::from_str("jpg"))
    } else if reads_as(raw, "png") {
        Some(String::from_str("png"))
    } else {
        None
    }
}

/// The extension of `path` in small letters, if it is `jpg` or `png` in any
/// mix of capitals and small letters.
pub fn get_file_ext(path: &str) -> (found: Option<String>)
    ensures
        found is Some <==> file_ext(path@) is Some,
        found matches Some(ext) ==> file_ext(path@) == Some(ext@),
{
    match extension(path) {
        Some(raw) => accept_extension(raw.as_str()),
        None => None,
    }
}

} // verus!
