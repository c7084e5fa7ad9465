//! Checks on what the user types: the search term and the output path.

use vstd::prelude::*;
use vstd::string::*;
use vstd::utf8::{encode_scalar, encode_utf8};

verus! {

/// Whether a character has the Unicode property `White_Space`: what
/// `char::is_whitespace` answers for it.
pub uninterp spec fn white_space(c: char) -> bool;

/// How many characters of white space the text starts with.
pub open spec fn leading_space(s: Seq<char>) -> int
    decreases s.len(),
{
    if s.len() == 0 || !white_space(s[0]) {
        0
    } else {
        1 + leading_space(s.drop_first())
    }
}

/// How many characters of white space the text ends with.
pub open spec fn trailing_space(s: Seq<char>) -> int
    decreases s.len(),
{
    if s.len() == 0 || !white_space(s.last()) {
        0
    } else {
        1 + trailing_space(s.drop_last())
    }
}

/// The text without the white space it starts and ends with.
pub open spec fn trimmed(s: Seq<char>) -> Seq<char> {
    if leading_space(s) == s.len() {
        Seq::empty()
    } else {
        s.subrange(leading_space(s), s.len() - trailing_space(s))
    }
}

/// `str::trim` hands back the string without its leading and trailing
/// white space, where white space is what `char::is_whitespace` says. What
/// is left neither starts nor ends with white space.
pub assume_specification[ str::trim ](s: &str) -> (t: &str)
    ensures
        t@ == trimmed(s@),
        t@.len() > 0 ==> !white_space(t@.first()) && !white_space(t@.last()),
;

/// The text starts or ends with white space.
pub open spec fn padded(s: Seq<char>) -> bool {
    s.len() > 0 && (white_space(s[0]) || white_space(s[s.len() - 1]))
}

/// The encoding of a text is the encodings of its parts, one after the
/// other.
proof fn encoding_of_parts(a: Seq<char>, b: Seq<char>)
    ensures
        encode_utf8(a + b) == encode_utf8(a) + encode_utf8(b),
    decreases a.len(),
{
    if a.len() == 0 {
        assert(a + b =~= b);
        assert(encode_utf8(a) + encode_utf8(b) =~= encode_utf8(b));
    } else {
        assert((a + b).drop_first() =~= a.drop_first() + b);
        encoding_of_parts(a.drop_first(), b);
        assert(encode_utf8(a + b) =~= encode_utf8(a) + encode_utf8(b));
    }
}

/// Every character takes at least one byte.
proof fn encoding_is_no_shorter(a: Seq<char>)
    ensures
        encode_utf8(a).len() >= a.len(),
    decreases a.len(),
{
    if a.len() > 0 {
        encoding_is_no_shorter(a.drop_first());
        assert(encode_scalar(a[0] as u32).len() >= 1);
    }
}

/// A part of a text has as many bytes as the text only if it is the whole
/// text.
proof fn part_is_shorter(s: Seq<char>, i: int, j: int)
    requires
        0 <= i <= j <= s.len(),
    ensures
        encode_utf8(s.subrange(i, j)).len() <= encode_utf8(s).len(),
        encode_utf8(s.subrange(i, j)).len() == encode_utf8(s).len() <==> i == 0 && j == s.len(),
{
    let head = s.subrange(0, i);
    let body = s.subrange(i, j);
    let tail = s.subrange(j, s.len() as int);
    assert(s =~= head + body + tail);
    encoding_of_parts(head + body, tail);
    encoding_of_parts(head, body);
    encoding_is_no_shorter(head);
    encoding_is_no_shorter(tail);
}

/// The leading run is white space throughout and ends at the first
/// character that is not.
proof fn leading_run(s: Seq<char>)
    ensures
        0 <= leading_space(s) <= s.len(),
        forall|k: int| 0 <= k < leading_space(s) ==> white_space(#[trigger] s[k]),
        leading_space(s) < s.len() ==> !white_space(s[leading_space(s)]),
    decreases s.len(),
{
    if s.len() > 0 && white_space(s[0]) {
        let rest = s.drop_first();
        leading_run(rest);
        assert forall|k: int| 0 <= k < leading_space(s) implies white_space(#[trigger] s[k]) by {
            if k > 0 {
                assert(s[k] == rest[k - 1]);
            }
        }
    }
}

/// The trailing run is white space throughout and starts after the last
/// character that is not.
proof fn trailing_run(s: Seq<char>)
    ensures
        0 <= trailing_space(s) <= s.len(),
        forall|k: int| s.len() - trailing_space(s) <= k < s.len() ==> white_space(#[trigger] s[k]),
        trailing_space(s) < s.len() ==> !white_space(s[s.len() - 1 - trailing_space(s)]),
    decreases s.len(),
{
    if s.len() > 0 && white_space(s.last()) {
        let rest = s.drop_last();
        trailing_run(rest);
        assert forall|k: int| s.len() - trailing_space(s) <= k < s.len() implies white_space(
            #[trigger] s[k],
        ) by {
            if k < s.len() - 1 {
                assert(s[k] == rest[k]);
            }
        }
    }
}

/// Whether trimming would shorten the text.
fn is_padded(text: &str) -> (b: bool)
    ensures
        b == padded(text@),
{
    let short = text.trim();
    proof {
        let s = text@;
        leading_run(s);
        trailing_run(s);
        if leading_space(s) == s.len() {
            encoding_is_no_shorter(s);
        } else {
            part_is_shorter(s, leading_space(s), s.len() - trailing_space(s));
        }
    }
    short.as_bytes().len() != text.as_bytes().len()
}

/// What [`validate_term_search`] answers for a term.
pub open spec fn term_verdict(name: Seq<char>) -> Result<(), Seq<char>> {
    if name.len() == 0 {
        Err("The term cannot be empty"@)
    } else if padded(name) {
        Err("search term name cannot have leading and trailing space"@)
    } else {
        Ok(())
    }
}

/// A search term must not be empty, nor start or end with white space.
pub fn validate_term_search(name: &str) -> (verdict: Result<(), String>)
    ensures
        match verdict {
            Ok(()) => term_verdict(name@) == Ok::<(), Seq<char>>(()),
            Err(reason) => term_verdict(name@) == Err::<(), Seq<char>>(reason@),
        },
{
    if name.is_empty() {
        Err(String::from_str("The term cannot be empty"))
    } else if is_padded(name) {
        Err(String::from_str("search term name cannot have leading and trailing space"))
    } else {
        Ok(())
    }
}

/// What [`validate_output_path`] answers for a path.
pub open spec fn output_verdict(output: Seq<char>) -> Result<(), Seq<char>> {
    if padded(output) {
        Err("output cannot have leading and trailing space"@)
    } else {
        Ok(())
    }
}

/// An output path must not start or end with white space.
pub fn validate_output_path(output: &str) -> (verdict: Result<(), String>)
    ensures
        match verdict {
            Ok(()) => output_verdict(output@) == Ok::<(), Seq<char>>(()),
            Err(reason) => output_verdict(output@) == Err::<(), Seq<char>>(reason@),
        },
{
    if is_padded(output) {
        Err(String::from_str("output cannot have leading and trailing space"))
    } else {
        Ok(())
    }
}

} // verus!
