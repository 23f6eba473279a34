//! Whitespace trimming for captured output lines.
//!
//! The trimming policy is this library's own: a whitespace character is a
//! space, tab, carriage return or line feed. Captured lines have trailing
//! whitespace removed; derived identifiers are trimmed on both ends.

use vstd::prelude::*;
use vstd::string::StrSliceExecFns;

verus! {

/// A character this library treats as whitespace when trimming lines.
pub open spec fn is_line_ws(c: char) -> bool {
    c == ' ' || c == '\t' || c == '\r' || c == '\n'
}

/// `s` with every trailing whitespace character removed.
pub open spec fn trim_end_spec(s: Seq<char>) -> Seq<char>
    decreases s.len(),
{
    if s.len() > 0 && is_line_ws(s.last()) {
        trim_end_spec(s.drop_last())
    } else {
        s
    }
}

/// `s` with every leading whitespace character removed.
pub open spec fn trim_start_spec(s: Seq<char>) -> Seq<char>
    decreases s.len(),
{
    if s.len() > 0 && is_line_ws(s.first()) {
        trim_start_spec(s.drop_first())
    } else {
        s
    }
}

/// `s` with whitespace removed from both ends.
pub open spec fn trim_spec(s: Seq<char>) -> Seq<char> {
    trim_start_spec(trim_end_spec(s))
}

fn char_is_line_ws(c: char) -> (b: bool)
    ensures
        b == is_line_ws(c),
{
    c == ' ' || c == '\t' || c == '\r' || c == '\n'
}

/// The longest prefix of `s` that ends in a non-whitespace character.
pub fn trim_end_of(s: &str) -> (r: &str)
    ensures
        r@ == trim_end_spec(s@),
{
    let mut end: usize = s.unicode_len();
    proof {
        assert(s@.take(end as int) =~= s@);
    }
    while end > 0 && char_is_line_ws(s.get_char(end - 1))
        invariant
            end <= s@.len(),
            trim_end_spec(s@.take(end as int)) == trim_end_spec(s@),
        decreases end,
    {
        proof {
            assert(s@.take(end as int).drop_last() =~= s@.take(end - 1));
        }
        end = end - 1;
    }
    proof {
        assert(s@.subrange(0, end as int) =~= s@.take(end as int));
    }
    s.substring_char(0, end)
}

/// The longest suffix of `s` that starts in a non-whitespace character.
pub fn trim_start_of(s: &str) -> (r: &str)
    ensures
        r@ == trim_start_spec(s@),
{
    let len: usize = s.unicode_len();
    let mut start: usize = 0;
    proof {
        assert(s@.subrange(0, len as int) =~= s@);
    }
    while start < len && char_is_line_ws(s.get_char(start))
        invariant
            start <= len == s@.len(),
            trim_start_spec(s@.subrange(start as int, len as int)) == trim_start_spec(s@),
        decreases len - start,
    {
        proof {
            assert(s@.subrange(start as int, len as int).drop_first() =~= s@.subrange(
                start + 1,
                len as int,
            ));
        }
        start = start + 1;
    }
    s.substring_char(start, len)
}

/// `s` trimmed on both ends, as an identifier is derived from captured output.
pub fn trim_of(s: &str) -> (r: &str)
    ensures
        r@ == trim_spec(s@),
{
    trim_start_of(trim_end_of(s))
}

} // verus!
