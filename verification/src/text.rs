//! Small tools for taking strings apart by their characters.

use vstd::prelude::*;
use vstd::std_specs::iter::IteratorSpec;

verus! {

/// The characters of a string, in their order.
pub fn chars_of(s: &str) -> (r: Vec<char>)
    ensures
        r@ == s@,
{
    let mut out: Vec<char> = Vec::new();
    let chars = s.chars();
    for c in it: chars
        invariant
            it.seq() == s@,
            out@ == s@.take(it.index() as int),
    {
        out.push(c);
        assert(s@.take(it.index() + 1) == s@.take(it.index() as int).push(c));
    }
    assert(s@.take(s@.len() as int) == s@);
    out
}

/// Whether a character has the Unicode property `White_Space`, as
/// `char::is_whitespace` decides it.
pub uninterp spec fn white_space(c: char) -> bool;

/// The characters below U+0080 that have the property `White_Space`: the
/// space, and the five controls from the tab to the carriage return.
pub open spec fn ascii_white_space(c: char) -> bool {
    c == ' ' || 0x09 <= (c as u32) <= 0x0d
}

/// Whether a character is white space: written out below U+0080, by
/// Unicode's table above it.
pub open spec fn is_white_space(c: char) -> bool {
    if (c as u32) < 0x80 {
        ascii_white_space(c)
    } else {
        white_space(c)
    }
}

/// Calls `char::is_whitespace`, which says whether the character has the
/// property `White_Space` of Unicode's `PropList.txt`. Below U+0080 that
/// list holds U+0009 to U+000D and the space, which is stated; the rest of
/// the table is not written out here and is known by its name only.
#[verifier::external_body]
pub(crate) fn is_whitespace(c: char) -> (r: bool)
    ensures
        r == white_space(c),
        (c as u32) < 0x80 ==> r == ascii_white_space(c),
{
    c.is_whitespace()
}

/// Whether a text is empty or made of white space only.
pub open spec fn blank(s: Seq<char>) -> bool {
    forall|i: int| 0 <= i < s.len() ==> is_white_space(#[trigger] s[i])
}

/// Whether nothing but white space stands in the text.
pub fn is_blank(chars: &Vec<char>) -> (r: bool)
    ensures
        r == blank(chars@),
{
    let mut i: usize = 0;
    while i < chars.len()
        invariant
            i <= chars.len(),
            forall|j: int| 0 <= j < i ==> is_white_space(#[trigger] chars@[j]),
        decreases chars.len() - i,
    {
        if !is_whitespace(chars[i]) {
            return false;
        }
        i += 1;
    }
    true
}

/// Where `c` stands first in the text.
pub fn find_first(chars: &Vec<char>, c: char) -> (r: Option<usize>)
    ensures
        match r {
            Some(i) => chars@.index_of_first(c) == Some(i as int),
            None => chars@.index_of_first(c) is None,
        },
        r is Some <==> chars@.contains(c),
        r matches Some(i) ==> i < chars@.len() && chars@[i as int] == c,
{
    let mut i: usize = 0;
    while i < chars.len()
        invariant
            i <= chars.len(),
            forall|j: int| 0 <= j < i ==> chars@[j] != c,
        decreases chars.len() - i,
    {
        if chars[i] == c {
            proof {
                chars@.index_of_first_ensures(c);
                assert(chars@[i as int] == c);
            }
            return Some(i);
        }
        i += 1;
    }
    proof {
        chars@.index_of_first_ensures(c);
    }
    None
}

/// Where `c` stands last in the text.
pub fn find_last(chars: &Vec<char>, c: char) -> (r: Option<usize>)
    ensures
        match r {
            Some(i) => chars@.index_of_last(c) == Some(i as int),
            None => chars@.index_of_last(c) is None,
        },
        r is Some <==> chars@.contains(c),
        r matches Some(i) ==> i < chars@.len() && chars@[i as int] == c,
{
    let mut i: usize = chars.len();
    while i > 0
        invariant
            i <= chars.len(),
            forall|j: int| i <= j < chars@.len() ==> chars@[j] != c,
        decreases i,
    {
        i -= 1;
        if chars[i] == c {
            proof {
                chars@.index_of_last_ensures(c);
                assert(chars@[i as int] == c);
            }
            return Some(i);
        }
    }
    proof {
        chars@.index_of_last_ensures(c);
    }
    None
}

/// Whether the text begins with `prefix`.
pub fn starts_with(chars: &Vec<char>, prefix: &Vec<char>) -> (r: bool)
    ensures
        r == prefix@.is_prefix_of(chars@),
{
    if prefix.len() > chars.len() {
        return false;
    }
    let mut i: usize = 0;
    while i < prefix.len()
        invariant
            i <= prefix.len(),
            prefix.len() <= chars.len(),
            forall|j: int| 0 <= j < i ==> prefix@[j] == chars@[j],
        decreases prefix.len() - i,
    {
        if prefix[i] != chars[i] {
            assert(chars@.subrange(0, prefix@.len() as int)[i as int] == chars@[i as int]);
            return false;
        }
        i += 1;
    }
    assert(prefix@ =~= chars@.subrange(0, prefix@.len() as int));
    true
}

/// Whether the part of the text from `from` on ends with `suffix`.
pub fn ends_with_from(chars: &Vec<char>, from: usize, suffix: &Vec<char>) -> (r: bool)
    requires
        from <= chars.len(),
    ensures
        r == suffix@.is_suffix_of(chars@.skip(from as int)),
{
    let rest = chars.len() - from;
    if suffix.len() > rest {
        return false;
    }
    let shift = chars.len() - suffix.len();
    let mut i: usize = 0;
    while i < suffix.len()
        invariant
            i <= suffix.len(),
            suffix.len() <= rest,
            rest == chars.len() - from,
            shift == chars.len() - suffix.len(),
            forall|j: int| 0 <= j < i ==> suffix@[j] == chars@[shift + j],
        decreases suffix.len() - i,
    {
        if suffix[i] != chars[shift + i] {
            proof {
                let tail = chars@.skip(from as int);
                let end = tail.subrange((tail.len() - suffix@.len()) as int, tail.len() as int);
                assert(end[i as int] == chars@[shift + i]);
            }
            return false;
        }
        i += 1;
    }
    proof {
        let tail = chars@.skip(from as int);
        let end = tail.subrange((tail.len() - suffix@.len()) as int, tail.len() as int);
        assert(suffix@ =~= end);
    }
    true
}

/// The part of a string between two character positions, as a new string.
pub fn slice_of(s: &str, from: usize, to: usize) -> (r: String)
    requires
        from <= to <= s@.len(),
    ensures
        r@ == s@.subrange(from as int, to as int),
{
    s.substring_char(from, to).to_owned()
}

/// Whether two strings hold the same characters.
pub fn str_eq(a: &str, b: &str) -> (r: bool)
    ensures
        r == (a@ == b@),
{
    let x = chars_of(a);
    let y = chars_of(b);
    if x.len() != y.len() {
        return false;
    }
    let mut i: usize = 0;
    while i < x.len()
        invariant
            i <= x.len(),
            x.len() == y.len(),
            x@ == a@,
            y@ == b@,
            forall|j: int| 0 <= j < i ==> x@[j] == y@[j],
        decreases x.len() - i,
    {
        if x[i] != y[i] {
            assert(a@[i as int] != b@[i as int]);
            return false;
        }
        i += 1;
    }
    assert(x@ =~= y@);
    true
}

} // verus!
