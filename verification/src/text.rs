//! Text as sequences of characters: the comparisons that the registry's
//! lookups and the client discovery are made of.

use vstd::prelude::*;

verus! {

/// What `str::to_lowercase` makes of a text.
pub uninterp spec fn spec_lowercase(text: Seq<char>) -> Seq<char>;

/// What `str::trim` leaves of a text.
pub uninterp spec fn spec_trim(text: Seq<char>) -> Seq<char>;

/// What `str::replace` makes of a text: `text` with `to` in the place of
/// each occurrence of `from`.
pub uninterp spec fn spec_replace(text: Seq<char>, from: Seq<char>, to: Seq<char>) -> Seq<char>;

/// Whether `needle` stands in `hay` at position `at`.
pub open spec fn spec_occurs_at(hay: Seq<char>, at: int, needle: Seq<char>) -> bool {
    0 <= at && at + needle.len() <= hay.len() && hay.subrange(at, at + needle.len()) == needle
}

/// Whether `needle` stands somewhere in `hay`.
pub open spec fn spec_contains(hay: Seq<char>, needle: Seq<char>) -> bool {
    exists|at: int| spec_occurs_at(hay, at, needle)
}

/// Whether `text` begins with `prefix`.
pub open spec fn spec_starts_with(text: Seq<char>, prefix: Seq<char>) -> bool {
    spec_occurs_at(text, 0, prefix)
}

/// An ASCII capital as its small letter; every other character as it is.
pub open spec fn spec_ascii_lower(c: char) -> char {
    if 'A' <= c && c <= 'Z' {
        ((c as u8) + 32) as char
    } else {
        c
    }
}

/// Whether two texts are equal up to the case of their ASCII letters.
pub open spec fn spec_eq_ignore_ascii_case(first: Seq<char>, second: Seq<char>) -> bool {
    &&& first.len() == second.len()
    &&& forall|i: int| 0 <= i < first.len() ==> spec_ascii_lower(#[trigger] first[i]) == spec_ascii_lower(second[i])
}

/// Calls `str::to_lowercase`: the text in lower case, as Unicode defines
/// it. The contract only names the result.
#[verifier::external_body]
pub(crate) fn to_lowercase(text: &str) -> (r: String)
    ensures
        r@ == spec_lowercase(text@),
{
    text.to_lowercase()
}

/// Calls `str::trim`: the text without leading and trailing white space, as
/// Unicode defines it. The contract only names the result.
#[verifier::external_body]
pub(crate) fn trim(text: &str) -> (r: &str)
    ensures
        r@ == spec_trim(text@),
{
    text.trim()
}

/// Calls `str::replace`: the text with every match of `from` replaced by
/// `to`. The contract only names the result.
#[verifier::external_body]
pub(crate) fn replace(text: &str, from: &str, to: &str) -> (r: String)
    ensures
        r@ == spec_replace(text@, from@, to@),
{
    text.replace(from, to)
}

/// The characters of `text`.
pub fn chars_of(text: &str) -> (r: Vec<char>)
    ensures
        r@ == text@,
{
    let mut out: Vec<char> = Vec::new();
    for c in it: text.chars()
        invariant
            out@ == it.seq().take(it.index() as int),
            it.seq() == text@,
    {
        out.push(c);
    }
    out
}

/// Whether `needle` stands in `hay` at position `at`.
pub fn occurs_at(hay: &Vec<char>, at: usize, needle: &Vec<char>) -> (r: bool)
    ensures
        r == spec_occurs_at(hay@, at as int, needle@),
{
    if at > hay.len() || needle.len() > hay.len() - at {
        return false;
    }
    let mut i: usize = 0;
    while i < needle.len()
        invariant
            i <= needle.len(),
            at + needle.len() <= hay.len(),
            forall|j: int| 0 <= j < i ==> hay[at + j] == needle[j],
        decreases needle.len() - i,
    {
        if hay[at + i] != needle[i] {
            assert(hay@.subrange(at as int, at + needle.len())[i as int] == hay[at + i]);
            return false;
        }
        i = i + 1;
    }
    assert(hay@.subrange(at as int, at + needle.len()) =~= needle@);
    true
}

/// Whether `needle` stands somewhere in `hay`.
pub fn contains_chars(hay: &Vec<char>, needle: &Vec<char>) -> (r: bool)
    ensures
        r == spec_contains(hay@, needle@),
{
    if needle.len() > hay.len() {
        return false;
    }
    let last = hay.len() - needle.len();
    let mut at: usize = 0;
    loop
        invariant
            at <= last,
            last == hay.len() - needle.len(),
            forall|j: int| 0 <= j < at ==> !spec_occurs_at(hay@, j, needle@),
        decreases last - at,
    {
        if occurs_at(hay, at, needle) {
            return true;
        }
        if at == last {
            return false;
        }
        at = at + 1;
    }
}

/// Whether two texts are the same.
pub fn str_eq(first: &str, second: &str) -> (r: bool)
    ensures
        r == (first@ == second@),
{
    let a = chars_of(first);
    let b = chars_of(second);
    let r = a.len() == b.len() && occurs_at(&a, 0, &b);
    proof {
        if a.len() == b.len() {
            assert(a@.subrange(0, a.len() as int) =~= a@);
        }
    }
    r
}

/// Whether `needle` stands somewhere in `hay`.
pub fn str_contains(hay: &str, needle: &str) -> (r: bool)
    ensures
        r == spec_contains(hay@, needle@),
{
    let a = chars_of(hay);
    let b = chars_of(needle);
    contains_chars(&a, &b)
}

/// Whether `text` begins with `prefix`.
pub fn str_starts_with(text: &str, prefix: &str) -> (r: bool)
    ensures
        r == spec_starts_with(text@, prefix@),
{
    let a = chars_of(text);
    let b = chars_of(prefix);
    occurs_at(&a, 0, &b)
}

/// An ASCII capital as its small letter; every other character as it is.
pub fn ascii_lower(c: char) -> (r: char)
    ensures
        r == spec_ascii_lower(c),
{
    if 'A' <= c && c <= 'Z' {
        ((c as u8) + 32) as char
    } else {
        c
    }
}

/// Whether two texts are equal up to the case of their ASCII letters.
pub fn str_eq_ignore_ascii_case(first: &str, second: &str) -> (r: bool)
    ensures
        r == spec_eq_ignore_ascii_case(first@, second@),
{
    let a = chars_of(first);
    let b = chars_of(second);
    if a.len() != b.len() {
        return false;
    }
    let mut i: usize = 0;
    while i < a.len()
        invariant
            i <= a.len(),
            a.len() == b.len(),
            a@ == first@,
            b@ == second@,
            forall|j: int| 0 <= j < i ==> spec_ascii_lower(#[trigger] a[j]) == spec_ascii_lower(b[j]),
        decreases a.len() - i,
    {
        if ascii_lower(a[i]) != ascii_lower(b[i]) {
            assert(spec_ascii_lower(first@[i as int]) != spec_ascii_lower(second@[i as int]));
            return false;
        }
        i = i + 1;
    }
    true
}

} // verus!
