//! Text primitives: the handful of string operations the catalogue needs,
//! each with its meaning stated over sequences of characters.

use vstd::prelude::*;

verus! {

/// View of an optional string slice.
pub open spec fn opt_str_view(text: Option<&str>) -> Option<Seq<char>> {
    match text {
        Some(s) => Some(s@),
        None => None,
    }
}

/// View of an optional owned string.
pub open spec fn opt_string_view(text: Option<String>) -> Option<Seq<char>> {
    match text {
        Some(s) => Some(s@),
        None => None,
    }
}

/// Views of a list of owned strings, in order.
pub open spec fn strings_view(texts: Seq<String>) -> Seq<Seq<char>> {
    texts.map_values(|s: String| s@)
}

/// Views of a list of string slices, in order.
pub open spec fn strs_view(texts: Seq<&str>) -> Seq<Seq<char>> {
    texts.map_values(|s: &str| s@)
}

/// Whether `c` has the Unicode property White_Space.
pub open spec fn is_whitespace(c: char) -> bool {
    let u = c as int;
    ||| 0x09 <= u <= 0x0D
    ||| u == 0x20
    ||| u == 0x85
    ||| u == 0xA0
    ||| u == 0x1680
    ||| 0x2000 <= u <= 0x200A
    ||| u == 0x2028
    ||| u == 0x2029
    ||| u == 0x202F
    ||| u == 0x205F
    ||| u == 0x3000
}

/// Number of whitespace characters at the front of `s`.
pub open spec fn leading_whitespace(s: Seq<char>) -> nat
    decreases s.len(),
{
    if s.len() > 0 && is_whitespace(s[0]) {
        1 + leading_whitespace(s.drop_first())
    } else {
        0
    }
}

/// Number of whitespace characters at the back of `s`.
pub open spec fn trailing_whitespace(s: Seq<char>) -> nat
    decreases s.len(),
{
    if s.len() > 0 && is_whitespace(s.last()) {
        1 + trailing_whitespace(s.drop_last())
    } else {
        0
    }
}

/// `s` without its leading and trailing whitespace.
pub open spec fn trimmed(s: Seq<char>) -> Seq<char> {
    let rest = s.skip(leading_whitespace(s) as int);
    rest.take(rest.len() - trailing_whitespace(rest))
}

/// Whether `needle` occurs in `hay` at position `at`.
pub open spec fn occurs_at(hay: Seq<char>, needle: Seq<char>, at: int) -> bool {
    &&& 0 <= at
    &&& at + needle.len() <= hay.len()
    &&& hay.subrange(at, at + needle.len()) == needle
}

/// Whether `needle` occurs somewhere in `hay`.
pub open spec fn has_substring(hay: Seq<char>, needle: Seq<char>) -> bool {
    exists|at: int| occurs_at(hay, needle, at)
}

/// Lexicographic order on texts by code point: `a` sorts no later than `b`.
pub open spec fn text_le(a: Seq<char>, b: Seq<char>) -> bool
    decreases a.len(),
{
    if a.len() == 0 {
        true
    } else if b.len() == 0 {
        false
    } else if a[0] != b[0] {
        (a[0] as int) < (b[0] as int)
    } else {
        text_le(a.drop_first(), b.drop_first())
    }
}

/// The lower-case form of a text under Unicode's case mapping, as
/// `str::to_lowercase` computes it.
pub uninterp spec fn lowercased(text: Seq<char>) -> Seq<char>;

/// Wraps `str::eq`: two slices are equal exactly when they hold the same
/// characters.
#[verifier::external_body]
pub(crate) fn same_text(a: &str, b: &str) -> (same: bool)
    ensures
        same == (a@ == b@),
{
    a == b
}

/// Wraps `str::trim`: the result is the input without the whitespace at
/// either end, whitespace being the characters with the property White_Space.
#[verifier::external_body]
pub(crate) fn trim(s: &str) -> (inner: &str)
    ensures
        inner@ == trimmed(s@),
{
    s.trim()
}

/// Wraps `str::contains` for a string pattern: true exactly when the pattern
/// matches some sub-slice of the text.
#[verifier::external_body]
pub(crate) fn contains(hay: &str, needle: &str) -> (found: bool)
    ensures
        found == has_substring(hay@, needle@),
{
    hay.contains(needle)
}

/// Wraps `str::to_lowercase`: the result is the text's lower-case form.
#[verifier::external_body]
pub(crate) fn lowercase(s: &str) -> (lower: String)
    ensures
        lower@ == lowercased(s@),
{
    s.to_lowercase()
}

/// Wraps the `<=` of `str`: slices are ordered lexicographically by code point.
#[verifier::external_body]
pub(crate) fn sorts_no_later(a: &str, b: &str) -> (le: bool)
    ensures
        le == text_le(a@, b@),
{
    a <= b
}

/// Whether `text` ends with `suffix`.
pub open spec fn has_suffix(text: Seq<char>, suffix: Seq<char>) -> bool {
    suffix.len() <= text.len() && text.subrange(text.len() - suffix.len(), text.len() as int)
        == suffix
}

/// Whether `text` ends with `suffix`.
pub fn ends_with(text: &str, suffix: &str) -> (ends: bool)
    ensures
        ends == has_suffix(text@, suffix@),
{
    let n = text.unicode_len();
    let m = suffix.unicode_len();
    if m > n {
        false
    } else {
        same_text(text.substring_char(n - m, n), suffix)
    }
}

/// The decimal digit for a value below ten.
pub open spec fn digit_text(d: nat) -> Seq<char> {
    if d == 0 {
        "0"@
    } else if d == 1 {
        "1"@
    } else if d == 2 {
        "2"@
    } else if d == 3 {
        "3"@
    } else if d == 4 {
        "4"@
    } else if d == 5 {
        "5"@
    } else if d == 6 {
        "6"@
    } else if d == 7 {
        "7"@
    } else if d == 8 {
        "8"@
    } else {
        "9"@
    }
}

/// The decimal numeral of `n`, without leading zeros.
pub open spec fn decimal_text(n: nat) -> Seq<char>
    decreases n,
{
    if n < 10 {
        digit_text(n)
    } else {
        decimal_text(n / 10) + digit_text(n % 10)
    }
}

fn digit(d: usize) -> (text: &'static str)
    requires
        d < 10,
    ensures
        text@ == digit_text(d as nat),
{
    if d == 0 {
        "0"
    } else if d == 1 {
        "1"
    } else if d == 2 {
        "2"
    } else if d == 3 {
        "3"
    } else if d == 4 {
        "4"
    } else if d == 5 {
        "5"
    } else if d == 6 {
        "6"
    } else if d == 7 {
        "7"
    } else if d == 8 {
        "8"
    } else {
        "9"
    }
}

/// Writes `n` as a decimal numeral.
pub fn decimal(n: usize) -> (text: String)
    ensures
        text@ == decimal_text(n as nat),
    decreases n,
{
    if n < 10 {
        String::from_str(digit(n))
    } else {
        decimal(n / 10).concat(digit(n % 10))
    }
}

/// Borrows an optional string as a slice.
pub fn opt_as_str(text: &Option<String>) -> (slice: Option<&str>)
    ensures
        opt_str_view(slice) == opt_string_view(*text),
{
    match text {
        Some(s) => Some(s.as_str()),
        None => None,
    }
}

/// Copies an optional string.
pub fn clone_opt_string(text: &Option<String>) -> (copy: Option<String>)
    ensures
        copy == *text,
{
    match text {
        Some(s) => Some(s.clone()),
        None => None,
    }
}

} // verus!
