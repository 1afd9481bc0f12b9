//! Character-level text matching.
use vstd::prelude::*;
use vstd::std_specs::iter::IteratorSpec;

verus! {

/// The lower-case form of a text under the Unicode case mapping.
pub uninterp spec fn unicode_lowercase(s: Seq<char>) -> Seq<char>;

/// Whether a character has the Unicode property `White_Space`.
pub uninterp spec fn unicode_white_space(c: char) -> bool;

/// `pattern` occurs in `text` at position `at`.
pub open spec fn occurs_at(text: Seq<char>, pattern: Seq<char>, at: int) -> bool {
    &&& 0 <= at
    &&& at + pattern.len() <= text.len()
    &&& text.subrange(at, at + pattern.len()) == pattern
}

/// `text` begins with `pattern`.
pub open spec fn has_prefix(text: Seq<char>, pattern: Seq<char>) -> bool {
    occurs_at(text, pattern, 0)
}

/// `pattern` occurs somewhere in `text`.
pub open spec fn has_infix(text: Seq<char>, pattern: Seq<char>) -> bool {
    exists|at: int| occurs_at(text, pattern, at)
}

/// A character with the ASCII capitals mapped to their small letters.
pub open spec fn ascii_lower_char(c: char) -> char {
    if 'A' <= c && c <= 'Z' {
        ((c as u32) + 32) as char
    } else {
        c
    }
}

/// A text with the ASCII capitals mapped to their small letters.
pub open spec fn ascii_lower(s: Seq<char>) -> Seq<char> {
    Seq::new(s.len(), |i: int| ascii_lower_char(s[i]))
}

/// A text without its leading white space.
pub open spec fn trim_start(s: Seq<char>) -> Seq<char>
    decreases s.len(),
{
    if s.len() > 0 && unicode_white_space(s[0]) {
        trim_start(s.drop_first())
    } else {
        s
    }
}

/// Every character of the text is white space, so nothing is left of it
/// once it is trimmed.
pub open spec fn is_blank(s: Seq<char>) -> bool {
    forall|i: int| 0 <= i < s.len() ==> unicode_white_space(#[trigger] s[i])
}

/// Calls `str::to_lowercase`, whose result depends on the text alone and is
/// known here only by its name, [`unicode_lowercase`].
#[verifier::external_body]
pub(crate) fn to_lowercase(s: &str) -> (r: String)
    ensures
        r@ == unicode_lowercase(s@),
{
    s.to_lowercase()
}

/// Calls `char::is_whitespace`, which tells whether the character has the
/// Unicode property `White_Space`.
#[verifier::external_body]
pub(crate) fn is_whitespace(c: char) -> (b: bool)
    ensures
        b == unicode_white_space(c),
{
    c.is_whitespace()
}

/// Maps an ASCII capital to its small letter and leaves any other character
/// as it is.
pub fn to_ascii_lower(c: char) -> (r: char)
    ensures
        r == ascii_lower_char(c),
{
    if c >= 'A' && c <= 'Z' {
        let code: u8 = c as u8;
        (code + 32) as char
    } else {
        c
    }
}

/// Tells whether `pattern` occurs in `text` at position `at`.
pub fn matches_at(text: &Vec<char>, pattern: &Vec<char>, at: usize) -> (b: bool)
    ensures
        b == occurs_at(text@, pattern@, at as int),
{
    if pattern.len() > text.len() || at > text.len() - pattern.len() {
        return false;
    }
    let mut k: usize = 0;
    while k < pattern.len()
        invariant
            k <= pattern.len(),
            at + pattern.len() <= text.len(),
            forall|j: int| 0 <= j < k ==> text@[at + j] == pattern@[j],
        decreases pattern.len() - k,
    {
        if text[at + k] != pattern[k] {
            proof {
                let window = text@.subrange(at as int, at + pattern.len());
                assert(window[k as int] == text@[at + k]);
            }
            return false;
        }
        k = k + 1;
    }
    assert(text@.subrange(at as int, at + pattern.len()) =~= pattern@);
    true
}

/// Tells whether what follows position `from` in `text` begins with
/// `pattern` once its ASCII capitals are made small.
pub fn starts_with_lowered(text: &Vec<char>, from: usize, pattern: &Vec<char>) -> (b: bool)
    requires
        from <= text.len(),
    ensures
        b == has_prefix(ascii_lower(text@.subrange(from as int, text.len() as int)), pattern@),
{
    let ghost rest = text@.subrange(from as int, text.len() as int);
    if pattern.len() > text.len() - from {
        return false;
    }
    let mut k: usize = 0;
    while k < pattern.len()
        invariant
            k <= pattern.len(),
            from + pattern.len() <= text.len(),
            rest == text@.subrange(from as int, text.len() as int),
            forall|j: int| 0 <= j < k ==> ascii_lower_char(text@[from + j]) == pattern@[j],
        decreases pattern.len() - k,
    {
        if to_ascii_lower(text[from + k]) != pattern[k] {
            proof {
                let window = ascii_lower(rest).subrange(0, pattern.len() as int);
                assert(window[k as int] == ascii_lower_char(rest[k as int]));
            }
            return false;
        }
        k = k + 1;
    }
    proof {
        let window = ascii_lower(rest).subrange(0, pattern.len() as int);
        assert forall|j: int| 0 <= j < pattern.len() implies window[j] == pattern@[j] by {
            assert(window[j] == ascii_lower_char(rest[j]));
        }
        assert(window =~= pattern@);
    }
    true
}

/// Tells whether `text` begins with `pattern`.
pub fn starts_with(text: &Vec<char>, pattern: &Vec<char>) -> (b: bool)
    ensures
        b == has_prefix(text@, pattern@),
{
    matches_at(text, pattern, 0)
}

/// Tells whether `pattern` occurs somewhere in `text`.
pub fn contains(text: &Vec<char>, pattern: &Vec<char>) -> (b: bool)
    ensures
        b == has_infix(text@, pattern@),
{
    if pattern.len() > text.len() {
        return false;
    }
    let last: usize = text.len() - pattern.len();
    let mut at: usize = 0;
    loop
        invariant
            at <= last,
            last == text.len() - pattern.len(),
            pattern.len() <= text.len(),
            forall|j: int| 0 <= j < at ==> !occurs_at(text@, pattern@, j),
        decreases last - at,
    {
        if matches_at(text, pattern, at) {
            return true;
        }
        if at == last {
            return false;
        }
        at = at + 1;
    }
}

/// Tells whether every character of `s` is white space.
pub fn blank(s: &str) -> (b: bool)
    ensures
        b == is_blank(s@),
{
    let chars = chars_of(s);
    let mut i: usize = 0;
    while i < chars.len()
        invariant
            i <= chars.len(),
            chars@ == s@,
            forall|j: int| 0 <= j < i ==> unicode_white_space(#[trigger] s@[j]),
        decreases chars.len() - i,
    {
        if !is_whitespace(chars[i]) {
            return false;
        }
        i = i + 1;
    }
    true
}

/// The position of the first character of `chars` that is no white space,
/// or the length of `chars` where there is none.
pub fn leading_white_space(chars: &Vec<char>) -> (n: usize)
    ensures
        n <= chars.len(),
        trim_start(chars@) == chars@.subrange(n as int, chars.len() as int),
{
    let mut n: usize = 0;
    assert(chars@.subrange(0, chars.len() as int) =~= chars@);
    while n < chars.len() && is_whitespace(chars[n])
        invariant
            n <= chars.len(),
            trim_start(chars@) == trim_start(chars@.subrange(n as int, chars.len() as int)),
        decreases chars.len() - n,
    {
        proof {
            let rest = chars@.subrange(n as int, chars.len() as int);
            assert(rest[0] == chars@[n as int]);
            assert(rest.drop_first() =~= chars@.subrange(n + 1, chars.len() as int));
        }
        n = n + 1;
    }
    proof {
        let rest = chars@.subrange(n as int, chars.len() as int);
        if n < chars.len() {
            assert(rest[0] == chars@[n as int]);
        }
    }
    n
}

/// The characters of `s`, in order.
pub fn chars_of(s: &str) -> (r: Vec<char>)
    ensures
        r@ == s@,
{
    broadcast use vstd::string::group_string_axioms;

    let mut out: Vec<char> = Vec::new();
    let mut it = s.chars();
    assert(it.remaining() == s@);
    loop
        invariant
            out@ + it.remaining() == s@,
            it.obeys_prophetic_iter_laws(),
            it.decrease() is Some,
        ensures
            out@ == s@,
        decreases it.decrease()->0,
    {
        match it.next() {
            Some(c) => {
                out.push(c);
                assert(out@ + it.remaining() =~= s@);
            },
            None => {
                assert(out@ =~= s@);
                break ;
            },
        }
    }
    out
}

} // verus!
