//! Absolute URLs, as far as their syntax goes.
//!
//! A start URL is accepted when it has the shape `scheme://authority...`:
//! a scheme that begins with a letter, the separator `://` and at least one
//! character of authority.  Throughout, it is made of the characters that
//! URLs are written in, and every `%` in it begins an escape of two
//! hexadecimal digits.

use vstd::prelude::*;

verus! {

/// The characters of `text`, in order.
pub fn chars_of(text: &str) -> (chars: Vec<char>)
    ensures
        chars@ == text@,
{
    let mut chars: Vec<char> = Vec::new();
    for c in rest: text.chars()
        invariant
            rest.seq() == text@,
            chars@ == text@.take(rest.index() as int),
    {
        chars.push(c);
    }
    chars
}

/// Whether a scheme may begin with `c`: an ASCII letter.
pub open spec fn is_scheme_start(c: char) -> bool {
    ('a' <= c && c <= 'z') || ('A' <= c && c <= 'Z')
}

/// Whether `c` may stand in a scheme after its first character: an ASCII
/// letter or digit, `+`, `-` or `.`.
pub open spec fn is_scheme_char(c: char) -> bool {
    is_scheme_start(c) || ('0' <= c && c <= '9') || c == '+' || c == '-' || c == '.'
}

/// Whether `c` is one of the characters that stand for themselves in a
/// URL: an ASCII letter or digit, `-`, `.`, `_` or `~`.
pub open spec fn is_unreserved(c: char) -> bool {
    is_scheme_start(c) || ('0' <= c && c <= '9') || c == '-' || c == '.' || c == '_' || c == '~'
}

/// Whether `c` is one of the characters that delimit the parts of a URL.
pub open spec fn is_reserved(c: char) -> bool {
    c == ':' || c == '/' || c == '?' || c == '#' || c == '[' || c == ']' || c == '@' || c == '!'
        || c == '$' || c == '&' || c == '\'' || c == '(' || c == ')' || c == '*' || c == '+'
        || c == ',' || c == ';' || c == '='
}

/// Whether `c` is a hexadecimal digit.
pub open spec fn is_hex_digit(c: char) -> bool {
    ('0' <= c && c <= '9') || ('a' <= c && c <= 'f') || ('A' <= c && c <= 'F')
}

/// Whether `c` may stand in a URL at all: an unreserved or a reserved
/// character, or the `%` that begins an escape.
pub open spec fn is_url_char(c: char) -> bool {
    is_unreserved(c) || is_reserved(c) || c == '%'
}

/// Whether every `%` in `s` begins an escape: it is followed by two
/// hexadecimal digits.
pub open spec fn escapes_are_complete(s: Seq<char>) -> bool {
    forall|i: int|
        0 <= i < s.len() && #[trigger] s[i] == '%' ==> i + 2 < s.len() && is_hex_digit(s[i + 1])
            && is_hex_digit(s[i + 2])
}

/// Whether `c` ends the authority of a URL: `/`, `?` or `#`.
pub open spec fn ends_authority(c: char) -> bool {
    c == '/' || c == '?' || c == '#'
}

/// Whether `s` is a scheme of `k` characters, the separator `://`, and then
/// at least one character of authority.
pub open spec fn splits_at(s: Seq<char>, k: int) -> bool {
    &&& 1 <= k
    &&& k + 3 < s.len()
    &&& is_scheme_start(s[0])
    &&& forall|i: int| 0 < i < k ==> is_scheme_char(#[trigger] s[i])
    &&& s[k] == ':'
    &&& s[k + 1] == '/'
    &&& s[k + 2] == '/'
    &&& !ends_authority(s[k + 3])
}

/// Whether `s` is a well-formed absolute URL: made of URL characters
/// throughout, with complete escapes, and of the shape
/// `scheme://authority...` with a non-empty authority.
pub open spec fn is_absolute_url(s: Seq<char>) -> bool {
    &&& forall|i: int| 0 <= i < s.len() ==> is_url_char(#[trigger] s[i])
    &&& escapes_are_complete(s)
    &&& exists|k: int| splits_at(s, k)
}

fn scheme_start(c: char) -> (r: bool)
    ensures
        r == is_scheme_start(c),
{
    ('a' <= c && c <= 'z') || ('A' <= c && c <= 'Z')
}

fn hex_digit(c: char) -> (r: bool)
    ensures
        r == is_hex_digit(c),
{
    ('0' <= c && c <= '9') || ('a' <= c && c <= 'f') || ('A' <= c && c <= 'F')
}

fn url_char(c: char) -> (r: bool)
    ensures
        r == is_url_char(c),
{
    scheme_start(c) || ('0' <= c && c <= '9') || c == '-' || c == '.' || c == '_' || c == '~'
        || c == ':' || c == '/' || c == '?' || c == '#' || c == '[' || c == ']' || c == '@'
        || c == '!' || c == '$' || c == '&' || c == '\'' || c == '(' || c == ')' || c == '*'
        || c == '+' || c == ',' || c == ';' || c == '=' || c == '%'
}

fn scheme_char(c: char) -> (r: bool)
    ensures
        r == is_scheme_char(c),
{
    scheme_start(c) || ('0' <= c && c <= '9') || c == '+' || c == '-' || c == '.'
}

/// The scheme of a URL ends where `splits_at` says, and nowhere else: the
/// colon is no scheme character.
proof fn lemma_split_is_unique(s: Seq<char>, k: int, found: int)
    requires
        splits_at(s, k),
        1 <= found <= s.len(),
        forall|i: int| 0 < i < found ==> is_scheme_char(#[trigger] s[i]),
        found < s.len() ==> !is_scheme_char(s[found]),
    ensures
        found == k,
{
    if found < k {
        assert(is_scheme_char(s[found]));
    } else if k < found {
        assert(is_scheme_char(s[k]));
    }
}

/// Decides whether `text` is a well-formed absolute URL.
pub fn check_absolute_url(text: &str) -> (ok: bool)
    ensures
        ok == is_absolute_url(text@),
{
    let chars = chars_of(text);
    let n = chars.len();
    let mut i: usize = 0;
    while i < n
        invariant
            i <= n,
            n == chars@.len(),
            chars@ == text@,
            forall|j: int| 0 <= j < i ==> is_url_char(#[trigger] chars@[j]),
            forall|j: int|
                0 <= j < i && #[trigger] chars@[j] == '%' ==> j + 2 < n && is_hex_digit(
                    chars@[j + 1],
                ) && is_hex_digit(chars@[j + 2]),
        decreases n - i,
    {
        let c = chars[i];
        if !url_char(c) {
            assert(!is_url_char(chars@[i as int]));
            return false;
        }
        if c == '%' && !(n - i > 2 && hex_digit(chars[i + 1]) && hex_digit(chars[i + 2])) {
            assert(chars@[i as int] == '%');
            return false;
        }
        i += 1;
    }
    if n == 0 || !scheme_start(chars[0]) {
        return false;
    }
    let mut k: usize = 1;
    while k < n && scheme_char(chars[k])
        invariant
            1 <= k <= n,
            n == chars@.len(),
            forall|j: int| 0 < j < k ==> is_scheme_char(#[trigger] chars@[j]),
        decreases n - k,
    {
        k += 1;
    }
    proof {
        if exists|m: int| splits_at(chars@, m) {
            let m = choose|m: int| splits_at(chars@, m);
            lemma_split_is_unique(chars@, m, k as int);
        }
    }
    if n - k <= 3 {
        return false;
    }
    let ok = chars[k] == ':' && chars[k + 1] == '/' && chars[k + 2] == '/' && !(chars[k + 3]
        == '/' || chars[k + 3] == '?' || chars[k + 3] == '#');
    proof {
        if ok {
            assert(splits_at(chars@, k as int));
        }
    }
    ok
}

} // verus!
