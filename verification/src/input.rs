//! Phone input as the browser expects it: key names and the address bar.

use vstd::prelude::*;
use vstd::utf8::encode_utf8;
use crate::encoding::{form_urlencode, form_urlencoded};
use crate::text::{chars_of, has_prefix, push_str, starts_with, str_eq, string_of};

verus! {

/// The DOM key value, DOM code and Windows virtual-key code CDP needs for a
/// key the phone names; unknown names are passed through with no key code.
pub open spec fn cdp_key_spec(key: Seq<char>) -> (Seq<char>, Seq<char>, u16) {
    if key == "Space"@ {
        (" "@, "Space"@, 32)
    } else if key == "ArrowLeft"@ {
        ("ArrowLeft"@, "ArrowLeft"@, 37)
    } else if key == "ArrowRight"@ {
        ("ArrowRight"@, "ArrowRight"@, 39)
    } else if key == "Backspace"@ {
        ("Backspace"@, "Backspace"@, 8)
    } else if key == "Enter"@ {
        ("Enter"@, "Enter"@, 13)
    } else {
        (key, key, 0)
    }
}

/// Maps a key name from the phone to CDP's key value, code and key code.
pub fn cdp_key(key: &str) -> (r: (&str, &str, u16))
    ensures
        (r.0@, r.1@, r.2) == cdp_key_spec(key@),
{
    if str_eq(key, "Space") {
        (" ", "Space", 32)
    } else if str_eq(key, "ArrowLeft") {
        ("ArrowLeft", "ArrowLeft", 37)
    } else if str_eq(key, "ArrowRight") {
        ("ArrowRight", "ArrowRight", 39)
    } else if str_eq(key, "Backspace") {
        ("Backspace", "Backspace", 8)
    } else if str_eq(key, "Enter") {
        ("Enter", "Enter", 13)
    } else {
        (key, key, 0)
    }
}

/// Unicode `White_Space`, as `char::is_whitespace` tests it.
pub open spec fn is_whitespace(c: char) -> bool {
    ||| c == ' '
    ||| ('\u{9}' <= c && c <= '\u{d}')
    ||| c == '\u{85}'
    ||| c == '\u{a0}'
    ||| c == '\u{1680}'
    ||| ('\u{2000}' <= c && c <= '\u{200a}')
    ||| c == '\u{2028}'
    ||| c == '\u{2029}'
    ||| c == '\u{202f}'
    ||| c == '\u{205f}'
    ||| c == '\u{3000}'
}

fn whitespace(c: char) -> (r: bool)
    ensures
        r == is_whitespace(c),
{
    c == ' ' || ('\u{9}' <= c && c <= '\u{d}') || c == '\u{85}' || c == '\u{a0}' || c == '\u{1680}'
        || ('\u{2000}' <= c && c <= '\u{200a}') || c == '\u{2028}' || c == '\u{2029}' || c
        == '\u{202f}' || c == '\u{205f}' || c == '\u{3000}'
}

/// Number of leading whitespace characters.
pub open spec fn leading_ws(s: Seq<char>) -> nat
    decreases s.len(),
{
    if s.len() > 0 && is_whitespace(s[0]) {
        1 + leading_ws(s.drop_first())
    } else {
        0
    }
}

/// Number of trailing whitespace characters.
pub open spec fn trailing_ws(s: Seq<char>) -> nat
    decreases s.len(),
{
    if s.len() > 0 && is_whitespace(s.last()) {
        1 + trailing_ws(s.drop_last())
    } else {
        0
    }
}

/// `s` without leading and trailing whitespace (`str::trim`).
pub open spec fn trim(s: Seq<char>) -> Seq<char> {
    let a = s.skip(leading_ws(s) as int);
    a.take(a.len() - trailing_ws(a))
}

proof fn lemma_leading(s: Seq<char>, i: int)
    requires
        0 <= i <= s.len(),
        forall|k: int| 0 <= k < i ==> is_whitespace(#[trigger] s[k]),
        i < s.len() ==> !is_whitespace(s[i]),
    ensures
        leading_ws(s) == i,
    decreases i,
{
    if i > 0 {
        lemma_leading(s.drop_first(), i - 1);
    }
}

proof fn lemma_trailing(s: Seq<char>, j: int)
    requires
        0 <= j <= s.len(),
        forall|k: int| j <= k < s.len() ==> is_whitespace(#[trigger] s[k]),
        j > 0 ==> !is_whitespace(s[j - 1]),
    ensures
        trailing_ws(s) == s.len() - j,
    decreases s.len() - j,
{
    if j < s.len() {
        lemma_trailing(s.drop_last(), j);
    }
}

/// Trims whitespace from both ends of `text`.
pub fn trim_str(text: &str) -> (r: &str)
    ensures
        r@ == trim(text@),
{
    let c = chars_of(text);
    let mut i: usize = 0;
    while i < c.len() && whitespace(c[i])
        invariant
            c@ == text@,
            i <= c.len(),
            forall|k: int| 0 <= k < i ==> is_whitespace(#[trigger] c@[k]),
        decreases c.len() - i,
    {
        i = i + 1;
    }
    proof {
        lemma_leading(text@, i as int);
    }
    let mut j: usize = c.len();
    while j > i && whitespace(c[j - 1])
        invariant
            c@ == text@,
            i <= j <= c.len(),
            forall|k: int| j <= k < c.len() ==> is_whitespace(#[trigger] c@[k]),
        decreases j,
    {
        j = j - 1;
    }
    proof {
        let a = text@.skip(i as int);
        assert forall|k: int| j - i <= k < a.len() implies is_whitespace(#[trigger] a[k]) by {
            assert(a[k] == c@[k + i]);
        }
        if j > i {
            assert(a[j - i - 1] == c@[j - 1]);
        }
        lemma_trailing(a, j - i);
        assert(a.take(a.len() - trailing_ws(a)) =~= text@.subrange(i as int, j as int));
    }
    text.substring_char(i, j)
}

/// The search engine used for text that is not a web address.
pub const SEARCH_PREFIX: &'static str = "https://www.google.com/search?q=";

/// Where the address bar goes: trimmed text that starts with `https://` or
/// `http://` is opened as it is; anything else is searched for.
pub open spec fn navigation_target(text: Seq<char>) -> Seq<char> {
    let t = trim(text);
    if has_prefix(t, "https://"@) || has_prefix(t, "http://"@) {
        t
    } else {
        SEARCH_PREFIX@ + form_urlencoded(encode_utf8(t))
    }
}

/// The URL to open for what the phone typed in the address bar.
pub fn navigation_url(text: &str) -> (r: String)
    ensures
        r@ == navigation_target(text@),
{
    let t = trim_str(text);
    if starts_with(t, "https://") || starts_with(t, "http://") {
        string_of(t)
    } else {
        let mut r = string_of(SEARCH_PREFIX);
        let q = form_urlencode(t.as_bytes());
        push_str(&mut r, q.as_str());
        r
    }
}

} // verus!
