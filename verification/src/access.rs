//! Which browser origins the host serves: the official phone client, and
//! the host's own local page.

use vstd::prelude::*;
use crate::qr::PWA_ORIGIN;
use crate::text::{push_char, push_str, str_eq, string_of};

verus! {

/// Responses to the official phone client carry
/// `Access-Control-Allow-Private-Network: true`.
pub fn grants_private_network(origin: Option<&str>) -> (r: bool)
    ensures
        r == (origin matches Some(o) && o@ == PWA_ORIGIN@),
{
    match origin {
        Some(o) => str_eq(o, PWA_ORIGIN),
        None => false,
    }
}

/// A byte an HTTP header value may hold and still read as text: visible
/// ASCII or a tab.
pub open spec fn is_header_text_byte(b: u8) -> bool {
    (32 <= b && b < 127) || b == 9
}

/// A header value as text; none when it holds any other byte.
pub open spec fn header_text(v: Seq<u8>) -> Option<Seq<char>> {
    if forall|i: int| 0 <= i < v.len() ==> is_header_text_byte(#[trigger] v[i]) {
        Some(Seq::new(v.len(), |i: int| v[i] as char))
    } else {
        None
    }
}

/// Reads a header value as text, as `HeaderValue::to_str` does.
pub fn header_str(v: &[u8]) -> (r: Option<String>)
    ensures
        match header_text(v@) {
            Some(t) => r matches Some(s) && s@ == t,
            None => r is None,
        },
{
    let mut s = String::new();
    let mut i: usize = 0;
    while i < v.len()
        invariant
            i <= v.len(),
            forall|k: int| 0 <= k < i ==> is_header_text_byte(#[trigger] v@[k]),
            s@ == Seq::new(i as nat, |k: int| v@[k] as char),
        decreases v.len() - i,
    {
        let b = v[i];
        if !((32 <= b && b < 127) || b == 9) {
            return None;
        }
        push_char(&mut s, b as char);
        assert(s@ =~= Seq::new((i + 1) as nat, |k: int| v@[k] as char));
        i = i + 1;
    }
    Some(s)
}

/// The origin of a page served by this host under the given `Host` header.
pub open spec fn same_host_origin(host: Seq<char>) -> Seq<char> {
    "http://"@ + host
}

/// WebSocket upgrades are allowed without an `Origin` (non-browser
/// clients), from the official phone client, or from a page served by this
/// very host (by a `Host` that reads as text); every other origin, including
/// one that does not read as text, is refused.
pub open spec fn ws_origin_ok(origin: Option<Seq<u8>>, host: Option<Seq<u8>>) -> bool {
    match origin {
        None => true,
        Some(o) => match header_text(o) {
            None => false,
            Some(t) => t == PWA_ORIGIN@ || (host matches Some(h) && header_text(h) matches Some(ht)
                && t == same_host_origin(ht)),
        },
    }
}

/// Whether a WebSocket upgrade with these raw `Origin` and `Host` header
/// values (each when present) is allowed.
pub fn ws_origin_allowed(origin: Option<&[u8]>, host: Option<&[u8]>) -> (r: bool)
    ensures
        r == ws_origin_ok(
            match origin {
                Some(o) => Some(o@),
                None => None,
            },
            match host {
                Some(h) => Some(h@),
                None => None,
            },
        ),
{
    let o = match origin {
        Some(o) => o,
        None => return true,
    };
    let o = match header_str(o) {
        Some(t) => t,
        None => return false,
    };
    if str_eq(o.as_str(), PWA_ORIGIN) {
        return true;
    }
    let h = match host {
        Some(h) => match header_str(h) {
            Some(t) => t,
            None => return false,
        },
        None => return false,
    };
    let mut expected = string_of("http://");
    push_str(&mut expected, h.as_str());
    str_eq(o.as_str(), expected.as_str())
}

} // verus!
