//! Byte encodings: Base64 (RFC 4648), `application/x-www-form-urlencoded`
//! byte serialization, and lower-case hexadecimal.

use vstd::prelude::*;
use crate::json::hex_lower;
use crate::text::{digit_char, push_char};

verus! {

/// The Base64 symbol for a 6-bit value; `url_safe` selects the URL-safe
/// alphabet (`-` and `_` in place of `+` and `/`).
pub open spec fn base64_symbol(v: nat, url_safe: bool) -> char {
    if v < 26 {
        (65 + v) as char
    } else if v < 52 {
        (97 + (v - 26)) as char
    } else if v < 62 {
        (48 + (v - 52)) as char
    } else if v == 62 {
        if url_safe { '-' } else { '+' }
    } else {
        if url_safe { '_' } else { '/' }
    }
}

/// Base64 encoding of `b`, three bytes to four symbols; a final group of one
/// or two bytes gives two or three symbols, followed by `=` padding to four
/// when `padded`.
pub open spec fn base64_encode(b: Seq<u8>, url_safe: bool, padded: bool) -> Seq<char>
    decreases b.len(),
{
    if b.len() == 0 {
        Seq::empty()
    } else if b.len() == 1 {
        let x = b[0] as nat;
        seq![base64_symbol(x / 4, url_safe), base64_symbol((x % 4) * 16, url_safe)]
            + if padded { seq!['=', '='] } else { Seq::empty() }
    } else if b.len() == 2 {
        let x = b[0] as nat;
        let y = b[1] as nat;
        seq![
            base64_symbol(x / 4, url_safe),
            base64_symbol((x % 4) * 16 + y / 16, url_safe),
            base64_symbol((y % 16) * 4, url_safe),
        ] + if padded { seq!['='] } else { Seq::empty() }
    } else {
        let x = b[0] as nat;
        let y = b[1] as nat;
        let z = b[2] as nat;
        seq![
            base64_symbol(x / 4, url_safe),
            base64_symbol((x % 4) * 16 + y / 16, url_safe),
            base64_symbol((y % 16) * 4 + z / 64, url_safe),
            base64_symbol(z % 64, url_safe),
        ] + base64_encode(b.subrange(3, b.len() as int), url_safe, padded)
    }
}

/// Standard-alphabet padded Base64, the encoding of CDP binary payloads.
pub open spec fn base64_standard(b: Seq<u8>) -> Seq<char> {
    base64_encode(b, false, true)
}

/// URL-safe Base64 without padding, the encoding of connection links.
pub open spec fn base64_url_no_pad(b: Seq<u8>) -> Seq<char> {
    base64_encode(b, true, false)
}

/// `base64::engine::general_purpose::URL_SAFE_NO_PAD.encode`: the URL-safe
/// alphabet, no padding. The engine panics when the output length overflows
/// `usize`, which the bound on the input leaves out.
#[verifier::external_body]
pub(crate) fn encode_base64_url_no_pad(bytes: &[u8]) -> (s: String)
    requires
        bytes@.len() <= usize::MAX / 2,
    ensures
        s@ == base64_url_no_pad(bytes@),
{
    base64::Engine::encode(&base64::engine::general_purpose::URL_SAFE_NO_PAD, bytes)
}

#[verifier::external_type_specification]
#[verifier::external_body]
pub struct ExBase64DecodeError(base64::DecodeError);

/// `base64::engine::general_purpose::STANDARD.decode` on the bytes of `text`.
/// That engine requires canonical padding and rejects set trailing bits, so it
/// accepts exactly the canonical padded encodings: it returns the bytes whose
/// encoding is `text`, and fails when no byte string encodes to `text`.
#[verifier::external_body]
fn decode_base64_standard_raw(text: &str) -> (r: Result<Vec<u8>, base64::DecodeError>)
    ensures
        r matches Ok(b) ==> base64_standard(b@) == text@,
        r is Err ==> forall|b: Seq<u8>| base64_standard(b) != text@,
{
    base64::Engine::decode(&base64::engine::general_purpose::STANDARD, text)
}

/// Decodes standard padded Base64; `None` when `text` is not such an encoding.
pub fn decode_base64_standard(text: &str) -> (r: Option<Vec<u8>>)
    ensures
        r matches Some(b) ==> base64_standard(b@) == text@,
        r is None ==> forall|b: Seq<u8>| base64_standard(b) != text@,
{
    match decode_base64_standard_raw(text) {
        Ok(b) => Some(b),
        Err(_) => None,
    }
}

proof fn lemma_symbol_injective(v: nat, w: nat, u: bool)
    requires
        v < 64,
        w < 64,
        base64_symbol(v, u) == base64_symbol(w, u),
    ensures
        v == w,
{
}

proof fn lemma_symbol_not_pad(v: nat, u: bool)
    requires
        v < 64,
    ensures
        base64_symbol(v, u) != '=',
{
}

proof fn lemma_encode_len(b: Seq<u8>, u: bool)
    ensures
        b.len() == 0 <==> base64_encode(b, u, true).len() == 0,
        b.len() > 0 ==> base64_encode(b, u, true).len() >= 4,
    decreases b.len(),
{
    if b.len() >= 3 {
        lemma_encode_len(b.subrange(3, b.len() as int), u);
    }
}

proof fn lemma_three(x: nat, y: nat, z: nat, x2: nat, y2: nat, z2: nat)
    requires
        x < 256, y < 256, z < 256, x2 < 256, y2 < 256, z2 < 256,
        x / 4 == x2 / 4,
        (x % 4) * 16 + y / 16 == (x2 % 4) * 16 + y2 / 16,
        (y % 16) * 4 + z / 64 == (y2 % 16) * 4 + z2 / 64,
        z % 64 == z2 % 64,
    ensures
        x == x2, y == y2, z == z2,
{
    assert(x == x2 && y == y2 && z == z2) by (nonlinear_arith)
        requires
            x < 256, y < 256, z < 256, x2 < 256, y2 < 256, z2 < 256,
            x / 4 == x2 / 4,
            (x % 4) * 16 + y / 16 == (x2 % 4) * 16 + y2 / 16,
            (y % 16) * 4 + z / 64 == (y2 % 16) * 4 + z2 / 64,
            z % 64 == z2 % 64;
}

proof fn lemma_base64_injective(a: Seq<u8>, b: Seq<u8>, u: bool)
    requires
        base64_encode(a, u, true) == base64_encode(b, u, true),
    ensures
        a == b,
    decreases a.len(),
{
    let ea = base64_encode(a, u, true);
    lemma_encode_len(a, u);
    lemma_encode_len(b, u);
    if a.len() == 0 {
        assert(b.len() == 0);
        assert(a =~= b);
        return;
    }
    assert(b.len() > 0);
    if a.len() >= 3 && b.len() >= 3 {
        let (x, y, z) = (a[0] as nat, a[1] as nat, a[2] as nat);
        let (x2, y2, z2) = (b[0] as nat, b[1] as nat, b[2] as nat);
        let eb = base64_encode(b, u, true);
        assert(ea[0] == base64_symbol(x / 4, u));
        assert(ea[1] == base64_symbol((x % 4) * 16 + y / 16, u));
        assert(ea[2] == base64_symbol((y % 16) * 4 + z / 64, u));
        assert(ea[3] == base64_symbol(z % 64, u));
        assert(eb[1] == base64_symbol((x2 % 4) * 16 + y2 / 16, u));
        assert(eb[2] == base64_symbol((y2 % 16) * 4 + z2 / 64, u));
        assert(eb[3] == base64_symbol(z2 % 64, u));
        lemma_symbol_injective(x / 4, x2 / 4, u);
        lemma_symbol_injective((x % 4) * 16 + y / 16, (x2 % 4) * 16 + y2 / 16, u);
        lemma_symbol_injective((y % 16) * 4 + z / 64, (y2 % 16) * 4 + z2 / 64, u);
        lemma_symbol_injective(z % 64, z2 % 64, u);
        lemma_three(x, y, z, x2, y2, z2);
        let ra = a.subrange(3, a.len() as int);
        let rb = b.subrange(3, b.len() as int);
        assert(base64_encode(ra, u, true) =~= ea.subrange(4, ea.len() as int));
        assert(base64_encode(rb, u, true) =~= ea.subrange(4, ea.len() as int));
        lemma_base64_injective(ra, rb, u);
        assert(a.len() == b.len());
        assert forall|i: int| 0 <= i < a.len() implies a[i] == b[i] by {
            if i >= 3 {
                assert(a[i] == ra[i - 3]);
                assert(b[i] == rb[i - 3]);
            }
        }
        assert(a =~= b);
    } else if a.len() >= 3 || b.len() >= 3 {
        let (c, d) = if a.len() >= 3 { (a, b) } else { (b, a) };
        let ec = base64_encode(c, u, true);
        assert(ec[3] == base64_symbol(c[2] as nat % 64, u));
        lemma_symbol_not_pad(c[2] as nat % 64, u);
        if d.len() == 1 {
            assert(base64_encode(d, u, true)[3] == '=');
        } else {
            assert(base64_encode(d, u, true)[3] == '=');
        }
    } else if a.len() != b.len() {
        let (c, d) = if a.len() == 2 { (a, b) } else { (b, a) };
        let ec = base64_encode(c, u, true);
        assert(ec[2] == base64_symbol((c[1] as nat % 16) * 4, u));
        lemma_symbol_not_pad((c[1] as nat % 16) * 4, u);
        assert(base64_encode(d, u, true)[2] == '=');
    } else if a.len() == 1 {
        let x = a[0] as nat;
        let x2 = b[0] as nat;
        let eb = base64_encode(b, u, true);
        assert(ea[0] == base64_symbol(x / 4, u) && eb[0] == base64_symbol(x2 / 4, u));
        assert(ea[1] == base64_symbol((x % 4) * 16, u) && eb[1] == base64_symbol((x2 % 4) * 16, u));
        lemma_symbol_injective(x / 4, x2 / 4, u);
        lemma_symbol_injective((x % 4) * 16, (x2 % 4) * 16, u);
        lemma_three(x, 0, 0, x2, 0, 0);
        assert(a =~= b);
    } else {
        let (x, y) = (a[0] as nat, a[1] as nat);
        let (x2, y2) = (b[0] as nat, b[1] as nat);
        let eb = base64_encode(b, u, true);
        assert(ea[0] == base64_symbol(x / 4, u) && eb[0] == base64_symbol(x2 / 4, u));
        assert(ea[1] == base64_symbol((x % 4) * 16 + y / 16, u));
        assert(eb[1] == base64_symbol((x2 % 4) * 16 + y2 / 16, u));
        assert(ea[2] == base64_symbol((y % 16) * 4, u) && eb[2] == base64_symbol((y2 % 16) * 4, u));
        lemma_symbol_injective(x / 4, x2 / 4, u);
        lemma_symbol_injective((x % 4) * 16 + y / 16, (x2 % 4) * 16 + y2 / 16, u);
        lemma_symbol_injective((y % 16) * 4, (y2 % 16) * 4, u);
        lemma_three(x, y, 0, x2, y2, 0);
        assert(a =~= b);
    }
}

/// Padded Base64 loses nothing: two byte strings with the same encoding are
/// equal, so a decoded screencast frame is exactly the image the browser
/// encoded.
pub proof fn law_base64_standard_is_injective(a: Seq<u8>, b: Seq<u8>)
    requires
        base64_standard(a) == base64_standard(b),
    ensures
        a == b,
{
    lemma_base64_injective(a, b, false);
}

/// Upper-case hexadecimal digit for `d` (0 to 15).
pub open spec fn hex_upper(d: nat) -> char {
    if d < 10 { digit_char(d) }
    else if d == 10 { 'A' }
    else if d == 11 { 'B' }
    else if d == 12 { 'C' }
    else if d == 13 { 'D' }
    else if d == 14 { 'E' }
    else { 'F' }
}

/// Bytes that form-urlencoding leaves as they are: ASCII letters and digits,
/// `*`, `-`, `.` and `_`.
pub open spec fn form_unreserved(b: u8) -> bool {
    b == 42 || b == 45 || b == 46 || (48 <= b <= 57) || (65 <= b <= 90) || b == 95 || (97 <= b
        <= 122)
}

/// How one byte is serialized in `application/x-www-form-urlencoded`.
pub open spec fn form_byte(b: u8) -> Seq<char> {
    if form_unreserved(b) {
        seq![b as char]
    } else if b == 32 {
        seq!['+']
    } else {
        seq!['%', hex_upper((b / 16) as nat), hex_upper((b % 16) as nat)]
    }
}

/// The `application/x-www-form-urlencoded` serialization of a byte string.
pub open spec fn form_urlencoded(bytes: Seq<u8>) -> Seq<char>
    decreases bytes.len(),
{
    if bytes.len() == 0 {
        Seq::empty()
    } else {
        form_urlencoded(bytes.drop_last()) + form_byte(bytes.last())
    }
}

/// `url::form_urlencoded::byte_serialize`, collected into a `String`.
#[verifier::external_body]
pub(crate) fn form_urlencode(bytes: &[u8]) -> (s: String)
    ensures
        s@ == form_urlencoded(bytes@),
{
    url::form_urlencoded::byte_serialize(bytes).collect()
}

/// Two lower-case hexadecimal digits of a byte.
pub open spec fn hex_byte(b: u8) -> Seq<char> {
    seq![hex_lower((b / 16) as nat), hex_lower((b % 16) as nat)]
}

/// Lower-case hexadecimal of a byte string, two digits per byte.
pub open spec fn hex_lower_of(bytes: Seq<u8>) -> Seq<char>
    decreases bytes.len(),
{
    if bytes.len() == 0 {
        Seq::empty()
    } else {
        hex_lower_of(bytes.drop_last()) + hex_byte(bytes.last())
    }
}

fn hex_digit_lower(d: u8) -> (c: char)
    requires
        d < 16,
    ensures
        c == hex_lower(d as nat),
{
    if d == 0 { '0' }
    else if d == 1 { '1' }
    else if d == 2 { '2' }
    else if d == 3 { '3' }
    else if d == 4 { '4' }
    else if d == 5 { '5' }
    else if d == 6 { '6' }
    else if d == 7 { '7' }
    else if d == 8 { '8' }
    else if d == 9 { '9' }
    else if d == 10 { 'a' }
    else if d == 11 { 'b' }
    else if d == 12 { 'c' }
    else if d == 13 { 'd' }
    else if d == 14 { 'e' }
    else { 'f' }
}

/// Lower-case hexadecimal text of `bytes`.
pub fn hex_encode(bytes: &[u8]) -> (s: String)
    ensures
        s@ == hex_lower_of(bytes@),
        s@.len() == 2 * bytes@.len(),
{
    let mut s = String::new();
    let mut i: usize = 0;
    while i < bytes.len()
        invariant
            i <= bytes.len(),
            s@ == hex_lower_of(bytes@.take(i as int)),
            s@.len() == 2 * i,
        decreases bytes.len() - i,
    {
        let b = bytes[i];
        push_char(&mut s, hex_digit_lower(b / 16));
        push_char(&mut s, hex_digit_lower(b % 16));
        assert(bytes@.take(i + 1).drop_last() =~= bytes@.take(i as int));
        assert(s@ =~= hex_lower_of(bytes@.take(i + 1)));
        i = i + 1;
    }
    assert(bytes@.take(bytes.len() as int) =~= bytes@);
    s
}

} // verus!
