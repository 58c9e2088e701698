//! QR pairing: the connection link a phone scans, its rendering as terminal
//! text, and the issuing of short-lived pairing nonces.

use vstd::prelude::*;
use vstd::utf8::encode_utf8;
use crate::config::{is_link_local_ipv4, is_private_ipv4, is_trusted_lan_address};
use crate::auth::{after_issue, is_lower_hex, Auth, random_hex, QR_NONCE_BYTES, QR_NONCE_LIFETIME_MS};
use crate::encoding::{base64_url_no_pad, encode_base64_url_no_pad};
use crate::json::{json_escape, json_escaped, json_string, push_json_string};
use crate::text::{decimal, push_char, push_decimal, push_str};

verus! {

/// The official phone client; connection links open it.
pub const PWA_DEEP_LINK: &'static str = "https://arts-night.github.io/Headless-Web-Music-Remote/";

/// The origin of the official phone client.
pub const PWA_ORIGIN: &'static str = "https://arts-night.github.io";

/// QR error correction levels.
#[derive(Debug)]
pub enum QrErrorCorrection {
    Low,
    Medium,
    Quartile,
    High,
}

#[verifier::external_type_specification]
#[verifier::external_body]
pub struct ExQrCode(qrcodegen::QrCode);

#[verifier::external_type_specification]
#[verifier::external_body]
pub struct ExDataTooLong(qrcodegen::DataTooLong);

/// The modules of a QR code, `rows[y][x]`, `true` for dark.
pub uninterp spec fn qr_modules(qr: qrcodegen::QrCode) -> Seq<Seq<bool>>;

/// The modules of the QR code that `qrcodegen` builds for a text at an error
/// correction level (smallest version, automatic mask); none when the text
/// does not fit. It depends on the text and level alone.
pub uninterp spec fn qr_encoding(text: Seq<char>, ecl: QrErrorCorrection) -> Option<Seq<Seq<bool>>>;

/// `qrcodegen::QrCode::encode_text`.
#[verifier::external_body]
fn encode_text(text: &str, ecl: QrErrorCorrection) -> (r: Result<qrcodegen::QrCode, qrcodegen::DataTooLong>)
    ensures
        match r {
            Ok(qr) => qr_encoding(text@, ecl) == Some(qr_modules(qr)),
            Err(_) => qr_encoding(text@, ecl) is None,
        },
{
    let ecl = match ecl {
        QrErrorCorrection::Low => qrcodegen::QrCodeEcc::Low,
        QrErrorCorrection::Medium => qrcodegen::QrCodeEcc::Medium,
        QrErrorCorrection::Quartile => qrcodegen::QrCodeEcc::Quartile,
        QrErrorCorrection::High => qrcodegen::QrCodeEcc::High,
    };
    qrcodegen::QrCode::encode_text(text, ecl)
}

/// A square grid of modules with side `n`, from 21 to 177.
pub open spec fn is_qr_grid(g: Seq<Seq<bool>>, n: int) -> bool {
    &&& g.len() == n
    &&& 21 <= n <= 177
    &&& forall|y: int| 0 <= y < n ==> #[trigger] g[y].len() == n
}

/// `QrCode::size`: the side of the (square) code, 21 to 177 modules.
#[verifier::external_body]
fn qr_size(qr: &qrcodegen::QrCode) -> (n: i32)
    ensures
        is_qr_grid(qr_modules(*qr), n as int),
{
    qr.size()
}

/// `QrCode::get_module`: whether the module at (x, y) is dark; light outside
/// the code.
#[verifier::external_body]
fn qr_get_module(qr: &qrcodegen::QrCode, x: i32, y: i32) -> (dark: bool)
    ensures
        dark == (0 <= x < qr_modules(*qr).len() && 0 <= y < qr_modules(*qr).len()
            && qr_modules(*qr)[y as int][x as int]),
{
    qr.get_module(x, y)
}

/// A dark module, drawn as two spaces (terminals have dark backgrounds).
pub open spec fn dark_cell() -> Seq<char> {
    seq![' ', ' ']
}

/// A light module, drawn as two full blocks.
pub open spec fn light_cell() -> Seq<char> {
    seq!['\u{2588}', '\u{2588}']
}

/// The text of the module at (x, y); outside the grid is the light quiet zone.
pub open spec fn qr_cell(g: Seq<Seq<bool>>, x: int, y: int) -> Seq<char> {
    if 0 <= x < g.len() && 0 <= y < g.len() && g[y][x] {
        dark_cell()
    } else {
        light_cell()
    }
}

/// The first `k` cells of row `y`, starting in the quiet zone at x = -4.
pub open spec fn qr_row_prefix(g: Seq<Seq<bool>>, y: int, k: nat) -> Seq<char>
    decreases k,
{
    if k == 0 {
        Seq::empty()
    } else {
        qr_row_prefix(g, y, (k - 1) as nat) + qr_cell(g, k - 5, y)
    }
}

/// Row `y` with four quiet modules on each side, and a line feed.
pub open spec fn qr_row(g: Seq<Seq<bool>>, y: int) -> Seq<char> {
    qr_row_prefix(g, y, g.len() + 8) + seq!['\n']
}

/// The first `k` rows, starting in the quiet zone at y = -4.
pub open spec fn qr_rows_prefix(g: Seq<Seq<bool>>, k: nat) -> Seq<char>
    decreases k,
{
    if k == 0 {
        Seq::empty()
    } else {
        qr_rows_prefix(g, (k - 1) as nat) + qr_row(g, k - 5)
    }
}

/// The whole code as terminal text, with a four-module quiet zone.
pub open spec fn qr_render(g: Seq<Seq<bool>>) -> Seq<char> {
    qr_rows_prefix(g, g.len() + 8)
}

/// Draws a QR code as terminal text.
pub fn render_qr(qr: &qrcodegen::QrCode) -> (text: String)
    ensures
        text@ == qr_render(qr_modules(*qr)),
        is_qr_grid(qr_modules(*qr), qr_modules(*qr).len() as int),
{
    let n = qr_size(qr);
    let ghost g = qr_modules(*qr);
    let mut text = String::new();
    let mut y: i32 = -4;
    while y < n + 4
        invariant
            g == qr_modules(*qr),
            n == g.len(),
            21 <= n <= 177,
            -4 <= y <= n + 4,
            text@ == qr_rows_prefix(g, (y + 4) as nat),
        decreases n + 4 - y,
    {
        let ghost before = text@;
        let mut x: i32 = -4;
        while x < n + 4
            invariant
                g == qr_modules(*qr),
                n == g.len(),
                21 <= n <= 177,
                -4 <= y < n + 4,
                -4 <= x <= n + 4,
                text@ == before + qr_row_prefix(g, y as int, (x + 4) as nat),
            decreases n + 4 - x,
        {
            let dark = qr_get_module(qr, x, y);
            if dark {
                push_char(&mut text, ' ');
                push_char(&mut text, ' ');
            } else {
                push_char(&mut text, '\u{2588}');
                push_char(&mut text, '\u{2588}');
            }
            assert(text@ =~= before + qr_row_prefix(g, y as int, (x + 5) as nat));
            x = x + 1;
        }
        push_char(&mut text, '\n');
        assert(text@ =~= qr_rows_prefix(g, (y + 5) as nat));
        y = y + 1;
    }
    text
}

/// The QR payload does not fit in any QR version.
#[derive(Debug)]
pub struct QrTooLarge;

/// Encodes `payload` as a QR code (medium error correction) and draws it.
pub fn qr_text(payload: &str) -> (r: Result<String, QrTooLarge>)
    ensures
        match qr_encoding(payload@, QrErrorCorrection::Medium) {
            Some(g) => r matches Ok(text) && text@ == qr_render(g) && is_qr_grid(g, g.len() as int),
            None => r is Err,
        },
{
    match encode_text(payload, QrErrorCorrection::Medium) {
        Ok(qr) => Ok(render_qr(&qr)),
        Err(_) => Err(QrTooLarge),
    }
}

/// Dotted-decimal text of an IPv4 address.
pub open spec fn dotted(a: [u8; 4]) -> Seq<char> {
    decimal(a[0] as nat) + seq!['.'] + decimal(a[1] as nat) + seq!['.'] + decimal(a[2] as nat)
        + seq!['.'] + decimal(a[3] as nat)
}

/// The bootstrap payload of a connection link: protocol version 1, the
/// host's LAN address and port, and the pairing nonce; nothing else.
pub open spec fn link_payload(host: [u8; 4], port: u16, nonce: Seq<char>) -> Seq<char> {
    "{\"host\":\""@ + dotted(host) + "\",\"nonce\":"@ + json_string(nonce) + ",\"port\":"@ + decimal(
        port as nat,
    ) + ",\"v\":1}"@
}

/// The connection link: the phone client's address with the URL-safe
/// Base64 of the payload in the `#connect=` fragment.
pub open spec fn deep_link_text(host: [u8; 4], port: u16, nonce: Seq<char>) -> Seq<char> {
    PWA_DEEP_LINK@ + "#connect="@ + base64_url_no_pad(encode_utf8(link_payload(host, port, nonce)))
}

proof fn lemma_escaped_len(s: Seq<char>)
    ensures
        json_escaped(s).len() <= 6 * s.len(),
    decreases s.len(),
{
    if s.len() > 0 {
        lemma_escaped_len(s.drop_last());
        assert(json_escape(s.last()).len() <= 6);
    }
}

proof fn lemma_utf8_len(s: Seq<char>)
    ensures
        encode_utf8(s).len() <= 4 * s.len(),
    decreases s.len(),
{
    if s.len() > 0 {
        lemma_utf8_len(s.drop_first());
        assert(vstd::utf8::encode_scalar(s[0] as u32).len() <= 4);
    }
}

proof fn lemma_decimal_len(n: nat)
    requires
        n < 100_000,
    ensures
        decimal(n).len() <= 5,
{
    reveal_with_fuel(decimal, 5);
}

fn push_dotted(out: &mut String, a: [u8; 4])
    ensures
        final(out)@ == old(out)@ + dotted(a),
{
    push_decimal(out, a[0] as u64);
    push_char(out, '.');
    push_decimal(out, a[1] as u64);
    push_char(out, '.');
    push_decimal(out, a[2] as u64);
    push_char(out, '.');
    push_decimal(out, a[3] as u64);
    assert(final(out)@ =~= old(out)@ + dotted(a));
}

/// The connection link a phone scans to pair with this host.
pub fn deep_link(host: [u8; 4], port: u16, nonce: &str) -> (link: String)
    requires
        nonce@.len() <= usize::MAX / 64,
    ensures
        link@ == deep_link_text(host, port, nonce@),
{
    let mut payload = String::new();
    push_str(&mut payload, "{\"host\":\"");
    push_dotted(&mut payload, host);
    push_str(&mut payload, "\",\"nonce\":");
    push_json_string(&mut payload, nonce);
    push_str(&mut payload, ",\"port\":");
    push_decimal(&mut payload, port as u64);
    push_str(&mut payload, ",\"v\":1}");
    assert(payload@ =~= link_payload(host, port, nonce@));
    let bytes = payload.as_str().as_bytes();
    proof {
        lemma_escaped_len(nonce@);
        lemma_utf8_len(payload@);
        lemma_decimal_len(host[0] as nat);
        lemma_decimal_len(host[1] as nat);
        lemma_decimal_len(host[2] as nat);
        lemma_decimal_len(host[3] as nat);
        lemma_decimal_len(port as nat);
        reveal_strlit("{\"host\":\"");
        reveal_strlit("\",\"nonce\":");
        reveal_strlit(",\"port\":");
        reveal_strlit(",\"v\":1}");
    }
    let encoded = encode_base64_url_no_pad(bytes);
    let mut link = String::new();
    push_str(&mut link, PWA_DEEP_LINK);
    push_str(&mut link, "#connect=");
    push_str(&mut link, encoded.as_str());
    link
}

/// Why a QR could not be issued.
#[derive(Debug)]
pub enum QrIssueError {
    NoLanAddress,
    TooLarge,
    RandomUnavailable,
}

impl QrIssueError {
    /// The message the host reports.
    pub fn message(&self) -> (m: &'static str)
        ensures
            m@ == match self {
                QrIssueError::NoLanAddress => "no trusted LAN address detected"@,
                QrIssueError::TooLarge => "QR payload is too large"@,
                QrIssueError::RandomUnavailable => "OS random unavailable"@,
            },
    {
        match self {
            QrIssueError::NoLanAddress => "no trusted LAN address detected",
            QrIssueError::TooLarge => "QR payload is too large",
            QrIssueError::RandomUnavailable => "OS random unavailable",
        }
    }
}

/// The LAN address offered in a connection link, from the host's own IPv4
/// address: only a private or link-local one.
pub open spec fn offered_address(local: Option<[u8; 4]>) -> Option<[u8; 4]> {
    match local {
        Some(a) => if is_private_ipv4(a) || is_link_local_ipv4(a) {
            Some(a)
        } else {
            None
        },
        None => None,
    }
}

/// The host offers its own IPv4 address to phones exactly when it lies in
/// 10.0.0.0/8, 172.16.0.0/12, 192.168.0.0/16 or 169.254.0.0/16, and offers
/// nothing otherwise or when it has no address.
pub proof fn law_offered_addresses(a: [u8; 4])
    ensures
        offered_address(Some(a)) == (if a[0] == 10 || (a[0] == 172 && 16 <= a[1] && a[1] <= 31) || (a[0]
            == 192 && a[1] == 168) || (a[0] == 169 && a[1] == 254) {
            Some(a)
        } else {
            None
        }),
        offered_address(None) is None,
{
}

/// The LAN address offered to phones: the host's own IPv4 address, when it
/// is private or link-local.
pub fn trusted_lan_address(local: Option<[u8; 4]>) -> (r: Option<[u8; 4]>)
    ensures
        r == offered_address(local),
{
    match local {
        Some(a) => if is_trusted_lan_address(a) { Some(a) } else { None },
        None => None,
    }
}

/// Issues a QR for a nonce already drawn. It needs a trusted LAN address
/// (the host's own IPv4 address, private or link-local); once the QR has been
/// drawn, the nonce becomes the only valid QR nonce for two minutes.
pub fn issue_qr_with_nonce(
    auth: &mut Auth,
    local: Option<[u8; 4]>,
    port: u16,
    nonce: String,
    now_ms: u64,
) -> (r: Result<String, QrIssueError>)
    requires
        now_ms + QR_NONCE_LIFETIME_MS <= u64::MAX,
        nonce@.len() <= usize::MAX / 64,
    ensures
        match offered_address(local) {
            None => r == Err::<String, QrIssueError>(QrIssueError::NoLanAddress) && final(auth).state()
                == old(auth).state(),
            Some(host) => match qr_encoding(
                deep_link_text(host, port, nonce@),
                QrErrorCorrection::Medium,
            ) {
                None => r == Err::<String, QrIssueError>(QrIssueError::TooLarge) && final(auth).state()
                    == old(auth).state(),
                Some(g) => r matches Ok(text) && text@ == qr_render(g) && final(auth).state()
                    == after_issue(old(auth).state(), nonce@, now_ms as nat),
            },
        },
{
    let host = match trusted_lan_address(local) {
        Some(h) => h,
        None => return Err(QrIssueError::NoLanAddress),
    };
    let link = deep_link(host, port, nonce.as_str());
    let text = match qr_text(link.as_str()) {
        Ok(t) => t,
        Err(_) => return Err(QrIssueError::TooLarge),
    };
    auth.issue_nonce(nonce, now_ms);
    Ok(text)
}

/// The QR grid of the connection link for `host`, `port` and `nonce`.
pub open spec fn link_qr_grid(host: [u8; 4], port: u16, nonce: Seq<char>) -> Seq<Seq<bool>> {
    qr_encoding(deep_link_text(host, port, nonce), QrErrorCorrection::Medium)->0
}

/// Issues a QR with a fresh random nonce; see `issue_qr_with_nonce`. No
/// nonce is drawn when there is no trusted LAN address.
pub fn issue_qr(auth: &mut Auth, local: Option<[u8; 4]>, port: u16, now_ms: u64) -> (r: Result<
    String,
    QrIssueError,
>)
    requires
        now_ms + QR_NONCE_LIFETIME_MS <= u64::MAX,
    ensures
        (r matches Err(QrIssueError::NoLanAddress)) <==> offered_address(local) is None,
        r is Err ==> final(auth).state() == old(auth).state(),
        r matches Err(QrIssueError::TooLarge) ==> offered_address(local) is Some && exists|nonce: Seq<char>|
            #![trigger deep_link_text(offered_address(local)->0, port, nonce)]
            {
                &&& nonce.len() == 2 * QR_NONCE_BYTES
                &&& is_lower_hex(nonce)
                &&& qr_encoding(deep_link_text(offered_address(local)->0, port, nonce), QrErrorCorrection::Medium)
                    is None
            },
        r is Ok ==> offered_address(local) is Some && exists|nonce: Seq<char>|
            {
                let host = offered_address(local)->0;
                &&& nonce.len() == 2 * QR_NONCE_BYTES
                &&& is_lower_hex(nonce)
                &&& qr_encoding(deep_link_text(host, port, nonce), QrErrorCorrection::Medium)
                    == Some(link_qr_grid(host, port, nonce))
                &&& r->Ok_0@ == qr_render(link_qr_grid(host, port, nonce))
                &&& final(auth).state() == #[trigger] after_issue(old(auth).state(), nonce, now_ms as nat)
            },
{
    if trusted_lan_address(local).is_none() {
        return Err(QrIssueError::NoLanAddress);
    }
    let nonce = match random_hex(QR_NONCE_BYTES) {
        Ok(n) => n,
        Err(_) => return Err(QrIssueError::RandomUnavailable),
    };
    let ghost n = nonce@;
    let r = issue_qr_with_nonce(auth, local, port, nonce, now_ms);
    proof {
        if r is Ok {
            assert(final(auth).state() == after_issue(old(auth).state(), n, now_ms as nat));
        }
        if r matches Err(QrIssueError::TooLarge) {
            let host = offered_address(local)->0;
            assert(qr_encoding(deep_link_text(host, port, n), QrErrorCorrection::Medium) is None);
        }
    }
    r
}

/// The answer to a local QR request.
pub open spec fn qr_pair_body(qr: Seq<char>) -> Seq<char> {
    "{\"ok\":true,\"qr\":"@ + json_string(qr) + "}"@
}

/// The JSON body carrying a freshly issued QR.
pub fn qr_pair_response(qr: &str) -> (r: String)
    ensures
        r@ == qr_pair_body(qr@),
{
    let mut r = String::new();
    push_str(&mut r, "{\"ok\":true,\"qr\":");
    push_json_string(&mut r, qr);
    push_str(&mut r, "}");
    r
}

/// The address a request came from.
#[derive(Debug)]
pub enum ClientAddress {
    V4([u8; 4]),
    V6([u16; 8]),
}

/// A loopback address: 127.0.0.0/8, or `::1`.
pub open spec fn is_loopback(a: ClientAddress) -> bool {
    match a {
        ClientAddress::V4(o) => o[0] == 127,
        ClientAddress::V6(s) => s[0] == 0 && s[1] == 0 && s[2] == 0 && s[3] == 0 && s[4] == 0 && s[5]
            == 0 && s[6] == 0 && s[7] == 1,
    }
}

/// Only a program on the host itself may ask for a QR.
pub fn qr_request_allowed(client: &ClientAddress) -> (r: bool)
    ensures
        r == is_loopback(*client),
{
    match client {
        ClientAddress::V4(o) => o[0] == 127,
        ClientAddress::V6(s) => s[0] == 0 && s[1] == 0 && s[2] == 0 && s[3] == 0 && s[4] == 0 && s[5]
            == 0 && s[6] == 0 && s[7] == 1,
    }
}

} // verus!
