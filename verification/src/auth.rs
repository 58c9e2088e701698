//! Pairing and authorization: the one-time pairing code, the short-lived QR
//! nonce, and the session token that protected requests must present.

use vstd::prelude::*;
use crate::encoding::{hex_encode, hex_lower_of};
use crate::json::{json_string, push_json_string};
use crate::text::{has_prefix, push_str, str_eq, starts_with};

verus! {

/// How long a QR pairing nonce stays valid, in milliseconds.
pub const QR_NONCE_LIFETIME_MS: u64 = 120_000;

/// Bytes of randomness in a pairing code (six hex digits).
pub const PAIRING_CODE_BYTES: usize = 3;

/// Bytes of randomness in a QR nonce (32 hex digits).
pub const QR_NONCE_BYTES: usize = 16;

/// Bytes of randomness in a session token (64 hex digits).
pub const SESSION_TOKEN_BYTES: usize = 32;

#[verifier::external_type_specification]
#[verifier::external_body]
pub struct ExRandomError(getrandom::Error);

/// `getrandom::fill` on a zeroed buffer of `len` bytes. The bytes come from
/// the operating system; nothing is said of their values, nor of when the
/// operating system fails. An empty buffer is never handed to the operating
/// system, so asking for no bytes always succeeds.
#[verifier::external_body]
fn random_bytes(len: usize) -> (r: Result<Vec<u8>, getrandom::Error>)
    ensures
        r matches Ok(v) ==> v@.len() == len,
        len == 0 ==> r is Ok,
{
    let mut v = vec![0u8; len];
    getrandom::fill(&mut v)?;
    Ok(v)
}

/// The operating system could not provide random bytes.
#[derive(Debug)]
pub struct RandomUnavailable;

/// Every character is a lower-case hexadecimal digit.
pub open spec fn is_lower_hex(s: Seq<char>) -> bool {
    forall|i: int| 0 <= i < s.len() ==> ('0' <= #[trigger] s[i] <= '9' || 'a' <= s[i] <= 'f')
}

proof fn lemma_hex_lower_of_is_hex(b: Seq<u8>)
    ensures
        is_lower_hex(hex_lower_of(b)),
        hex_lower_of(b).len() == 2 * b.len(),
    decreases b.len(),
{
    if b.len() > 0 {
        lemma_hex_lower_of_is_hex(b.drop_last());
        let s = hex_lower_of(b);
        let p = hex_lower_of(b.drop_last());
        assert forall|i: int| 0 <= i < s.len() implies ('0' <= #[trigger] s[i] <= '9' || 'a' <= s[i]
            <= 'f') by {
            if i >= p.len() {
                let x = b.last();
                assert(s[i] == crate::encoding::hex_byte(x)[i - p.len()]);
            } else {
                assert(s[i] == p[i]);
            }
        }
    }
}

/// `bytes` fresh random bytes as lower-case hexadecimal text; fails only
/// when the operating system cannot supply them, which it is never asked to
/// when no bytes are wanted.
pub fn random_hex(bytes: usize) -> (r: Result<String, RandomUnavailable>)
    requires
        bytes <= usize::MAX / 2,
    ensures
        r matches Ok(s) ==> s@.len() == 2 * bytes && is_lower_hex(s@),
        r matches Ok(s) ==> exists|b: Seq<u8>| b.len() == bytes && s@ == #[trigger] hex_lower_of(b),
        bytes == 0 ==> (r matches Ok(s) && s@.len() == 0),
{
    match random_bytes(bytes) {
        Ok(v) => {
            let s = hex_encode(v.as_slice());
            proof {
                lemma_hex_lower_of_is_hex(v@);
                assert(v@.len() == bytes && s@ == hex_lower_of(v@));
            }
            Ok(s)
        },
        Err(_) => Err(RandomUnavailable),
    }
}

/// The pairing state as plain values.
pub struct AuthState {
    pub code: Seq<char>,
    pub token: Option<Seq<char>>,
    /// The current QR nonce and the time it stops being valid.
    pub qr: Option<(Seq<char>, nat)>,
}

/// A QR nonce and the time, in milliseconds of the host's clock, at which it
/// stops being accepted.
pub struct QrNonce {
    nonce: String,
    expires_at_ms: u64,
}

/// Pairing state, held in host memory only.
pub struct Auth {
    code: String,
    token: Option<String>,
    qr_nonce: Option<QrNonce>,
}

/// A pairing request: a manual code, a QR nonce, or both.
#[derive(Debug)]
pub struct PairRequest {
    pub code: Option<String>,
    pub nonce: Option<String>,
}

/// The first message on a WebSocket: `{"type": "auth", "token": ...}`.
#[derive(Debug)]
pub struct WsAuth {
    pub kind: String,
    pub token: String,
}

pub open spec fn opt_string_view(v: Option<String>) -> Option<Seq<char>> {
    match v {
        Some(s) => Some(s@),
        None => None,
    }
}

/// The request's manual code is the current pairing code.
pub open spec fn code_matches(st: AuthState, code: Option<Seq<char>>) -> bool {
    code == Some(st.code)
}

/// The request's nonce is the current QR nonce and it has not expired.
pub open spec fn nonce_matches(st: AuthState, nonce: Option<Seq<char>>, now: nat) -> bool {
    match (nonce, st.qr) {
        (Some(n), Some((q, expires))) => n == q && now < expires,
        _ => false,
    }
}

/// A pairing request is accepted by its code or by an unexpired QR nonce.
pub open spec fn pair_accepted(
    st: AuthState,
    code: Option<Seq<char>>,
    nonce: Option<Seq<char>>,
    now: nat,
) -> bool {
    code_matches(st, code) || nonce_matches(st, nonce, now)
}

/// The state after a successful pairing: a new session token replaces any
/// earlier one, the pairing code is replaced, and the QR nonce is consumed.
pub open spec fn after_pair(st: AuthState, token: Seq<char>, code: Seq<char>) -> AuthState {
    AuthState { code, token: Some(token), qr: None }
}

/// The state after logging out: no session, a new code, no QR nonce.
pub open spec fn after_logout(st: AuthState, code: Seq<char>) -> AuthState {
    AuthState { code, token: None, qr: None }
}

/// The state after a QR is issued: the new nonce replaces any earlier one.
pub open spec fn after_issue(st: AuthState, nonce: Seq<char>, now: nat) -> AuthState {
    AuthState { code: st.code, token: st.token, qr: Some((nonce, now + QR_NONCE_LIFETIME_MS as nat)) }
}

/// The token a `Bearer` authorization header carries.
pub open spec fn bearer_token(header: Seq<char>) -> Option<Seq<char>> {
    if has_prefix(header, "Bearer "@) {
        Some(header.skip(7))
    } else {
        None
    }
}

/// A request is authorized when its `Bearer` token is the current session
/// token.
pub open spec fn authorizes_header(st: AuthState, header: Option<Seq<char>>) -> bool {
    match (header, st.token) {
        (Some(h), Some(t)) => bearer_token(h) == Some(t),
        _ => false,
    }
}

/// A WebSocket is authenticated when its first message is an `auth` message
/// with the current session token.
pub open spec fn accepts_ws(st: AuthState, kind: Seq<char>, token: Seq<char>) -> bool {
    kind == "auth"@ && st.token == Some(token)
}

/// What the phone is told about a pairing request.
#[derive(Debug)]
pub enum PairOutcome {
    Paired { token: String },
    Rejected,
}

impl Auth {
    pub closed spec fn state(&self) -> AuthState {
        AuthState {
            code: self.code@,
            token: opt_string_view(self.token),
            qr: match self.qr_nonce {
                Some(q) => Some((q.nonce@, q.expires_at_ms as nat)),
                None => None,
            },
        }
    }

    /// Pairing state with the given code, no session and no QR nonce.
    pub fn new(code: String) -> (a: Auth)
        ensures
            a.state() == (AuthState { code: code@, token: None, qr: None }),
    {
        Auth { code, token: None, qr_nonce: None }
    }

    /// Pairing state with a fresh random code.
    pub fn new_random() -> (r: Result<Auth, RandomUnavailable>)
        ensures
            r matches Ok(a) ==> a.state().token is None && a.state().qr is None
                && a.state().code.len() == 2 * PAIRING_CODE_BYTES && is_lower_hex(a.state().code),
            r matches Ok(a) ==> exists|b: Seq<u8>|
                b.len() == PAIRING_CODE_BYTES && a.state().code == #[trigger] hex_lower_of(b),
    {
        let code = random_hex(PAIRING_CODE_BYTES)?;
        Ok(Auth::new(code))
    }

    /// The current pairing code, to show on the host.
    pub fn code(&self) -> (r: &str)
        ensures
            r@ == self.state().code,
    {
        self.code.as_str()
    }

    /// Records a newly issued QR nonce valid for two minutes from `now_ms`.
    pub fn issue_nonce(&mut self, nonce: String, now_ms: u64)
        requires
            now_ms + QR_NONCE_LIFETIME_MS <= u64::MAX,
        ensures
            final(self).state() == after_issue(old(self).state(), nonce@, now_ms as nat),
    {
        self.qr_nonce = Some(QrNonce { nonce, expires_at_ms: now_ms + QR_NONCE_LIFETIME_MS });
    }

    /// Whether a pairing request is accepted at time `now_ms`.
    pub fn accepts_pairing(&self, request: &PairRequest, now_ms: u64) -> (r: bool)
        ensures
            r == pair_accepted(
                self.state(),
                opt_string_view(request.code),
                opt_string_view(request.nonce),
                now_ms as nat,
            ),
    {
        let valid_code = match &request.code {
            Some(c) => *c == self.code,
            None => false,
        };
        let valid_nonce = match (&request.nonce, &self.qr_nonce) {
            (Some(n), Some(q)) => *n == q.nonce && now_ms < q.expires_at_ms,
            _ => false,
        };
        valid_code || valid_nonce
    }

    /// Decides a pairing request with the token and next code already drawn:
    /// when accepted, the token becomes the only valid session and the code and
    /// QR nonce are replaced; when rejected, nothing changes.
    pub fn pair_with(
        &mut self,
        request: &PairRequest,
        now_ms: u64,
        token: String,
        next_code: String,
    ) -> (r: PairOutcome)
        ensures
            pair_accepted(
                old(self).state(),
                opt_string_view(request.code),
                opt_string_view(request.nonce),
                now_ms as nat,
            ) ==> r == (PairOutcome::Paired { token }) && final(self).state() == after_pair(
                old(self).state(),
                token@,
                next_code@,
            ),
            !pair_accepted(
                old(self).state(),
                opt_string_view(request.code),
                opt_string_view(request.nonce),
                now_ms as nat,
            ) ==> r == PairOutcome::Rejected && final(self).state() == old(self).state(),
    {
        if !self.accepts_pairing(request, now_ms) {
            return PairOutcome::Rejected;
        }
        self.code = next_code;
        self.token = Some(token.clone());
        self.qr_nonce = None;
        PairOutcome::Paired { token }
    }

    /// Handles a pairing request: a rejected request changes nothing; an
    /// accepted one draws a fresh session token and pairing code and then
    /// behaves as `pair_with`.
    pub fn pair(&mut self, request: &PairRequest, now_ms: u64) -> (r: Result<
        PairOutcome,
        RandomUnavailable,
    >)
        ensures
            !pair_accepted(
                old(self).state(),
                opt_string_view(request.code),
                opt_string_view(request.nonce),
                now_ms as nat,
            ) ==> r == Ok::<PairOutcome, RandomUnavailable>(PairOutcome::Rejected)
                && final(self).state() == old(self).state(),
            pair_accepted(
                old(self).state(),
                opt_string_view(request.code),
                opt_string_view(request.nonce),
                now_ms as nat,
            ) ==> match r {
                Ok(PairOutcome::Paired { token }) => {
                    &&& token@.len() == 2 * SESSION_TOKEN_BYTES
                    &&& is_lower_hex(token@)
                    &&& final(self).state() == after_pair(
                        old(self).state(),
                        token@,
                        final(self).state().code,
                    )
                    &&& final(self).state().code.len() == 2 * PAIRING_CODE_BYTES
                    &&& is_lower_hex(final(self).state().code)
                },
                Ok(PairOutcome::Rejected) => false,
                Err(_) => final(self).state() == old(self).state(),
            },
    {
        if !self.accepts_pairing(request, now_ms) {
            return Ok(PairOutcome::Rejected);
        }
        let token = random_hex(SESSION_TOKEN_BYTES)?;
        let code = random_hex(PAIRING_CODE_BYTES)?;
        Ok(self.pair_with(request, now_ms, token, code))
    }

    /// Whether an `Authorization` header value (when present and text)
    /// carries the current session token.
    pub fn authorizes(&self, authorization: Option<&str>) -> (r: bool)
        ensures
            r == authorizes_header(
                self.state(),
                match authorization {
                    Some(h) => Some(h@),
                    None => None,
                },
            ),
    {
        let header = match authorization {
            Some(h) => h,
            None => return false,
        };
        let token = match &self.token {
            Some(t) => t,
            None => return false,
        };
        proof {
            reveal_strlit("Bearer ");
        }
        if !starts_with(header, "Bearer ") {
            return false;
        }
        let rest = header.substring_char(7, header.unicode_len());
        str_eq(rest, token.as_str())
    }

    /// Logs out when the request is authorized: the session ends, the pairing
    /// code is replaced and any QR nonce is dropped. Reports whether it was.
    pub fn logout_with(&mut self, authorization: Option<&str>, next_code: String) -> (r: bool)
        ensures
            r == authorizes_header(
                old(self).state(),
                match authorization {
                    Some(h) => Some(h@),
                    None => None,
                },
            ),
            r ==> final(self).state() == after_logout(old(self).state(), next_code@),
            !r ==> final(self).state() == old(self).state(),
    {
        if !self.authorizes(authorization) {
            return false;
        }
        self.code = next_code;
        self.token = None;
        self.qr_nonce = None;
        true
    }

    /// Whether the first WebSocket message authenticates the connection.
    pub fn accepts_ws_auth(&self, message: Option<&WsAuth>) -> (r: bool)
        ensures
            r == match message {
                Some(m) => accepts_ws(self.state(), m.kind@, m.token@),
                None => false,
            },
    {
        match message {
            Some(m) => {
                let is_auth = str_eq(m.kind.as_str(), "auth");
                match &self.token {
                    Some(t) => is_auth && m.token == *t,
                    None => false,
                }
            },
            None => false,
        }
    }
}

/// The body of the answer to a pairing request.
pub open spec fn pair_body(outcome: PairOutcome) -> Seq<char> {
    match outcome {
        PairOutcome::Paired { token } => "{\"ok\":true,\"token\":"@ + json_string(token@) + "}"@,
        PairOutcome::Rejected => "{\"error\":\"invalid_pairing_code\",\"ok\":false}"@,
    }
}

/// The JSON body answering a pairing request (HTTP 401 when rejected).
pub fn pair_response(outcome: &PairOutcome) -> (r: String)
    ensures
        r@ == pair_body(*outcome),
{
    let mut r = String::new();
    match outcome {
        PairOutcome::Paired { token } => {
            push_str(&mut r, "{\"ok\":true,\"token\":");
            push_json_string(&mut r, token.as_str());
            push_str(&mut r, "}");
        },
        PairOutcome::Rejected => {
            push_str(&mut r, "{\"error\":\"invalid_pairing_code\",\"ok\":false}");
        },
    }
    r
}


proof fn lemma_bearer_header(header: Seq<char>, token: Seq<char>)
    ensures
        bearer_token(header) == Some(token) <==> header == "Bearer "@ + token,
{
    reveal_strlit("Bearer ");
    let p = "Bearer "@;
    if bearer_token(header) == Some(token) {
        assert(header =~= header.subrange(0, 7) + header.skip(7));
    }
    if header == p + token {
        assert((p + token).subrange(0, 7) =~= p);
        assert((p + token).skip(7) =~= token);
    }
}

/// After a successful pairing, a request is authorized exactly when it
/// carries `Bearer ` and the new token: every earlier token stops working.
pub proof fn law_pairing_grants_only_the_new_token(
    st: AuthState,
    token: Seq<char>,
    code: Seq<char>,
    header: Seq<char>,
)
    ensures
        authorizes_header(after_pair(st, token, code), Some(header)) <==> header == "Bearer "@
            + token,
{
    lemma_bearer_header(header, token);
}

/// A QR nonce pairs at most once: after any successful pairing, a request
/// that carries only a nonce is refused.
pub proof fn law_qr_nonce_is_single_use(
    st: AuthState,
    token: Seq<char>,
    code: Seq<char>,
    nonce: Seq<char>,
    now: nat,
)
    ensures
        !pair_accepted(after_pair(st, token, code), None, Some(nonce), now),
{
}

/// A QR nonce pairs while its two minutes last.
pub proof fn law_qr_nonce_pairs_while_fresh(st: AuthState, nonce: Seq<char>, issued: nat, now: nat)
    requires
        now < issued + QR_NONCE_LIFETIME_MS,
    ensures
        pair_accepted(after_issue(st, nonce, issued), None, Some(nonce), now),
{
}

/// A QR nonce stops pairing two minutes after it was issued.
pub proof fn law_qr_nonce_expires(st: AuthState, nonce: Seq<char>, issued: nat, now: nat)
    requires
        now >= issued + QR_NONCE_LIFETIME_MS,
    ensures
        !pair_accepted(after_issue(st, nonce, issued), None, Some(nonce), now),
{
}

/// Issuing a QR keeps the manual pairing code working.
pub proof fn law_manual_code_survives_qr(st: AuthState, nonce: Seq<char>, issued: nat, now: nat)
    ensures
        pair_accepted(after_issue(st, nonce, issued), Some(st.code), None, now),
{
}

/// Only the latest QR pairs: issuing a new one retires the previous nonce.
pub proof fn law_new_qr_replaces_old(
    st: AuthState,
    first: Seq<char>,
    second: Seq<char>,
    t1: nat,
    t2: nat,
    now: nat,
)
    requires
        first != second,
    ensures
        !pair_accepted(after_issue(after_issue(st, first, t1), second, t2), None, Some(first), now),
{
}

/// Logging out ends the session and retires any QR nonce.
pub proof fn law_logout_revokes(
    st: AuthState,
    code: Seq<char>,
    header: Option<Seq<char>>,
    nonce: Option<Seq<char>>,
    now: nat,
)
    ensures
        !authorizes_header(after_logout(st, code), header),
        !pair_accepted(after_logout(st, code), None, nonce, now),
{
}

/// Pairing is mandatory: with no session token (as after a restart), no
/// request is authorized and no WebSocket is authenticated.
pub proof fn law_no_session_no_access(st: AuthState, header: Option<Seq<char>>, kind: Seq<char>, token: Seq<char>)
    requires
        st.token is None,
    ensures
        !authorizes_header(st, header),
        !accepts_ws(st, kind, token),
{
}

/// HTTP and WebSocket authentication accept the same tokens.
pub proof fn law_http_and_ws_agree(st: AuthState, token: Seq<char>)
    ensures
        authorizes_header(st, Some("Bearer "@ + token)) == accepts_ws(st, "auth"@, token),
{
    lemma_bearer_header("Bearer "@ + token, token);
}

} // verus!
