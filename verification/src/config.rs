//! Host settings: environment overrides, viewport limits, the CDP parameter
//! objects that depend on them, and the browser launch bookkeeping.

use vstd::prelude::*;
use crate::text::{chars_of, decimal, digit_char, opt_chars, push_decimal, push_str, string_of};

verus! {

/// The viewer port used when no valid override is given.
pub const DEFAULT_HOST_PORT: u16 = 8787;

/// The JPEG quality used when no valid override is given.
pub const DEFAULT_JPEG_QUALITY: u8 = 60;

/// The screencast frame cadence used when no valid override is given.
pub const DEFAULT_EVERY_NTH_FRAME: u32 = 2;

/// The loopback-only CDP port.
pub const CDP_PORT: u16 = 9229;

/// The widest viewport a phone may request.
pub const MAX_VIEWPORT_WIDTH: u32 = 1920;

/// The tallest viewport a phone may request.
pub const MAX_VIEWPORT_HEIGHT: u32 = 2400;

/// The viewport the host starts with.
pub const INITIAL_VIEWPORT_WIDTH: u32 = 430;

/// The viewport the host starts with.
pub const INITIAL_VIEWPORT_HEIGHT: u32 = 932;

pub open spec fn is_digit(c: char) -> bool {
    '0' <= c && c <= '9'
}

/// Value of a string of decimal digits.
pub open spec fn digits_value(s: Seq<char>) -> nat
    decreases s.len(),
{
    if s.len() == 0 {
        0
    } else {
        digits_value(s.drop_last()) * 10 + ((s.last() as u32) - 48) as nat
    }
}

/// What `str::parse` gives for an unsigned integer before its range check:
/// an optional `+`, then one or more decimal digits.
pub open spec fn parse_unsigned(s: Seq<char>) -> Option<nat> {
    let d = unsigned_digits(s);
    if d.len() > 0 && all_digits(d) {
        Some(digits_value(d))
    } else {
        None
    }
}

/// The part of `s` after an optional leading `+`.
pub open spec fn unsigned_digits(s: Seq<char>) -> Seq<char> {
    if s.len() > 0 && s[0] == '+' { s.drop_first() } else { s }
}

/// Every character of `d` is a decimal digit.
pub open spec fn all_digits(d: Seq<char>) -> bool {
    forall|i: int| 0 <= i < d.len() ==> is_digit(#[trigger] d[i])
}

/// The integer `s` parses to when it lies in `0..=max`.
pub open spec fn parse_at_most(s: Seq<char>, max: nat) -> Option<nat> {
    match parse_unsigned(s) {
        Some(v) => if v <= max { Some(v) } else { None },
        None => None,
    }
}

proof fn lemma_digits_value_grows(s: Seq<char>, k: int)
    requires
        0 <= k <= s.len(),
        forall|i: int| 0 <= i < s.len() ==> is_digit(#[trigger] s[i]),
    ensures
        digits_value(s.take(k)) <= digits_value(s),
    decreases s.len() - k,
{
    if k < s.len() {
        lemma_digits_value_grows(s, k + 1);
        assert(s.take(k + 1).drop_last() =~= s.take(k));
    } else {
        assert(s.take(k) =~= s);
    }
}

/// Parses an unsigned decimal integer no greater than `max`, as
/// `str::parse` does for an unsigned integer type whose largest value is `max`.
pub fn parse_unsigned_at_most(s: &str, max: u64) -> (r: Option<u64>)
    requires
        max <= 0xffff_ffff,
    ensures
        r matches Some(v) ==> parse_at_most(s@, max as nat) == Some(v as nat),
        r is None ==> parse_at_most(s@, max as nat) is None,
{
    let c = chars_of(s);
    let start: usize = if c.len() > 0 && c[0] == '+' { 1 } else { 0 };
    let ghost d = unsigned_digits(s@);
    assert(d =~= c@.subrange(start as int, c@.len() as int));
    if start == c.len() {
        return None;
    }
    let mut acc: u64 = 0;
    let mut i: usize = start;
    while i < c.len()
        invariant
            c@ == s@,
            start <= i <= c.len(),
            d =~= c@.subrange(start as int, c@.len() as int),
            d == unsigned_digits(s@),
            d.len() > 0,
            forall|j: int| 0 <= j < i - start ==> is_digit(#[trigger] d[j]),
            acc as nat == digits_value(d.take(i - start)),
            acc <= max,
            max <= 0xffff_ffff,
        decreases c.len() - i,
    {
        let ch = c[i];
        assert(d[i - start] == ch);
        if !('0' <= ch && ch <= '9') {
            assert(!is_digit(d[i - start]));
            assert(!all_digits(d));
            assert(parse_unsigned(s@) is None);
            return None;
        }
        assert(d.take(i - start + 1).drop_last() =~= d.take(i - start));
        assert(d[i - start] == ch);
        let v: u64 = acc * 10 + ((ch as u32) - 48) as u64;
        assert(d.take(i - start + 1).last() == ch);
        assert(v as nat == digits_value(d.take(i - start + 1)));
        if v > max {
            proof {
                if all_digits(d) {
                    lemma_digits_value_grows(d, i - start + 1);
                    assert(parse_unsigned(s@) == Some(digits_value(d)));
                }
            }
            return None;
        }
        acc = v;
        i = i + 1;
    }
    assert(d.take(d.len() as int) =~= d);
    assert(all_digits(d));
    Some(acc)
}

/// The viewer port: `HWMR_HOST_PORT` when it parses to a nonzero `u16`,
/// else the default.
pub open spec fn spec_host_port(value: Option<Seq<char>>) -> u16 {
    match value {
        Some(s) => match parse_at_most(s, 65535) {
            Some(p) => if p != 0 { p as u16 } else { DEFAULT_HOST_PORT },
            None => DEFAULT_HOST_PORT,
        },
        None => DEFAULT_HOST_PORT,
    }
}

/// The viewer port, from the value of `HWMR_HOST_PORT` if it is set.
pub fn host_port(value: Option<&str>) -> (port: u16)
    ensures
        port == spec_host_port(opt_chars(value)),
        port != 0,
{
    match value {
        Some(s) => match parse_unsigned_at_most(s, 65535) {
            Some(p) => if p != 0 { p as u16 } else { DEFAULT_HOST_PORT },
            None => DEFAULT_HOST_PORT,
        },
        None => DEFAULT_HOST_PORT,
    }
}

/// The JPEG quality: `HWMR_JPEG_QUALITY` when it parses to a `u8` in 1 to
/// 100, else the default.
pub open spec fn spec_jpeg_quality(value: Option<Seq<char>>) -> u8 {
    match value {
        Some(s) => match parse_at_most(s, 255) {
            Some(q) => if 1 <= q <= 100 { q as u8 } else { DEFAULT_JPEG_QUALITY },
            None => DEFAULT_JPEG_QUALITY,
        },
        None => DEFAULT_JPEG_QUALITY,
    }
}

/// The JPEG quality, from the value of `HWMR_JPEG_QUALITY` if it is set.
pub fn jpeg_quality(value: Option<&str>) -> (q: u8)
    ensures
        q == spec_jpeg_quality(opt_chars(value)),
        1 <= q <= 100,
{
    match value {
        Some(s) => match parse_unsigned_at_most(s, 255) {
            Some(q) => if 1 <= q && q <= 100 { q as u8 } else { DEFAULT_JPEG_QUALITY },
            None => DEFAULT_JPEG_QUALITY,
        },
        None => DEFAULT_JPEG_QUALITY,
    }
}

/// The screencast cadence: `HWMR_EVERY_NTH_FRAME` when it parses to a
/// positive `i32`, else the default. (A value with a leading `-` parses to a
/// number that is not positive, or to nothing.)
pub open spec fn spec_every_nth_frame(value: Option<Seq<char>>) -> u32 {
    match value {
        Some(s) => match parse_at_most(s, 0x7fff_ffff) {
            Some(n) => if n > 0 { n as u32 } else { DEFAULT_EVERY_NTH_FRAME },
            None => DEFAULT_EVERY_NTH_FRAME,
        },
        None => DEFAULT_EVERY_NTH_FRAME,
    }
}

/// The screencast cadence, from the value of `HWMR_EVERY_NTH_FRAME` if set.
pub fn every_nth_frame(value: Option<&str>) -> (n: u32)
    ensures
        n == spec_every_nth_frame(opt_chars(value)),
        1 <= n <= 0x7fff_ffff,
{
    match value {
        Some(s) => match parse_unsigned_at_most(s, 0x7fff_ffff) {
            Some(n) => if n > 0 { n as u32 } else { DEFAULT_EVERY_NTH_FRAME },
            None => DEFAULT_EVERY_NTH_FRAME,
        },
        None => DEFAULT_EVERY_NTH_FRAME,
    }
}

proof fn lemma_digit_char_value(d: nat)
    requires
        d < 10,
    ensures
        is_digit(digit_char(d)),
        ((digit_char(d) as u32) - 48) as nat == d,
{
}

proof fn lemma_decimal_reads_back(n: nat)
    ensures
        decimal(n).len() > 0,
        all_digits(decimal(n)),
        digits_value(decimal(n)) == n,
    decreases n,
{
    if n < 10 {
        lemma_digit_char_value(n);
        assert(decimal(n).drop_last() =~= Seq::<char>::empty());
        assert(digits_value(decimal(n)) == digits_value(decimal(n).drop_last()) * 10 + ((decimal(
            n,
        ).last() as u32) - 48) as nat);
        assert(digits_value(Seq::<char>::empty()) == 0);
    } else {
        lemma_decimal_reads_back(n / 10);
        lemma_digit_char_value(n % 10);
        let d = decimal(n);
        assert(d.drop_last() =~= decimal(n / 10));
        assert(d.last() == digit_char(n % 10));
        assert(n == (n / 10) * 10 + n % 10);
        assert(digits_value(d) == digits_value(d.drop_last()) * 10 + ((d.last() as u32) - 48) as nat);
        assert forall|i: int| 0 <= i < d.len() implies is_digit(#[trigger] d[i]) by {
            if i < d.len() - 1 {
                assert(d[i] == decimal(n / 10)[i]);
            }
        }
    }
}

proof fn lemma_decimal_parses(n: nat)
    ensures
        parse_unsigned(decimal(n)) == Some(n),
{
    lemma_decimal_reads_back(n);
    assert(is_digit(decimal(n)[0]));
    assert(unsigned_digits(decimal(n)) == decimal(n));
}

proof fn lemma_leading_zero_value(s: Seq<char>)
    ensures
        digits_value(seq!['0'] + s) == digits_value(s),
    decreases s.len(),
{
    let z = seq!['0'] + s;
    assert(digits_value(z) == digits_value(z.drop_last()) * 10 + ((z.last() as u32) - 48) as nat);
    if s.len() == 0 {
        assert(z.drop_last() =~= Seq::<char>::empty());
        assert(z.last() == '0');
    } else {
        lemma_leading_zero_value(s.drop_last());
        assert(z.drop_last() =~= seq!['0'] + s.drop_last());
        assert(z.last() == s.last());
        assert(digits_value(s) == digits_value(s.drop_last()) * 10 + ((s.last() as u32) - 48) as nat);
    }
}

/// How `str::parse` treats a leading `+`, leading zeros and stray
/// characters.
proof fn lemma_parse_shapes(s: Seq<char>)
    ensures
        s.len() > 0 && s[0] != '+' ==> parse_unsigned(seq!['+'] + s) == parse_unsigned(s),
        s.len() > 0 && s[0] != '+' ==> parse_unsigned(seq!['0'] + s) == parse_unsigned(s),
        (exists|i: int| 0 <= i < s.len() && !is_digit(#[trigger] s[i]) && !(i == 0 && s[i] == '+'))
            ==> parse_unsigned(s) is None,
        parse_unsigned(seq!['+']) is None,
{
    if s.len() > 0 && s[0] != '+' {
        assert(unsigned_digits(seq!['+'] + s) =~= s);
        assert(unsigned_digits(s) == s);
        let z = seq!['0'] + s;
        assert(unsigned_digits(z) == z);
        lemma_leading_zero_value(s);
        if all_digits(s) {
            assert forall|i: int| 0 <= i < z.len() implies is_digit(#[trigger] z[i]) by {
                if i > 0 {
                    assert(z[i] == s[i - 1]);
                }
            }
        } else {
            let k = choose|k: int| 0 <= k < s.len() && !is_digit(#[trigger] s[k]);
            assert(z[k + 1] == s[k]);
        }
    }
    if exists|i: int| 0 <= i < s.len() && !is_digit(#[trigger] s[i]) && !(i == 0 && s[i] == '+') {
        let i = choose|i: int| 0 <= i < s.len() && !is_digit(#[trigger] s[i]) && !(i == 0 && s[i] == '+');
        let d = unsigned_digits(s);
        if s.len() > 0 && s[0] == '+' {
            assert(d[i - 1] == s[i]);
        } else {
            assert(d[i] == s[i]);
        }
    }
    assert(unsigned_digits(seq!['+']) =~= Seq::<char>::empty());
}

/// `HWMR_EVERY_NTH_FRAME` written as the decimal numeral of a positive
/// `i32` is used as it is (`1` streams every frame); `0`, a number too
/// large for an `i32`, an empty value, a value with any character but
/// digits (after at most one leading `+`) and no value at all give every
/// 2nd frame. A leading `+` or `0` does not change the value.
pub proof fn law_every_nth_frame_override(n: nat, s: Seq<char>)
    ensures
        1 <= n <= 2147483647 ==> spec_every_nth_frame(Some(decimal(n))) == n,
        n == 0 || n > 2147483647 ==> spec_every_nth_frame(Some(decimal(n))) == 2,
        spec_every_nth_frame(Some(Seq::empty())) == 2,
        spec_every_nth_frame(None) == 2,
        s.len() > 0 && s[0] != '+' ==> spec_every_nth_frame(Some(seq!['+'] + s)) == spec_every_nth_frame(Some(s)),
        s.len() > 0 && s[0] != '+' ==> spec_every_nth_frame(Some(seq!['0'] + s)) == spec_every_nth_frame(Some(s)),
        (exists|i: int| 0 <= i < s.len() && !is_digit(#[trigger] s[i]) && !(i == 0 && s[i] == '+'))
            ==> spec_every_nth_frame(Some(s)) == 2,
        spec_every_nth_frame(Some(seq!['+'])) == 2,
{
    lemma_decimal_parses(n);
    lemma_parse_shapes(s);
}

/// `HWMR_HOST_PORT` written as the decimal numeral of a port in 1 to 65535
/// is used as it is; `0`, a number above 65535, an empty value, a value
/// with any character but digits (after at most one leading `+`) and no
/// value at all give port 8787. A leading `+` or `0` does not change the
/// value.
pub proof fn law_host_port_override(n: nat, s: Seq<char>)
    ensures
        1 <= n <= 65535 ==> spec_host_port(Some(decimal(n))) == n,
        n == 0 || n > 65535 ==> spec_host_port(Some(decimal(n))) == 8787,
        spec_host_port(Some(Seq::empty())) == 8787,
        spec_host_port(None) == 8787,
        s.len() > 0 && s[0] != '+' ==> spec_host_port(Some(seq!['+'] + s)) == spec_host_port(Some(s)),
        s.len() > 0 && s[0] != '+' ==> spec_host_port(Some(seq!['0'] + s)) == spec_host_port(Some(s)),
        (exists|i: int| 0 <= i < s.len() && !is_digit(#[trigger] s[i]) && !(i == 0 && s[i] == '+'))
            ==> spec_host_port(Some(s)) == 8787,
        spec_host_port(Some(seq!['+'])) == 8787,
{
    lemma_decimal_parses(n);
    lemma_parse_shapes(s);
}

/// `HWMR_JPEG_QUALITY` written as the decimal numeral of a quality in 1 to
/// 100 is used as it is; any other number, an empty value, a value with any
/// character but digits (after at most one leading `+`) and no value at all
/// give quality 60. A leading `+` or `0` does not change the value.
pub proof fn law_jpeg_quality_override(n: nat, s: Seq<char>)
    ensures
        1 <= n <= 100 ==> spec_jpeg_quality(Some(decimal(n))) == n,
        n == 0 || n > 100 ==> spec_jpeg_quality(Some(decimal(n))) == 60,
        spec_jpeg_quality(Some(Seq::empty())) == 60,
        spec_jpeg_quality(None) == 60,
        s.len() > 0 && s[0] != '+' ==> spec_jpeg_quality(Some(seq!['+'] + s)) == spec_jpeg_quality(Some(s)),
        s.len() > 0 && s[0] != '+' ==> spec_jpeg_quality(Some(seq!['0'] + s)) == spec_jpeg_quality(Some(s)),
        (exists|i: int| 0 <= i < s.len() && !is_digit(#[trigger] s[i]) && !(i == 0 && s[i] == '+'))
            ==> spec_jpeg_quality(Some(s)) == 60,
        spec_jpeg_quality(Some(seq!['+'])) == 60,
{
    lemma_decimal_parses(n);
    lemma_parse_shapes(s);
}

/// `v` limited to `lo..=hi`.
pub open spec fn clamp(v: u32, lo: u32, hi: u32) -> u32 {
    if v < lo { lo } else if v > hi { hi } else { v }
}

/// A requested viewport width limited to what the host renders.
pub open spec fn clamp_width(w: u32) -> u32 {
    clamp(w, 1, MAX_VIEWPORT_WIDTH)
}

/// A requested viewport height limited to what the host renders.
pub open spec fn clamp_height(h: u32) -> u32 {
    clamp(h, 1, MAX_VIEWPORT_HEIGHT)
}

/// A requested width in 1 to 1920 and height in 1 to 2400 is used as it
/// is; a zero side becomes 1 and a larger one the limit; a larger request
/// never gets a smaller viewport.
pub proof fn law_viewport_limits(w: u32, h: u32, w2: u32, h2: u32)
    ensures
        1 <= w <= 1920 ==> clamp_width(w) == w,
        w == 0 ==> clamp_width(w) == 1,
        w > 1920 ==> clamp_width(w) == 1920,
        1 <= h <= 2400 ==> clamp_height(h) == h,
        h == 0 ==> clamp_height(h) == 1,
        h > 2400 ==> clamp_height(h) == 2400,
        w <= w2 ==> clamp_width(w) <= clamp_width(w2),
        h <= h2 ==> clamp_height(h) <= clamp_height(h2),
{
}

/// Limits a requested viewport to 1..=1920 by 1..=2400.
pub fn clamp_viewport(width: u32, height: u32) -> (r: (u32, u32))
    ensures
        r == (clamp_width(width), clamp_height(height)),
        1 <= r.0 <= MAX_VIEWPORT_WIDTH,
        1 <= r.1 <= MAX_VIEWPORT_HEIGHT,
{
    let w = if width < 1 { 1 } else if width > MAX_VIEWPORT_WIDTH { MAX_VIEWPORT_WIDTH } else { width };
    let h = if height < 1 { 1 } else if height > MAX_VIEWPORT_HEIGHT { MAX_VIEWPORT_HEIGHT } else { height };
    (w, h)
}

/// The `Emulation.setDeviceMetricsOverride` parameters for a viewport: a
/// mobile device at scale 1 whose screen matches the clamped viewport.
pub open spec fn device_metrics_json(w: u32, h: u32) -> Seq<char> {
    "{\"deviceScaleFactor\":1,\"height\":"@ + decimal(h as nat) + ",\"mobile\":true,\"screenHeight\":"@
        + decimal(h as nat) + ",\"screenWidth\":"@ + decimal(w as nat) + ",\"width\":"@ + decimal(
        w as nat,
    ) + "}"@
}

/// The device-metrics override for a requested viewport, as JSON text.
pub fn device_metrics(width: u32, height: u32) -> (r: String)
    ensures
        r@ == device_metrics_json(clamp_width(width), clamp_height(height)),
{
    let (w, h) = clamp_viewport(width, height);
    let mut r = String::new();
    push_str(&mut r, "{\"deviceScaleFactor\":1,\"height\":");
    push_decimal(&mut r, h as u64);
    push_str(&mut r, ",\"mobile\":true,\"screenHeight\":");
    push_decimal(&mut r, h as u64);
    push_str(&mut r, ",\"screenWidth\":");
    push_decimal(&mut r, w as u64);
    push_str(&mut r, ",\"width\":");
    push_decimal(&mut r, w as u64);
    push_str(&mut r, "}");
    r
}


/// The browser's user agent: a current Android phone, so sites serve their
/// mobile layout.
pub const MOBILE_USER_AGENT: &'static str = "Mozilla/5.0 (Linux; Android 15; Pixel 9) AppleWebKit/537.36 (KHTML, like Gecko) Chrome/152.0.0.0 Mobile Safari/537.36";

/// How many times startup looks for the browser's DevTools port.
pub const LAUNCH_ATTEMPTS: u32 = 40;

/// How many times startup looks for the first page target.
pub const PAGE_TARGET_ATTEMPTS: u32 = 30;

/// The screencast settings that the environment can override.
#[derive(Debug)]
pub struct StreamSettings {
    pub quality: u8,
    pub every_nth_frame: u32,
}

/// Screencast settings from the values of `HWMR_JPEG_QUALITY` and
/// `HWMR_EVERY_NTH_FRAME`, each when set.
pub fn stream_settings(quality: Option<&str>, every_nth: Option<&str>) -> (r: StreamSettings)
    ensures
        r.quality == spec_jpeg_quality(opt_chars(quality)),
        r.every_nth_frame == spec_every_nth_frame(opt_chars(every_nth)),
{
    StreamSettings { quality: jpeg_quality(quality), every_nth_frame: every_nth_frame(every_nth) }
}

/// The `Page.startScreencast` parameters: JPEG frames at the configured
/// quality and cadence, no larger than the clamped viewport.
pub open spec fn screencast_params_json(quality: u8, every_nth: u32, w: u32, h: u32) -> Seq<char> {
    "{\"everyNthFrame\":"@ + decimal(every_nth as nat) + ",\"format\":\"jpeg\",\"maxHeight\":"@ + decimal(
        h as nat,
    ) + ",\"maxWidth\":"@ + decimal(w as nat) + ",\"quality\":"@ + decimal(quality as nat) + "}"@
}

/// The screencast parameters for a requested viewport, as JSON text.
pub fn screencast_params(settings: &StreamSettings, width: u32, height: u32) -> (r: String)
    ensures
        r@ == screencast_params_json(
            settings.quality,
            settings.every_nth_frame,
            clamp_width(width),
            clamp_height(height),
        ),
{
    let (w, h) = clamp_viewport(width, height);
    let mut r = String::new();
    push_str(&mut r, "{\"everyNthFrame\":");
    push_decimal(&mut r, settings.every_nth_frame as u64);
    push_str(&mut r, ",\"format\":\"jpeg\",\"maxHeight\":");
    push_decimal(&mut r, h as u64);
    push_str(&mut r, ",\"maxWidth\":");
    push_decimal(&mut r, w as u64);
    push_str(&mut r, ",\"quality\":");
    push_decimal(&mut r, settings.quality as u64);
    push_str(&mut r, "}");
    r
}

/// An IPv4 address in a private range (10/8, 172.16/12, 192.168/16).
pub open spec fn is_private_ipv4(o: [u8; 4]) -> bool {
    o[0] == 10 || (o[0] == 172 && 16 <= o[1] <= 31) || (o[0] == 192 && o[1] == 168)
}

/// An IPv4 link-local address (169.254/16).
pub open spec fn is_link_local_ipv4(o: [u8; 4]) -> bool {
    o[0] == 169 && o[1] == 254
}

/// Whether an address the host found for itself may be offered to phones:
/// it must be private or link-local.
pub fn is_trusted_lan_address(o: [u8; 4]) -> (r: bool)
    ensures
        r == (is_private_ipv4(o) || is_link_local_ipv4(o)),
{
    let a = o[0];
    let b = o[1];
    a == 10 || (a == 172 && 16 <= b && b <= 31) || (a == 192 && b == 168) || (a == 169 && b == 254)
}

/// Where the dedicated browser profile lives.
#[derive(Debug)]
pub enum ProfileDir<P> {
    /// `HWMR_PROFILE_DIR`, used as it is.
    Custom(P),
    /// `HWMR\\browser-profile-v7` under this `LOCALAPPDATA` directory.
    UnderLocalAppData(P),
}

/// `LOCALAPPDATA` is not set, or not valid text.
#[derive(Debug)]
pub struct MissingLocalAppData;

/// The profile directory: `HWMR_PROFILE_DIR` overrides the default, which
/// is under `LOCALAPPDATA`; only the default needs `LOCALAPPDATA`.
pub fn profile_dir<P>(local_app_data: Option<P>, custom: Option<P>) -> (r: Result<
    ProfileDir<P>,
    MissingLocalAppData,
>)
    ensures
        custom matches Some(p) ==> r == Ok::<ProfileDir<P>, MissingLocalAppData>(ProfileDir::Custom(p)),
        custom is None ==> (local_app_data is None <==> r is Err),
        custom is None ==> (r matches Ok(d) ==> (d matches ProfileDir::UnderLocalAppData(p)
            && local_app_data == Some(p))),
{
    match custom {
        Some(p) => Ok(ProfileDir::Custom(p)),
        None => match local_app_data {
            Some(local) => Ok(ProfileDir::UnderLocalAppData(local)),
            None => Err(MissingLocalAppData),
        },
    }
}

/// The outcome of looking for the browser executable.
#[derive(Debug)]
pub enum BraveLookup<P> {
    Found(P),
    /// `HWMR_BRAVE_PATH` names something that is not a file.
    OverrideMissing(P),
    /// No standard location holds the executable.
    NotInstalled,
}

/// Index of the first candidate that is a file.
pub open spec fn first_existing<P>(candidates: Seq<(P, bool)>) -> Option<int>
    decreases candidates.len(),
{
    if candidates.len() == 0 {
        None
    } else if candidates[0].1 {
        Some(0)
    } else {
        match first_existing(candidates.drop_first()) {
            Some(i) => Some(i + 1),
            None => None,
        }
    }
}

/// Chooses the browser executable. An override (with whether it is a file)
/// is used or reported missing, and never falls back; otherwise the first
/// standard candidate that is a file is used.
pub fn brave_path<P>(custom: Option<(P, bool)>, candidates: Vec<(P, bool)>) -> (r: BraveLookup<P>)
    ensures
        match custom {
            Some((p, is_file)) => if is_file { r == BraveLookup::Found(p) } else { r
                == BraveLookup::OverrideMissing(p) },
            None => match first_existing(candidates@) {
                Some(i) => r == BraveLookup::Found(candidates@[i].0),
                None => r == BraveLookup::<P>::NotInstalled,
            },
        },
{
    if let Some((p, is_file)) = custom {
        return if is_file { BraveLookup::Found(p) } else { BraveLookup::OverrideMissing(p) };
    }
    let mut rest = candidates;
    let ghost all = rest@;
    let ghost mut skipped: int = 0;
    while rest.len() > 0
        invariant
            custom is None,
            all == candidates@,
            0 <= skipped <= all.len(),
            rest@ == all.subrange(skipped, all.len() as int),
            first_existing(all) == match first_existing(rest@) {
                Some(i) => Some(i + skipped),
                None => None::<int>,
            },
        decreases rest.len(),
    {
        let (p, is_file) = rest.remove(0);
        if is_file {
            return BraveLookup::Found(p);
        }
        proof {
            assert(rest@ =~= all.subrange(skipped + 1, all.len() as int));
            skipped = skipped + 1;
        }
    }
    BraveLookup::NotInstalled
}

/// Index of the first line feed in `s`, or its length.
pub open spec fn newline_index(s: Seq<char>) -> nat
    decreases s.len(),
{
    if s.len() == 0 {
        0
    } else if s[0] == '\n' {
        0
    } else {
        1 + newline_index(s.drop_first())
    }
}

/// The first line of `s` as `str::lines` yields it: text up to the first
/// line feed, without a carriage return just before that line feed; none
/// for empty text.
pub open spec fn first_line(s: Seq<char>) -> Option<Seq<char>> {
    let k = newline_index(s) as int;
    if s.len() == 0 {
        None
    } else if k < s.len() && k > 0 && s[k - 1] == '\r' {
        Some(s.take(k - 1))
    } else {
        Some(s.take(k))
    }
}

proof fn lemma_newline_index(s: Seq<char>, j: int)
    requires
        0 <= j <= s.len(),
        forall|i: int| 0 <= i < j ==> s[i] != '\n',
        j < s.len() ==> s[j] == '\n',
    ensures
        newline_index(s) == j,
    decreases j,
{
    if j > 0 {
        lemma_newline_index(s.drop_first(), j - 1);
    }
}

/// The port a `DevToolsActivePort` file names: its first line as a `u16`.
pub open spec fn devtools_port_of(content: Seq<char>) -> Option<u16> {
    match first_line(content) {
        Some(line) => match parse_at_most(line, 65535) {
            Some(p) => Some(p as u16),
            None => None,
        },
        None => None,
    }
}

/// Reads the port from the contents of a `DevToolsActivePort` file.
pub fn devtools_port(content: &str) -> (r: Option<u16>)
    ensures
        r == devtools_port_of(content@),
{
    let c = chars_of(content);
    if c.len() == 0 {
        return None;
    }
    let mut k: usize = 0;
    while k < c.len() && c[k] != '\n'
        invariant
            c@ == content@,
            k <= c.len(),
            forall|i: int| 0 <= i < k ==> c@[i] != '\n',
        decreases c.len() - k,
    {
        k = k + 1;
    }
    proof {
        lemma_newline_index(content@, k as int);
    }
    let end = if k < c.len() && k > 0 && c[k - 1] == '\r' { k - 1 } else { k };
    let line = content.substring_char(0, end);
    assert(line@ =~= first_line(content@).unwrap());
    match parse_unsigned_at_most(line, 65535) {
        Some(p) => Some(p as u16),
        None => None,
    }
}

/// The `DevToolsActivePort` contents that point at the fixed CDP port and
/// the browser's debugger path.
pub open spec fn devtools_port_file_text(browser_path: Seq<char>) -> Seq<char> {
    "9229\n"@ + browser_path + "\n"@
}

/// The `DevToolsActivePort` file to write for the fixed CDP port.
pub fn devtools_port_file(browser_path: &str) -> (r: String)
    ensures
        r@ == devtools_port_file_text(browser_path@),
{
    let mut r = String::new();
    push_str(&mut r, "9229\n");
    push_str(&mut r, browser_path);
    push_str(&mut r, "\n");
    r
}

/// The path of a parsed URL (`url::Url::parse`, then `path()`); none when the
/// text is not a URL. It depends on the text alone.
pub uninterp spec fn url_path(url: Seq<char>) -> Option<Seq<char>>;

#[verifier::external_type_specification]
#[verifier::external_body]
pub struct ExUrlParseError(url::ParseError);

/// `url::Url::parse(url)` followed by `Url::path`.
#[verifier::external_body]
fn parse_url_path(url: &str) -> (r: Result<String, url::ParseError>)
    ensures
        match r {
            Ok(p) => url_path(url@) == Some(p@),
            Err(_) => url_path(url@) is None,
        },
{
    url::Url::parse(url).map(|u| u.path().to_owned())
}

/// The `DevToolsActivePort` file for a browser whose debugger listens at the
/// WebSocket URL `websocket`; fails when that is not a URL.
pub fn devtools_port_file_for(websocket: &str) -> (r: Result<String, url::ParseError>)
    ensures
        match r {
            Ok(text) => url_path(websocket@) matches Some(p) && text@ == devtools_port_file_text(p),
            Err(_) => url_path(websocket@) is None,
        },
{
    let path = parse_url_path(websocket)?;
    Ok(devtools_port_file(path.as_str()))
}

/// The command line of the headless browser: loopback-only debugging on the
/// fixed port, the phone user agent, the dedicated profile, and the initial
/// viewport.
pub open spec fn brave_args_spec(profile: Seq<char>) -> Seq<Seq<char>> {
    seq![
        "--headless"@,
        "--remote-debugging-address=127.0.0.1"@,
        "--remote-debugging-port=9229"@,
        "--no-first-run"@,
        "--user-agent="@ + MOBILE_USER_AGENT@,
        "--user-data-dir="@ + profile,
        "--window-size=430,932"@,
        "about:blank"@,
    ]
}

/// The browser's arguments for a profile directory (as displayed text).
pub fn brave_args(profile: &str) -> (r: Vec<String>)
    ensures
        r@.len() == 8,
        forall|i: int| 0 <= i < 8 ==> #[trigger] r@[i]@ == brave_args_spec(profile@)[i],
{
    let mut r: Vec<String> = Vec::new();
    r.push(string_of("--headless"));
    r.push(string_of("--remote-debugging-address=127.0.0.1"));
    r.push(string_of("--remote-debugging-port=9229"));
    r.push(string_of("--no-first-run"));
    let mut ua = string_of("--user-agent=");
    push_str(&mut ua, MOBILE_USER_AGENT);
    r.push(ua);
    let mut dir = string_of("--user-data-dir=");
    push_str(&mut dir, profile);
    r.push(dir);
    r.push(string_of("--window-size=430,932"));
    r.push(string_of("about:blank"));
    r
}

/// A bounded number of tries.
pub struct Attempts {
    used: u32,
    limit: u32,
}

impl Attempts {
    pub closed spec fn used(&self) -> nat {
        self.used as nat
    }

    pub closed spec fn limit(&self) -> nat {
        self.limit as nat
    }

    /// A budget of `limit` tries, none used.
    pub fn new(limit: u32) -> (a: Attempts)
        ensures
            a.used() == 0,
            a.limit() == limit,
    {
        Attempts { used: 0, limit }
    }

    /// Takes one try if any is left; reports whether one was taken.
    pub fn next(&mut self) -> (r: bool)
        ensures
            r == (old(self).used() < old(self).limit()),
            final(self).limit() == old(self).limit(),
            final(self).used() == if r { old(self).used() + 1 } else { old(self).used() },
    {
        if self.used < self.limit {
            self.used = self.used + 1;
            true
        } else {
            false
        }
    }
}


/// What startup does next while waiting for the browser's DevTools port.
#[derive(Debug)]
pub enum LaunchAction {
    /// Read the `DevToolsActivePort` file; answer with `PortFile`.
    ReadPortFile,
    /// Ask `http://127.0.0.1:9229/json/list`; answer with `Probed`.
    ProbeTargets,
    /// Wait a quarter second; answer with `Slept`.
    Sleep,
    /// The browser announced this port: use it.
    UsePort(u16),
    /// The browser answers on the fixed port without having written the
    /// file: read its version, write the file (`devtools_port_file_for`) and
    /// use the fixed port.
    WritePortFile,
    /// Every attempt is used up.
    GiveUp,
}

/// What the host reports back while waiting for the browser.
pub enum LaunchEvent {
    /// The file's contents, when it could be read.
    PortFile(Option<String>),
    /// Whether the target list answered with a success status.
    Probed(bool),
    Slept,
}

/// Where the wait for the browser stands.
#[derive(Clone, Copy, PartialEq, Eq, Debug)]
pub enum LaunchStage {
    Reading,
    Probing,
    Sleeping,
    Done,
}

/// The wait for the browser's DevTools port: each attempt reads the port
/// file, then probes the fixed port, then sleeps; at most `LAUNCH_ATTEMPTS`
/// attempts.
pub struct LaunchPoll {
    attempts: Attempts,
    stage: LaunchStage,
}

impl LaunchPoll {
    pub closed spec fn stage(&self) -> LaunchStage {
        self.stage
    }

    /// Attempts started so far.
    pub closed spec fn started(&self) -> nat {
        self.attempts.used()
    }

    pub closed spec fn wf(&self) -> bool {
        self.attempts.limit() == LAUNCH_ATTEMPTS && self.attempts.used() <= LAUNCH_ATTEMPTS
            && (self.stage != LaunchStage::Done ==> self.attempts.used() >= 1)
    }

    /// Starts the first attempt.
    pub fn start() -> (r: (LaunchPoll, LaunchAction))
        ensures
            r.0.wf(),
            r.0.stage() == LaunchStage::Reading,
            r.0.started() == 1,
            r.1 is ReadPortFile,
    {
        let mut attempts = Attempts::new(LAUNCH_ATTEMPTS);
        let _ = attempts.next();
        (LaunchPoll { attempts, stage: LaunchStage::Reading }, LaunchAction::ReadPortFile)
    }

    /// Takes the outcome of the last action and says what to do next.
    pub fn step(&mut self, event: LaunchEvent) -> (a: LaunchAction)
        requires
            old(self).wf(),
            match old(self).stage() {
                LaunchStage::Reading => event is PortFile,
                LaunchStage::Probing => event is Probed,
                LaunchStage::Sleeping => event is Slept,
                LaunchStage::Done => false,
            },
        ensures
            final(self).wf(),
            final(self).stage() == LaunchStage::Done <==> (a is UsePort || a is WritePortFile
                || a is GiveUp),
            match event {
                LaunchEvent::PortFile(content) => match content {
                    Some(c) if devtools_port_of(c@) is Some => a == LaunchAction::UsePort(
                        devtools_port_of(c@)->0,
                    ),
                    _ => a is ProbeTargets && final(self).stage() == LaunchStage::Probing
                        && final(self).started() == old(self).started(),
                },
                LaunchEvent::Probed(ok) => if ok {
                    a is WritePortFile
                } else {
                    a is Sleep && final(self).stage() == LaunchStage::Sleeping
                        && final(self).started() == old(self).started()
                },
                LaunchEvent::Slept => if old(self).started() < LAUNCH_ATTEMPTS {
                    a is ReadPortFile && final(self).stage() == LaunchStage::Reading
                        && final(self).started() == old(self).started() + 1
                } else {
                    a is GiveUp
                },
            },
    {
        match event {
            LaunchEvent::PortFile(content) => {
                let port = match &content {
                    Some(c) => devtools_port(c.as_str()),
                    None => None,
                };
                match port {
                    Some(p) => {
                        self.stage = LaunchStage::Done;
                        LaunchAction::UsePort(p)
                    },
                    None => {
                        self.stage = LaunchStage::Probing;
                        LaunchAction::ProbeTargets
                    },
                }
            },
            LaunchEvent::Probed(ok) => {
                if ok {
                    self.stage = LaunchStage::Done;
                    LaunchAction::WritePortFile
                } else {
                    self.stage = LaunchStage::Sleeping;
                    LaunchAction::Sleep
                }
            },
            LaunchEvent::Slept => {
                if self.attempts.next() {
                    self.stage = LaunchStage::Reading;
                    LaunchAction::ReadPortFile
                } else {
                    self.stage = LaunchStage::Done;
                    LaunchAction::GiveUp
                }
            },
        }
    }
}

} // verus!
