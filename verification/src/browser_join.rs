//! The browser join prototype: tokenized join links with an expiry, and the
//! answer the small HTTP listener gives to each request line.

use vstd::prelude::*;
use crate::metadata::APP_NAME;
use crate::models::{clone_opt_string, opt_string_view};
use crate::net::{IpAddress, ip_address_text, ip_text, v4_multicast, v4_unspecified, v6_multicast, v6_unspecified};
use crate::text::{
    append_decimal, append_hex, append_str, decimal, hex, is_blank, is_whitespace, str_eq, str_is_blank,
};

verus! {

/// Random bytes in a join token.
pub const BROWSER_JOIN_TOKEN_BYTES: usize = 18;
/// How long a join link stays valid, in seconds.
pub const BROWSER_JOIN_TOKEN_TTL_SECS: u64 = 900;

/// What the listener reports about itself.
#[derive(Debug, Clone, PartialEq, Eq)]
pub struct BrowserJoinSnapshot {
    pub active: bool,
    pub bind_addr: Option<String>,
    pub join_url: Option<String>,
    pub token_expires_at_unix_ms: Option<u64>,
    pub requests_served: u64,
    pub last_request_path: Option<String>,
    pub last_request_at_unix_ms: Option<u64>,
    pub last_error: Option<String>,
}

impl Default for BrowserJoinSnapshot {
    fn default() -> (r: Self)
        ensures
            !r.active && r.bind_addr is None && r.join_url is None && r.token_expires_at_unix_ms is None
                && r.requests_served == 0 && r.last_request_path is None && r.last_request_at_unix_ms is None
                && r.last_error is None,
    {
        BrowserJoinSnapshot {
            active: false,
            bind_addr: None,
            join_url: None,
            token_expires_at_unix_ms: None,
            requests_served: 0,
            last_request_path: None,
            last_request_at_unix_ms: None,
            last_error: None,
        }
    }
}

/// A join link handed to a guest.
#[derive(Debug, Clone, PartialEq, Eq)]
pub struct GeneratedJoinLink {
    pub url: String,
    pub expires_at_unix_ms: u64,
}

/// What the listener knows: its snapshot and the token it accepts.
#[derive(Debug, Clone, PartialEq, Eq)]
pub struct BrowserJoinState {
    pub snapshot: BrowserJoinSnapshot,
    pub current_token: Option<String>,
}

/// Two lower-case hexadecimal digits.
pub open spec fn byte_hex(b: u8) -> Seq<char> {
    if b < 16 { seq!['0'] + hex(b as nat) } else { hex(b as nat) }
}

pub open spec fn bytes_hex(bytes: Seq<u8>) -> Seq<char>
    decreases bytes.len(),
{
    if bytes.len() == 0 {
        Seq::empty()
    } else {
        bytes_hex(bytes.drop_last()) + byte_hex(bytes.last())
    }
}

/// The token text for random bytes: each byte as two hexadecimal digits.
pub fn join_token_from_bytes(bytes: &[u8]) -> (r: String)
    ensures
        r@ == bytes_hex(bytes@),
{
    let mut out = String::new();
    let mut i: usize = 0;
    while i < bytes.len()
        invariant
            i <= bytes@.len(),
            out@ == bytes_hex(bytes@.subrange(0, i as int)),
        decreases bytes@.len() - i,
    {
        if bytes[i] < 16 {
            append_str(&mut out, "0");
            proof {
                reveal_strlit("0");
            }
        }
        append_hex(&mut out, bytes[i] as u64);
        proof {
            assert(bytes@.subrange(0, i + 1).drop_last() =~= bytes@.subrange(0, i as int));
        }
        i = i + 1;
        assert(out@ =~= bytes_hex(bytes@.subrange(0, i as int)));
    }
    assert(bytes@.subrange(0, bytes@.len() as int) =~= bytes@);
    out
}

pub open spec fn host_candidate(a: IpAddress) -> bool {
    match a {
        IpAddress::V4(o) => !(o@[0] == 127 || v4_unspecified(o) || v4_multicast(o)),
        IpAddress::V6(s) => !(
            (s@[0] == 0 && s@[1] == 0 && s@[2] == 0 && s@[3] == 0 && s@[4] == 0 && s@[5] == 0
                && s@[6] == 0 && s@[7] == 1) || v6_unspecified(s) || v6_multicast(s)),
    }
}

pub open spec fn host_override(a: IpAddress) -> bool {
    match a {
        IpAddress::V4(o) => !(v4_unspecified(o) || v4_multicast(o)),
        IpAddress::V6(s) => !(v6_unspecified(s) || v6_multicast(s)),
    }
}

/// Whether a detected local address may be put in a join link: not
/// loopback, unspecified or multicast.
pub fn is_browser_join_host_candidate(address: IpAddress) -> (r: bool)
    ensures
        r == host_candidate(address),
{
    match address {
        IpAddress::V4(o) => !(o[0] == 127 || (o[0] == 0 && o[1] == 0 && o[2] == 0 && o[3] == 0) || (224 <= o[0]
            && o[0] <= 239)),
        IpAddress::V6(s) => {
            let zero_prefix = s[0] == 0 && s[1] == 0 && s[2] == 0 && s[3] == 0 && s[4] == 0 && s[5] == 0
                && s[6] == 0;
            !((zero_prefix && s[7] == 1) || (zero_prefix && s[7] == 0) || s[0] >= 0xff00)
        },
    }
}

/// Whether an address the caller asked for may be put in a join link: not
/// unspecified or multicast (loopback is allowed).
pub fn is_browser_join_host_override(address: IpAddress) -> (r: bool)
    ensures
        r == host_override(address),
{
    match address {
        IpAddress::V4(o) => !((o[0] == 0 && o[1] == 0 && o[2] == 0 && o[3] == 0) || (224 <= o[0] && o[0] <= 239)),
        IpAddress::V6(s) => !((s[0] == 0 && s[1] == 0 && s[2] == 0 && s[3] == 0 && s[4] == 0 && s[5] == 0 && s[6]
            == 0 && s[7] == 0) || s[0] >= 0xff00),
    }
}

/// The host a join link names: the requested one where it may be used,
/// else the detected local address, else the listener's own address.
pub open spec fn join_host_spec(preferred: Option<IpAddress>, detected: Option<IpAddress>, bind_ip: IpAddress) -> IpAddress {
    match preferred {
        Some(p) if host_override(p) => p,
        _ => match detected {
            Some(d) => d,
            None => bind_ip,
        },
    }
}

pub fn join_host(preferred: Option<IpAddress>, detected: Option<IpAddress>, bind_ip: IpAddress) -> (r: IpAddress)
    ensures
        r == join_host_spec(preferred, detected, bind_ip),
{
    match preferred {
        Some(p) => {
            if is_browser_join_host_override(p) {
                return p;
            }
        },
        None => {},
    }
    match detected {
        Some(d) => d,
        None => bind_ip,
    }
}

pub open spec fn join_url_text(host: IpAddress, port: u16, token: Seq<char>) -> Seq<char> {
    "http://"@ + ip_text(host) + ":"@ + decimal(port as nat) + "/join/"@ + token
}

/// `http://host:port/join/token`.
pub fn join_url(host: &IpAddress, port: u16, token: &str) -> (r: String)
    ensures
        r@ == join_url_text(*host, port, token@),
{
    let mut out = String::new();
    append_str(&mut out, "http://");
    let host_text = ip_address_text(host);
    append_str(&mut out, host_text.as_str());
    append_str(&mut out, ":");
    append_decimal(&mut out, port as u64);
    append_str(&mut out, "/join/");
    append_str(&mut out, token);
    assert(out@ =~= join_url_text(*host, port, token@));
    out
}

/// When a link made at `now_unix_ms` stops being accepted.
pub fn token_expiry(now_unix_ms: u64) -> (r: u64)
    ensures
        r == (if now_unix_ms + BROWSER_JOIN_TOKEN_TTL_SECS * 1000 <= u64::MAX {
            now_unix_ms + BROWSER_JOIN_TOKEN_TTL_SECS * 1000
        } else {
            u64::MAX as int
        }),
{
    now_unix_ms.saturating_add(BROWSER_JOIN_TOKEN_TTL_SECS * 1000)
}

/// Leading whitespace removed.
pub open spec fn skip_ws(s: Seq<char>) -> Seq<char>
    decreases s.len(),
{
    if s.len() > 0 && is_whitespace(s[0]) {
        skip_ws(s.drop_first())
    } else {
        s
    }
}

/// The characters before the first whitespace.
pub open spec fn take_word(s: Seq<char>) -> Seq<char>
    decreases s.len(),
{
    if s.len() > 0 && !is_whitespace(s[0]) {
        seq![s[0]] + take_word(s.drop_first())
    } else {
        Seq::empty()
    }
}

/// The first whitespace-separated word, empty where there is none.
pub open spec fn first_word(s: Seq<char>) -> Seq<char> {
    take_word(skip_ws(s))
}

/// What follows the first word.
pub open spec fn after_first_word(s: Seq<char>) -> Seq<char> {
    let t = skip_ws(s);
    t.subrange(take_word(t).len() as int, t.len() as int)
}

/// Method and path of a request line: its first two words, the method
/// empty and the path `/` where they are missing.
pub open spec fn request_parts(line: Seq<char>) -> (Seq<char>, Seq<char>) {
    let second = first_word(after_first_word(line));
    (first_word(line), if second.len() == 0 { "/"@ } else { second })
}

proof fn lemma_take_word_len(s: Seq<char>)
    ensures
        take_word(s).len() <= s.len(),
        forall|k: int| 0 <= k < take_word(s).len() ==> take_word(s)[k] == s[k] && !is_whitespace(s[k]),
        take_word(s).len() < s.len() ==> is_whitespace(s[take_word(s).len() as int]),
    decreases s.len(),
{
    if s.len() > 0 && !is_whitespace(s[0]) {
        lemma_take_word_len(s.drop_first());
        let t = take_word(s.drop_first());
        assert forall|k: int| 0 <= k < take_word(s).len() implies take_word(s)[k] == s[k] && !is_whitespace(s[k]) by {
            if k > 0 {
                assert(take_word(s)[k] == t[k - 1]);
                assert(s.drop_first()[k - 1] == s[k]);
            }
        }
        if take_word(s).len() < s.len() {
            assert(s.drop_first()[t.len() as int] == s[take_word(s).len() as int]);
        }
    }
}

/// Skips whitespace from `i`; returns the first index at or after `i` that
/// is not whitespace, or the length.
fn skip_ws_from(line: &str, i: usize) -> (r: usize)
    requires
        i <= line@.len(),
    ensures
        i <= r <= line@.len(),
        skip_ws(line@.subrange(i as int, line@.len() as int)) == line@.subrange(r as int, line@.len() as int),
{
    let n = line.unicode_len();
    let mut j = i;
    while j < n && char_is_space(line.get_char(j))
        invariant
            i <= j <= n,
            n == line@.len(),
            skip_ws(line@.subrange(i as int, n as int)) == skip_ws(line@.subrange(j as int, n as int)),
        decreases n - j,
    {
        assert(line@.subrange(j as int, n as int).drop_first() =~= line@.subrange(j + 1, n as int));
        j = j + 1;
    }
    if j < n {
        assert(!is_whitespace(line@.subrange(j as int, n as int)[0]));
    }
    j
}

fn char_is_space(c: char) -> (r: bool)
    ensures
        r == is_whitespace(c),
{
    crate::text::char_is_whitespace(c)
}

/// Reads a word from `i`; returns the index after it.
fn word_end(line: &str, i: usize) -> (r: usize)
    requires
        i <= line@.len(),
    ensures
        i <= r <= line@.len(),
        take_word(line@.subrange(i as int, line@.len() as int)) == line@.subrange(i as int, r as int),
{
    let n = line.unicode_len();
    let mut j = i;
    while j < n && !char_is_space(line.get_char(j))
        invariant
            i <= j <= n,
            n == line@.len(),
            take_word(line@.subrange(i as int, n as int)) == line@.subrange(i as int, j as int) + take_word(
                line@.subrange(j as int, n as int),
            ),
        decreases n - j,
    {
        assert(line@.subrange(j as int, n as int).drop_first() =~= line@.subrange(j + 1, n as int));
        assert(line@.subrange(i as int, j + 1) =~= line@.subrange(i as int, j as int) + seq![line@[j as int]]);
        j = j + 1;
    }
    if j < n {
        assert(is_whitespace(line@.subrange(j as int, n as int)[0]));
    }
    assert(take_word(line@.subrange(j as int, n as int)) =~= Seq::<char>::empty());
    assert(line@.subrange(i as int, j as int) + Seq::<char>::empty() =~= line@.subrange(i as int, j as int));
    j
}

/// The method and path of an HTTP request line.
pub fn parse_request_line(line: &str) -> (r: (String, String))
    ensures
        (r.0@, r.1@) == request_parts(line@),
{
    let n = line.unicode_len();
    let a = skip_ws_from(line, 0);
    let b = word_end(line, a);
    let c = skip_ws_from(line, b);
    let d = word_end(line, c);
    proof {
        let s = line@;
        assert(s.subrange(0, n as int) =~= s);
        let t = skip_ws(s);
        assert(t == s.subrange(a as int, n as int));
        assert(take_word(t) == s.subrange(a as int, b as int));
        assert(after_first_word(s) =~= s.subrange(b as int, n as int));
        assert(first_word(after_first_word(s)) == s.subrange(c as int, d as int));
        reveal_strlit("/");
    }
    let method = line.substring_char(a, b).to_owned();
    let path = if d == c {
        "/".to_owned()
    } else {
        line.substring_char(c, d).to_owned()
    };
    (method, path)
}

/// The text after the last `/`, or the whole text where there is none.
pub open spec fn last_segment(s: Seq<char>) -> Seq<char>
    decreases s.len(),
{
    if s.len() == 0 {
        s
    } else if s.last() == '/' {
        Seq::empty()
    } else if exists|k: int| 0 <= k < s.len() - 1 && s[k] == '/' {
        last_segment(s.drop_last()).push(s.last())
    } else {
        s
    }
}

proof fn lemma_last_segment(s: Seq<char>, i: int)
    requires
        0 <= i <= s.len(),
        forall|j: int| i <= j < s.len() ==> s[j] != '/',
        i == 0 || s[i - 1] == '/',
    ensures
        last_segment(s) == s.subrange(i, s.len() as int),
    decreases s.len(),
{
    if s.len() == 0 {
    } else if s.last() == '/' {
        assert(i == s.len());
    } else if i == s.len() {
        assert(s.last() == '/');
    } else if exists|k: int| 0 <= k < s.len() - 1 && s[k] == '/' {
        assert(i > 0);
        lemma_last_segment(s.drop_last(), i);
        assert(s.drop_last().subrange(i, s.len() - 1).push(s.last()) =~= s.subrange(i, s.len() as int));
    } else {
        if i > 0 {
            assert(s[i - 1] == '/');
            assert(false);
        }
        assert(s.subrange(0, s.len() as int) =~= s);
    }
}

fn path_token(path: &str) -> (r: &str)
    ensures
        r@ == last_segment(path@),
{
    let n = path.unicode_len();
    let mut i = n;
    while i > 0 && path.get_char(i - 1) != '/'
        invariant
            i <= n,
            n == path@.len(),
            forall|j: int| i <= j < n ==> path@[j] != '/',
        decreases i,
    {
        i = i - 1;
    }
    proof {
        lemma_last_segment(path@, i as int);
    }
    path.substring_char(i, n)
}

/// Whether a request for `path` carries the current token before it expires.
pub open spec fn token_valid(token: Option<Seq<char>>, path: Seq<char>, expires: Option<u64>, now_unix_ms: u64) -> bool {
    &&& token is Some
    &&& token->0 == last_segment(path)
    &&& expires is Some
    &&& expires->0 >= now_unix_ms
}

/// Counts a request and reports the token in force, whether the request
/// carries it in time, and when it expires.
pub fn note_request(state: &mut BrowserJoinState, path: &str, now_unix_ms: u64) -> (r: (Option<String>, bool, Option<u64>))
    ensures
        opt_string_view(r.0) == opt_string_view(old(state).current_token),
        r.1 == token_valid(opt_string_view(old(state).current_token), path@, old(state).snapshot.token_expires_at_unix_ms, now_unix_ms),
        r.2 == old(state).snapshot.token_expires_at_unix_ms,
        final(state).current_token == old(state).current_token,
        final(state).snapshot.requests_served == (if old(state).snapshot.requests_served < u64::MAX {
            old(state).snapshot.requests_served + 1
        } else {
            u64::MAX as int
        }),
        opt_string_view(final(state).snapshot.last_request_path) == Some(path@),
        final(state).snapshot.last_request_at_unix_ms == Some(now_unix_ms),
        final(state).snapshot == (BrowserJoinSnapshot {
            requests_served: final(state).snapshot.requests_served,
            last_request_path: final(state).snapshot.last_request_path,
            last_request_at_unix_ms: final(state).snapshot.last_request_at_unix_ms,
            ..old(state).snapshot
        }),
{
    state.snapshot.requests_served = state.snapshot.requests_served.saturating_add(1);
    state.snapshot.last_request_path = Some(path.to_owned());
    state.snapshot.last_request_at_unix_ms = Some(now_unix_ms);
    let token = clone_opt_string(&state.current_token);
    let carried = path_token(path);
    let matches = match &state.current_token {
        Some(t) => str_eq(t.as_str(), carried),
        None => false,
    };
    let in_time = match state.snapshot.token_expires_at_unix_ms {
        Some(expires) => expires >= now_unix_ms,
        None => false,
    };
    (token, matches && in_time, state.snapshot.token_expires_at_unix_ms)
}

/// Installs a freshly generated link and its token.
pub fn install_link(state: &mut BrowserJoinState, token: String, url: String, expires_at_unix_ms: u64)
    ensures
        final(state).current_token == Some(token),
        final(state).snapshot == (BrowserJoinSnapshot {
            join_url: Some(url),
            token_expires_at_unix_ms: Some(expires_at_unix_ms),
            last_error: None,
            ..old(state).snapshot
        }),
{
    state.current_token = Some(token);
    state.snapshot.join_url = Some(url);
    state.snapshot.token_expires_at_unix_ms = Some(expires_at_unix_ms);
    state.snapshot.last_error = None;
}

/// Records that the listener is accepting on `bind_addr`.
pub fn mark_listening(state: &mut BrowserJoinState, bind_addr: String)
    ensures
        final(state).current_token == old(state).current_token,
        final(state).snapshot == (BrowserJoinSnapshot {
            active: true,
            bind_addr: Some(bind_addr),
            last_error: None,
            ..old(state).snapshot
        }),
{
    state.snapshot.active = true;
    state.snapshot.bind_addr = Some(bind_addr);
    state.snapshot.last_error = None;
}

/// Records that the listener was stopped: no link is valid any more.
pub fn mark_stopped(state: &mut BrowserJoinState)
    ensures
        final(state).current_token is None,
        final(state).snapshot == (BrowserJoinSnapshot {
            active: false,
            join_url: None,
            token_expires_at_unix_ms: None,
            ..old(state).snapshot
        }),
{
    state.snapshot.active = false;
    state.snapshot.join_url = None;
    state.snapshot.token_expires_at_unix_ms = None;
    state.current_token = None;
}

/// How the listener answers a request.
#[derive(Debug, Clone, Copy, PartialEq, Eq, Structural)]
pub enum JoinRoute {
    /// A blank request line: nothing is written back.
    Blank,
    MethodNotAllowed,
    Home,
    Join,
    Denied,
    Api { valid_token: bool },
    NotFound,
}

pub open spec fn join_route_spec(line: Seq<char>, valid_token: bool) -> JoinRoute {
    let (method, path) = request_parts(line);
    if is_blank(line) {
        JoinRoute::Blank
    } else if method != "GET"@ {
        JoinRoute::MethodNotAllowed
    } else if path == "/"@ {
        JoinRoute::Home
    } else if "/join/"@.is_prefix_of(path) {
        if valid_token { JoinRoute::Join } else { JoinRoute::Denied }
    } else if "/api/join/"@.is_prefix_of(path) {
        JoinRoute::Api { valid_token }
    } else {
        JoinRoute::NotFound
    }
}

fn has_prefix(s: &str, prefix: &str) -> (r: bool)
    ensures
        r == prefix@.is_prefix_of(s@),
{
    let n = s.unicode_len();
    let m = prefix.unicode_len();
    if m > n {
        return false;
    }
    let mut i: usize = 0;
    while i < m
        invariant
            i <= m <= n,
            n == s@.len(),
            m == prefix@.len(),
            forall|j: int| 0 <= j < i ==> prefix@[j] == s@[j],
        decreases m - i,
    {
        if s.get_char(i) != prefix.get_char(i) {
            return false;
        }
        i = i + 1;
    }
    assert(prefix@ =~= s@.subrange(0, m as int));
    true
}

/// The route for a request line, given whether its path carries a valid token.
pub fn join_route(request_line: &str, valid_token: bool) -> (r: JoinRoute)
    ensures
        r == join_route_spec(request_line@, valid_token),
{
    proof {
        reveal_strlit("GET");
        reveal_strlit("/");
        reveal_strlit("/join/");
        reveal_strlit("/api/join/");
    }
    if str_is_blank(request_line) {
        return JoinRoute::Blank;
    }
    let (method, path) = parse_request_line(request_line);
    if !str_eq(method.as_str(), "GET") {
        JoinRoute::MethodNotAllowed
    } else if str_eq(path.as_str(), "/") {
        JoinRoute::Home
    } else if has_prefix(path.as_str(), "/join/") {
        if valid_token { JoinRoute::Join } else { JoinRoute::Denied }
    } else if has_prefix(path.as_str(), "/api/join/") {
        JoinRoute::Api { valid_token }
    } else {
        JoinRoute::NotFound
    }
}

pub open spec fn route_status_text(route: JoinRoute) -> Seq<char> {
    match route {
        JoinRoute::MethodNotAllowed => "405 Method Not Allowed"@,
        JoinRoute::Home | JoinRoute::Join => "200 OK"@,
        JoinRoute::Denied => "403 Forbidden"@,
        JoinRoute::Api { valid_token } => if valid_token { "200 OK"@ } else { "403 Forbidden"@ },
        JoinRoute::NotFound | JoinRoute::Blank => "404 Not Found"@,
    }
}

/// The status line text for a route.
pub fn route_status(route: JoinRoute) -> (r: &'static str)
    ensures
        r@ == route_status_text(route),
{
    match route {
        JoinRoute::MethodNotAllowed => "405 Method Not Allowed",
        JoinRoute::Home | JoinRoute::Join => "200 OK",
        JoinRoute::Denied => "403 Forbidden",
        JoinRoute::Api { valid_token } => if valid_token { "200 OK" } else { "403 Forbidden" },
        JoinRoute::NotFound | JoinRoute::Blank => "404 Not Found",
    }
}

pub open spec fn route_content_type_text(route: JoinRoute) -> Seq<char> {
    match route {
        JoinRoute::Home | JoinRoute::Join | JoinRoute::Denied => "text/html; charset=utf-8"@,
        JoinRoute::Api { .. } => "application/json; charset=utf-8"@,
        _ => "text/plain; charset=utf-8"@,
    }
}

/// The content type a route answers with.
pub fn route_content_type(route: JoinRoute) -> (r: &'static str)
    ensures
        r@ == route_content_type_text(route),
{
    match route {
        JoinRoute::Home | JoinRoute::Join | JoinRoute::Denied => "text/html; charset=utf-8",
        JoinRoute::Api { .. } => "application/json; charset=utf-8",
        _ => "text/plain; charset=utf-8",
    }
}

pub open spec fn opt_decimal_or(v: Option<u64>, default: Seq<char>) -> Seq<char> {
    match v {
        Some(x) => decimal(x as nat),
        None => default,
    }
}

pub open spec fn home_page_text(token: Option<Seq<char>>, expires: Option<u64>) -> Seq<char> {
    "<!doctype html><html><head><meta charset=\"utf-8\"><title>"@ + APP_NAME@
        + " Browser Join Prototype</title></head><body><h1>"@ + APP_NAME@
        + " Browser Join Prototype</h1><p>This page is an honest prototype boundary for future no-install guest joining.</p><p>Browser audio playback is not implemented in this build.</p><p>Current token: "@
        + (match token { Some(t) => t, None => "not generated"@ }) + "</p><p>Expires: "@
        + opt_decimal_or(expires, "not generated"@) + "</p></body></html>"@
}

pub open spec fn join_page_text(expires: Option<u64>) -> Seq<char> {
    "<!doctype html><html><head><meta charset=\"utf-8\"><title>"@ + APP_NAME@
        + " Guest Join Prototype</title></head><body><h1>"@ + APP_NAME@
        + " Guest Join Prototype</h1><p>This join link is valid and the host-side prototype endpoint is reachable.</p><p>Browser playback has not been implemented yet, so this page does not start audio.</p><p>Token expiry: "@
        + opt_decimal_or(expires, "unknown"@)
        + "</p><p>Future work: signaling, WebRTC transport, AudioWorklet playback, and guest diagnostics export.</p></body></html>"@
}

pub open spec fn denied_page_text() -> Seq<char> {
    "<!doctype html><html><head><meta charset=\"utf-8\"><title>"@ + APP_NAME@
        + " Join Link Rejected</title></head><body><h1>Join Link Rejected</h1><p>The token is missing, invalid, or expired.</p><p>This prototype does not provide browser playback yet.</p></body></html>"@
}

fn append_opt_decimal_or(out: &mut String, v: Option<u64>, default: &str)
    ensures
        final(out)@ == old(out)@ + opt_decimal_or(v, default@),
{
    match v {
        Some(x) => append_decimal(out, x),
        None => append_str(out, default),
    }
}

/// The landing page: the token in force and its expiry.
pub fn prototype_home_page(token: Option<&str>, expires_at_unix_ms: Option<u64>) -> (r: String)
    ensures
        r@ == home_page_text(match token { Some(t) => Some(t@), None => None }, expires_at_unix_ms),
{
    let mut out = String::new();
    append_str(&mut out, "<!doctype html><html><head><meta charset=\"utf-8\"><title>");
    append_str(&mut out, APP_NAME);
    append_str(&mut out, " Browser Join Prototype</title></head><body><h1>");
    append_str(&mut out, APP_NAME);
    append_str(&mut out, " Browser Join Prototype</h1><p>This page is an honest prototype boundary for future no-install guest joining.</p><p>Browser audio playback is not implemented in this build.</p><p>Current token: ");
    match token {
        Some(t) => append_str(&mut out, t),
        None => append_str(&mut out, "not generated"),
    }
    append_str(&mut out, "</p><p>Expires: ");
    append_opt_decimal_or(&mut out, expires_at_unix_ms, "not generated");
    append_str(&mut out, "</p></body></html>");
    assert(out@ =~= home_page_text(match token { Some(t) => Some(t@), None => None }, expires_at_unix_ms));
    out
}

/// The page a valid join link opens.
pub fn prototype_join_page(expires_at_unix_ms: Option<u64>) -> (r: String)
    ensures
        r@ == join_page_text(expires_at_unix_ms),
{
    let mut out = String::new();
    append_str(&mut out, "<!doctype html><html><head><meta charset=\"utf-8\"><title>");
    append_str(&mut out, APP_NAME);
    append_str(&mut out, " Guest Join Prototype</title></head><body><h1>");
    append_str(&mut out, APP_NAME);
    append_str(&mut out, " Guest Join Prototype</h1><p>This join link is valid and the host-side prototype endpoint is reachable.</p><p>Browser playback has not been implemented yet, so this page does not start audio.</p><p>Token expiry: ");
    append_opt_decimal_or(&mut out, expires_at_unix_ms, "unknown");
    append_str(&mut out, "</p><p>Future work: signaling, WebRTC transport, AudioWorklet playback, and guest diagnostics export.</p></body></html>");
    assert(out@ =~= join_page_text(expires_at_unix_ms));
    out
}

/// The page a missing, wrong or expired token gets.
pub fn prototype_denied_page() -> (r: String)
    ensures
        r@ == denied_page_text(),
{
    let mut out = String::new();
    append_str(&mut out, "<!doctype html><html><head><meta charset=\"utf-8\"><title>");
    append_str(&mut out, APP_NAME);
    append_str(&mut out, " Join Link Rejected</title></head><body><h1>Join Link Rejected</h1><p>The token is missing, invalid, or expired.</p><p>This prototype does not provide browser playback yet.</p></body></html>");
    assert(out@ =~= denied_page_text());
    out
}

pub open spec fn route_body_text(route: JoinRoute, token: Option<Seq<char>>, expires: Option<u64>) -> Option<Seq<char>> {
    match route {
        JoinRoute::MethodNotAllowed => Some("Only GET is supported by the browser join prototype.\n"@),
        JoinRoute::Home => Some(home_page_text(token, expires)),
        JoinRoute::Join => Some(join_page_text(expires)),
        JoinRoute::Denied => Some(denied_page_text()),
        JoinRoute::NotFound => Some("Browser join prototype route not found.\n"@),
        JoinRoute::Api { .. } | JoinRoute::Blank => None,
    }
}

/// The body a route answers with; none for a blank request, and none for
/// the JSON status route, whose body is encoded where JSON is written.
pub fn route_body(route: JoinRoute, token: Option<&str>, expires_at_unix_ms: Option<u64>) -> (r: Option<String>)
    ensures
        opt_string_view(r) == route_body_text(
            route,
            match token { Some(t) => Some(t@), None => None },
            expires_at_unix_ms,
        ),
{
    match route {
        JoinRoute::MethodNotAllowed => Some("Only GET is supported by the browser join prototype.\n".to_owned()),
        JoinRoute::Home => Some(prototype_home_page(token, expires_at_unix_ms)),
        JoinRoute::Join => Some(prototype_join_page(expires_at_unix_ms)),
        JoinRoute::Denied => Some(prototype_denied_page()),
        JoinRoute::NotFound => Some("Browser join prototype route not found.\n".to_owned()),
        JoinRoute::Api { .. } | JoinRoute::Blank => None,
    }
}

pub open spec fn response_head_text(status: Seq<char>, content_type: Seq<char>, body_len: nat) -> Seq<char> {
    "HTTP/1.1 "@ + status + "\r\nContent-Type: "@ + content_type + "\r\nContent-Length: "@ + decimal(body_len)
        + "\r\nCache-Control: no-store\r\nConnection: close\r\n\r\n"@
}

/// Status line and headers of a response with a body of `body_len` bytes.
pub fn http_response_head(status: &str, content_type: &str, body_len: usize) -> (r: String)
    ensures
        r@ == response_head_text(status@, content_type@, body_len as nat),
{
    let mut out = String::new();
    append_str(&mut out, "HTTP/1.1 ");
    append_str(&mut out, status);
    append_str(&mut out, "\r\nContent-Type: ");
    append_str(&mut out, content_type);
    append_str(&mut out, "\r\nContent-Length: ");
    append_decimal(&mut out, body_len as u64);
    append_str(&mut out, "\r\nCache-Control: no-store\r\nConnection: close\r\n\r\n");
    assert(out@ =~= response_head_text(status@, content_type@, body_len as nat));
    out
}

} // verus!
