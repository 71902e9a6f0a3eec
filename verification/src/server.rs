//! The signaling rules of the host: the session token, admission of one client
//! at a time, the rate limit on invalid tokens, the client hello, the heartbeat
//! and what each event of a session asks the host to do.
use std::collections::HashMap;
use std::collections::VecDeque;

use vstd::prelude::*;

use crate::cli::ServeArgs;
use crate::net::IpAddress;
use crate::portal::CaptureInfo;
use crate::protocol::{error_code, is_error, ClientMessage, ServerMessage, PROTOCOL_VERSION};
use crate::text::{contains_text, contains_text_in, decimal, push_char, push_decimal};

verus! {

broadcast use vstd::std_specs::hash::group_hash_axioms;

// ---------------------------------------------------------------------------
// Session token
// ---------------------------------------------------------------------------

/// The number of characters in a session token.
pub const TOKEN_LENGTH: usize = 24;

/// Whether `c` is an ASCII letter or digit.
pub open spec fn is_ascii_alphanumeric(c: char) -> bool {
    ('A' <= c && c <= 'Z') || ('a' <= c && c <= 'z') || ('0' <= c && c <= '9')
}

/// The random-number generator of the `rand` crate that the host draws session
/// tokens from.
#[verifier::external_type_specification]
#[verifier::external_body]
pub struct ExStdRng(rand::rngs::StdRng);

/// Seeds a `rand::rngs::StdRng` from the operating system with
/// `SeedableRng::try_from_os_rng`, which fails instead of panicking where the
/// operating system gives no entropy; that failure comes back as `None`.
/// Whether it succeeds depends on the machine, so the contract states nothing.
#[verifier::external_body]
fn open_generator() -> (g: Option<rand::rngs::StdRng>) {
    <rand::rngs::StdRng as rand::SeedableRng>::try_from_os_rng().ok()
}

/// Draws one byte from `rand::distr::Alphanumeric` with `rng`. The crate picks
/// it uniformly from the 62 bytes of `A-Z`, `a-z` and `0-9`; which one comes is
/// chance, so the contract says only that it is one of them.
#[verifier::external_body]
fn sample_alphanumeric(rng: &mut rand::rngs::StdRng) -> (b: u8)
    ensures
        is_ascii_alphanumeric(b as char),
{
    rand::Rng::sample(rng, rand::distr::Alphanumeric)
}

/// The token whose characters are the given bytes, each taken as the character
/// with that code.
pub open spec fn token_text(bytes: Seq<u8>) -> Seq<char> {
    Seq::new(bytes.len(), |i: int| bytes[i] as char)
}

/// Turns drawn bytes into token text, one character per byte.
pub fn token_from_bytes(bytes: &Vec<u8>) -> (token: String)
    ensures
        token@ == token_text(bytes@),
{
    let mut token = String::new();
    let n = bytes.len();
    let mut i: usize = 0;
    while i < n
        invariant
            n == bytes@.len(),
            i <= n,
            token@ == token_text(bytes@.subrange(0, i as int)),
        decreases n - i,
    {
        push_char(&mut token, bytes[i] as char);
        i = i + 1;
        assert(token@ =~= token_text(bytes@.subrange(0, i as int)));
    }
    assert(bytes@.subrange(0, n as int) =~= bytes@);
    token
}

/// A fresh session token: `TOKEN_LENGTH` random ASCII letters and digits, or
/// `None` where the operating system cannot seed the generator.
pub fn generate_session_token() -> (token: Option<String>)
    ensures
        token matches Some(t) ==> t@.len() == TOKEN_LENGTH && forall|i: int|
            0 <= i < t@.len() ==> is_ascii_alphanumeric(#[trigger] t@[i]),
{
    let mut rng = match open_generator() {
        Some(rng) => rng,
        None => return None,
    };
    let mut bytes: Vec<u8> = Vec::new();
    let mut i: usize = 0;
    while i < TOKEN_LENGTH
        invariant
            i <= TOKEN_LENGTH,
            bytes@.len() == i,
            forall|j: int| 0 <= j < bytes@.len() ==> is_ascii_alphanumeric(#[trigger] bytes@[j] as char),
        decreases TOKEN_LENGTH - i,
    {
        let b = sample_alphanumeric(&mut rng);
        bytes.push(b);
        i = i + 1;
    }
    let token = token_from_bytes(&bytes);
    assert forall|k: int| 0 <= k < token@.len() implies is_ascii_alphanumeric(#[trigger] token@[k]) by {
        assert(token@[k] == bytes@[k] as char);
    }
    Some(token)
}

// ---------------------------------------------------------------------------
// Client hello
// ---------------------------------------------------------------------------

/// What a client announced in its hello.
#[derive(Debug, Clone, PartialEq, Eq)]
pub struct ClientCapabilities {
    pub device: String,
    pub max_width: u32,
    pub max_height: u32,
    pub max_fps: u32,
}

/// The text of the error for a client that speaks another protocol version.
pub open spec fn protocol_mismatch_text() -> Seq<char> {
    "host requires protocol "@ + decimal(PROTOCOL_VERSION as nat)
}

/// What the host answers to the first message of a session, given the session
/// token and whether token validation is disabled (`--no-auth`): a hello with the
/// right token (any token when validation is disabled) and the right protocol
/// yields the client's capabilities; anything else yields one `error` message,
/// checked in this order: `hello_required`, `unauthorized`, `protocol_mismatch`.
pub open spec fn hello_outcome_with(
    message: ClientMessage,
    expected_token: Seq<char>,
    no_auth: bool,
    r: Result<ClientCapabilities, ServerMessage>,
) -> bool {
    match message {
        ClientMessage::ClientHello { protocol, token, device, max_width, max_height, max_fps } => {
            if !no_auth && token@ != expected_token {
                r matches Err(e) && is_error(e, "unauthorized"@, "invalid session token"@)
            } else if protocol != PROTOCOL_VERSION {
                r matches Err(e) && is_error(e, "protocol_mismatch"@, protocol_mismatch_text())
            } else {
                r matches Ok(c) && c.device@ == device@ && c.max_width == max_width && c.max_height
                    == max_height && c.max_fps == max_fps
            }
        },
        _ => r matches Err(e) && is_error(e, "hello_required"@, "first message must be client_hello"@),
    }
}

/// What the host answers to the first message of a session when the session
/// token is checked.
pub open spec fn hello_outcome(
    message: ClientMessage,
    expected_token: Seq<char>,
    r: Result<ClientCapabilities, ServerMessage>,
) -> bool {
    hello_outcome_with(message, expected_token, false, r)
}

/// Checks the first message of a session against the session token.
pub fn validate_client_hello(message: ClientMessage, expected_token: &str) -> (r: Result<
    ClientCapabilities,
    ServerMessage,
>)
    ensures
        hello_outcome(message, expected_token@, r),
{
    check_client_hello(message, expected_token, false)
}

/// Checks the first message of a session; the session token is checked unless
/// `no_auth` disables token validation.
pub fn check_client_hello(message: ClientMessage, expected_token: &str, no_auth: bool) -> (r: Result<
    ClientCapabilities,
    ServerMessage,
>)
    ensures
        hello_outcome_with(message, expected_token@, no_auth, r),
{
    match message {
        ClientMessage::ClientHello { protocol, token, device, max_width, max_height, max_fps } => {
            let expected = String::from_str(expected_token);
            if !no_auth && !(token == expected) {
                return Err(ServerMessage::error("unauthorized", "invalid session token"));
            }
            if protocol != PROTOCOL_VERSION {
                let mut text = String::from_str("host requires protocol ");
                push_decimal(&mut text, PROTOCOL_VERSION as u64);
                return Err(ServerMessage::error("protocol_mismatch", text.as_str()));
            }
            Ok(ClientCapabilities { device, max_width, max_height, max_fps })
        },
        _ => Err(ServerMessage::error("hello_required", "first message must be client_hello")),
    }
}

/// With token validation on, a session is only ever admitted for a hello that
/// carries the session token and this host's protocol version.
pub proof fn accepted_hello_is_authentic(message: ClientMessage, expected_token: Seq<char>, c: ClientCapabilities)
    requires
        hello_outcome(message, expected_token, Ok(c)),
    ensures
        message matches ClientMessage::ClientHello { protocol, token, .. } && token@ == expected_token && protocol
            == PROTOCOL_VERSION,
{
}

/// A hello is accepted exactly when it is a `client_hello` of this host's
/// protocol version carrying the session token, or any token where token
/// validation is disabled; the capabilities then are the ones it announced.
pub proof fn hello_acceptance(
    message: ClientMessage,
    expected_token: Seq<char>,
    no_auth: bool,
    r: Result<ClientCapabilities, ServerMessage>,
)
    requires
        hello_outcome_with(message, expected_token, no_auth, r),
    ensures
        r is Ok <==> (message matches ClientMessage::ClientHello { protocol, token, .. } && protocol == 1 && (no_auth
            || token@ == expected_token)),
        r matches Ok(c) ==> (message matches ClientMessage::ClientHello { device, max_width, max_height, max_fps, .. }
            && c.device@ == device@ && c.max_width == max_width && c.max_height == max_height && c.max_fps
            == max_fps),
        r matches Err(e) ==> error_code(e) is Some,
        !no_auth ==> ((message matches ClientMessage::ClientHello { token, .. } && token@ != expected_token) ==> (
        r matches Err(e) && error_code(e) == Some("unauthorized"@))),
{
}

// ---------------------------------------------------------------------------
// Heartbeat
// ---------------------------------------------------------------------------

/// The number of unanswered pings after which a client counts as gone.
pub const MAX_MISSED_PINGS: u8 = 3;

/// The host's heartbeat: the nonce of the last ping and how many pings in a row
/// went unanswered.
#[derive(Debug)]
pub struct HeartbeatState {
    pub nonce: u64,
    pub missed: u8,
}

impl Default for HeartbeatState {
    fn default() -> (h: Self)
        ensures
            h.nonce == 0,
            h.missed == 0,
    {
        HeartbeatState { nonce: 0, missed: 0 }
    }
}

impl HeartbeatState {
    /// The nonce of the next ping, or `None` once `MAX_MISSED_PINGS` pings in a
    /// row went unanswered. A ping takes the next nonce, wrapping at `u64::MAX`,
    /// and counts as unanswered until a matching pong.
    pub fn next_ping(&mut self) -> (r: Option<u64>)
        ensures
            old(self).missed >= MAX_MISSED_PINGS ==> r is None && *final(self) == *old(self),
            old(self).missed < MAX_MISSED_PINGS ==> {
                &&& final(self).nonce == (if old(self).nonce == u64::MAX { 0 } else { old(self).nonce + 1 })
                &&& final(self).missed == old(self).missed + 1
                &&& r == Some(final(self).nonce)
            },
    {
        if self.missed >= MAX_MISSED_PINGS {
            return None;
        }
        self.nonce = self.nonce.wrapping_add(1);
        self.missed = self.missed + 1;
        Some(self.nonce)
    }

    /// Records a pong: one that carries the nonce of the last ping clears the
    /// count of unanswered pings; any other changes nothing.
    pub fn acknowledge(&mut self, nonce: u64)
        ensures
            final(self).nonce == old(self).nonce,
            final(self).missed == (if nonce == old(self).nonce { 0 } else { old(self).missed }),
    {
        if nonce == self.nonce {
            self.missed = 0;
        }
    }
}

// ---------------------------------------------------------------------------
// Rate limit on invalid tokens
// ---------------------------------------------------------------------------

/// How long an invalid token counts against a peer, in nanoseconds (one minute).
pub const AUTH_WINDOW_NANOS: u64 = 60_000_000_000;

/// How many invalid tokens within the window make a peer wait.
pub const MAX_AUTH_FAILURES: usize = 5;

/// The time from `at` to `now`, zero where `at` lies after `now`.
pub open spec fn elapsed(at: u64, now: u64) -> nat {
    if now >= at {
        (now - at) as nat
    } else {
        0
    }
}

/// Whether a failure at `at` still counts at `now`.
pub open spec fn within_window(at: u64, now: u64) -> bool {
    elapsed(at, now) < AUTH_WINDOW_NANOS
}

/// The failures of `history` that still count at `now`, in their order.
pub open spec fn recent(history: Seq<u64>, now: u64) -> Seq<u64>
    decreases history.len(),
{
    if history.len() == 0 {
        Seq::empty()
    } else {
        let earlier = recent(history.drop_last(), now);
        if within_window(history.last(), now) {
            earlier.push(history.last())
        } else {
            earlier
        }
    }
}

/// The recorded failure times of a peer, empty where it has none.
pub open spec fn failures_of(m: Map<IpAddress, Seq<u64>>, ip: IpAddress) -> Seq<u64> {
    if m.contains_key(ip) {
        m[ip]
    } else {
        Seq::empty()
    }
}

/// The failure record after asking whether `ip` is limited at `now`: the peer's
/// failures that no longer count are dropped.
pub open spec fn after_limit_check(m: Map<IpAddress, Seq<u64>>, ip: IpAddress, now: u64) -> Map<IpAddress, Seq<u64>> {
    m.insert(ip, recent(failures_of(m, ip), now))
}

/// Whether `ip` must wait at `now`: it has `MAX_AUTH_FAILURES` failures that count.
pub open spec fn spec_is_limited(m: Map<IpAddress, Seq<u64>>, ip: IpAddress, now: u64) -> bool {
    recent(failures_of(m, ip), now).len() >= MAX_AUTH_FAILURES
}

/// The failure record after a failure of `ip` at `now`.
pub open spec fn after_failure(m: Map<IpAddress, Seq<u64>>, ip: IpAddress, now: u64) -> Map<IpAddress, Seq<u64>> {
    m.insert(ip, recent(failures_of(m, ip), now).push(now))
}

/// Invalid-token failures per peer address, with the time of each in
/// nanoseconds on the host's monotonic clock.
#[derive(Debug)]
pub struct AuthLimiter {
    v4: HashMap<u32, VecDeque<u64>>,
    v6: HashMap<u128, VecDeque<u64>>,
}

impl View for AuthLimiter {
    type V = Map<IpAddress, Seq<u64>>;

    closed spec fn view(&self) -> Map<IpAddress, Seq<u64>> {
        Map::new(
            |ip: IpAddress|
                match ip {
                    IpAddress::V4(b) => self.v4@.contains_key(b),
                    IpAddress::V6(b) => self.v6@.contains_key(b),
                },
            |ip: IpAddress|
                match ip {
                    IpAddress::V4(b) => self.v4@[b]@,
                    IpAddress::V6(b) => self.v6@[b]@,
                },
        )
    }
}

fn keep_recent(history: &VecDeque<u64>, now: u64) -> (kept: VecDeque<u64>)
    ensures
        kept@ == recent(history@, now),
{
    let mut kept: VecDeque<u64> = VecDeque::new();
    let n = history.len();
    let mut i: usize = 0;
    while i < n
        invariant
            n == history@.len(),
            i <= n,
            kept@ == recent(history@.subrange(0, i as int), now),
        decreases n - i,
    {
        let at = history[i];
        proof {
            assert(history@.subrange(0, i + 1).drop_last() =~= history@.subrange(0, i as int));
        }
        let counts = if now >= at {
            now - at < AUTH_WINDOW_NANOS
        } else {
            true
        };
        if counts {
            kept.push_back(at);
        }
        i = i + 1;
    }
    assert(history@.subrange(0, n as int) =~= history@);
    kept
}

impl Default for AuthLimiter {
    fn default() -> (l: Self)
        ensures
            l@ == Map::<IpAddress, Seq<u64>>::empty(),
    {
        AuthLimiter::new()
    }
}

impl AuthLimiter {
    /// A limiter with no failures recorded.
    pub fn new() -> (l: Self)
        ensures
            l@ == Map::<IpAddress, Seq<u64>>::empty(),
    {
        let l = AuthLimiter { v4: HashMap::new(), v6: HashMap::new() };
        assert(l@ =~= Map::<IpAddress, Seq<u64>>::empty());
        l
    }

    /// Removes the peer's record and returns its failures that still count at `now`.
    fn take_recent(&mut self, ip: IpAddress, now: u64) -> (kept: VecDeque<u64>)
        ensures
            kept@ == recent(failures_of(old(self)@, ip), now),
            final(self)@ == old(self)@.remove(ip),
    {
        match ip {
            IpAddress::V4(b) => {
                let entry = self.v4.remove(&b);
                let kept = match entry {
                    Some(h) => keep_recent(&h, now),
                    None => VecDeque::new(),
                };
                assert(final(self)@ =~= old(self)@.remove(ip));
                kept
            },
            IpAddress::V6(b) => {
                let entry = self.v6.remove(&b);
                let kept = match entry {
                    Some(h) => keep_recent(&h, now),
                    None => VecDeque::new(),
                };
                assert(final(self)@ =~= old(self)@.remove(ip));
                kept
            },
        }
    }

    /// Records `history` as the peer's failures.
    fn put(&mut self, ip: IpAddress, history: VecDeque<u64>)
        ensures
            final(self)@ == old(self)@.insert(ip, history@),
    {
        let ghost h = history@;
        match ip {
            IpAddress::V4(b) => {
                self.v4.insert(b, history);
            },
            IpAddress::V6(b) => {
                self.v6.insert(b, history);
            },
        }
        assert(final(self)@ =~= old(self)@.insert(ip, h));
    }

    /// Whether `ip` has to wait before it may try a token again. Failures older
    /// than the window are forgotten on the way.
    pub fn is_limited(&mut self, ip: IpAddress, now: u64) -> (r: bool)
        ensures
            r == spec_is_limited(old(self)@, ip, now),
            final(self)@ == after_limit_check(old(self)@, ip, now),
    {
        let kept = self.take_recent(ip, now);
        let limited = kept.len() >= MAX_AUTH_FAILURES;
        self.put(ip, kept);
        proof {
            assert(old(self)@.remove(ip).insert(ip, recent(failures_of(old(self)@, ip), now)) =~= after_limit_check(
                old(self)@,
                ip,
                now,
            ));
        }
        limited
    }

    /// Records an invalid token from `ip` at `now`.
    pub fn record_failure(&mut self, ip: IpAddress, now: u64)
        ensures
            final(self)@ == after_failure(old(self)@, ip, now),
    {
        let mut kept = self.take_recent(ip, now);
        kept.push_back(now);
        self.put(ip, kept);
        proof {
            assert(old(self)@.remove(ip).insert(ip, recent(failures_of(old(self)@, ip), now).push(now))
                =~= after_failure(old(self)@, ip, now));
        }
    }
}

/// Dropping the failures that no longer count at a later time `now`, after
/// dropping those that no longer counted at `t`, leaves what counts at `now`.
pub proof fn lemma_recent_twice(h: Seq<u64>, t: u64, now: u64)
    requires
        t <= now,
    ensures
        recent(recent(h, t), now) == recent(h, now),
    decreases h.len(),
{
    if h.len() > 0 {
        lemma_recent_twice(h.drop_last(), t, now);
        let a = h.last();
        if within_window(a, t) {
            assert(recent(h, t).drop_last() =~= recent(h.drop_last(), t));
        }
    }
}

/// The failure record after failures of `ip` at each of `times`, in order.
pub open spec fn after_failures(m: Map<IpAddress, Seq<u64>>, ip: IpAddress, times: Seq<u64>) -> Map<IpAddress, Seq<u64>>
    decreases times.len(),
{
    if times.len() == 0 {
        m
    } else {
        after_failure(after_failures(m, ip, times.drop_last()), ip, times.last())
    }
}

/// Failures of one peer never count against another: after any failures of
/// `ip`, every other peer is limited exactly when it was before.
pub proof fn failures_are_per_peer(
    m: Map<IpAddress, Seq<u64>>,
    ip: IpAddress,
    times: Seq<u64>,
    other: IpAddress,
    now: u64,
)
    requires
        other != ip,
    ensures
        spec_is_limited(after_failures(m, ip, times), other, now) == spec_is_limited(m, other, now),
        failures_of(after_failures(m, ip, times), other) == failures_of(m, other),
    decreases times.len(),
{
    if times.len() > 0 {
        failures_are_per_peer(m, ip, times.drop_last(), other, now);
    }
}

/// Each failure recorded for a peer, at a time no later than `now` and within
/// the window before `now`, still counts at `now`; so `MAX_AUTH_FAILURES` such
/// failures make the peer wait.
pub proof fn failures_within_window_limit(m: Map<IpAddress, Seq<u64>>, ip: IpAddress, times: Seq<u64>, now: u64)
    requires
        forall|i: int| 0 <= i < times.len() ==> #[trigger] times[i] <= now && within_window(times[i], now),
    ensures
        recent(failures_of(after_failures(m, ip, times), ip), now).len() >= times.len(),
        times.len() >= MAX_AUTH_FAILURES ==> spec_is_limited(after_failures(m, ip, times), ip, now),
    decreases times.len(),
{
    if times.len() > 0 {
        let rest = times.drop_last();
        let t = times.last();
        assert forall|i: int| 0 <= i < rest.len() implies #[trigger] rest[i] <= now && within_window(rest[i], now) by {
            assert(rest[i] == times[i]);
        }
        failures_within_window_limit(m, ip, rest, now);
        let before = after_failures(m, ip, rest);
        let h = recent(failures_of(before, ip), t).push(t);
        assert(failures_of(after_failures(m, ip, times), ip) == h);
        assert(times[times.len() - 1] == t);
        lemma_recent_twice(failures_of(before, ip), t, now);
        assert(h.drop_last() =~= recent(failures_of(before, ip), t));
    }
}

/// Whether a failure at a given time still counts at `now`.
pub open spec fn counts_at(now: u64) -> spec_fn(u64) -> bool {
    |t: u64| within_window(t, now)
}

/// The failures of `history` that count at `now` are exactly those within the
/// window before `now`, in their order.
pub proof fn recent_is_the_failures_within_window(history: Seq<u64>, now: u64)
    ensures
        recent(history, now) == history.filter(counts_at(now)),
    decreases history.len(),
{
    reveal_with_fuel(Seq::<u64>::filter, 1);
    if history.len() > 0 {
        recent_is_the_failures_within_window(history.drop_last(), now);
    }
}

/// One call on the limiter for a peer: a failure recorded at a time, or a check
/// made at a time.
#[derive(Debug, Clone, Copy, PartialEq, Eq, Structural)]
pub enum AuthEvent {
    Failure(u64),
    Check(u64),
}

/// The time of a call on the limiter.
pub open spec fn event_time(e: AuthEvent) -> u64 {
    match e {
        AuthEvent::Failure(t) => t,
        AuthEvent::Check(t) => t,
    }
}

/// The failure record after these calls for `ip`, in order.
pub open spec fn after_events(m: Map<IpAddress, Seq<u64>>, ip: IpAddress, events: Seq<AuthEvent>) -> Map<IpAddress, Seq<u64>>
    decreases events.len(),
{
    if events.len() == 0 {
        m
    } else {
        let before = after_events(m, ip, events.drop_last());
        match events.last() {
            AuthEvent::Failure(t) => after_failure(before, ip, t),
            AuthEvent::Check(t) => after_limit_check(before, ip, t),
        }
    }
}

/// The times of the failures among these calls, in order.
pub open spec fn failure_times(events: Seq<AuthEvent>) -> Seq<u64>
    decreases events.len(),
{
    if events.len() == 0 {
        Seq::empty()
    } else {
        let earlier = failure_times(events.drop_last());
        match events.last() {
            AuthEvent::Failure(t) => earlier.push(t),
            AuthEvent::Check(_) => earlier,
        }
    }
}

/// Over any history of failures and checks for a peer, made at times no later
/// than `now`, the failures that count at `now` are exactly those, among the
/// earlier record and all failures of the history, that lie within the window
/// before `now`; the peer is limited at `now` exactly when they are at least
/// `MAX_AUTH_FAILURES`. Checks on the way forget nothing that still counts.
pub proof fn counted_failures_are_the_last_window(
    m: Map<IpAddress, Seq<u64>>,
    ip: IpAddress,
    events: Seq<AuthEvent>,
    now: u64,
)
    requires
        forall|i: int| 0 <= i < events.len() ==> event_time(#[trigger] events[i]) <= now,
    ensures
        recent(failures_of(after_events(m, ip, events), ip), now) == (failures_of(m, ip) + failure_times(
            events,
        )).filter(counts_at(now)),
        spec_is_limited(after_events(m, ip, events), ip, now) == ((failures_of(m, ip) + failure_times(
            events,
        )).filter(counts_at(now)).len() >= MAX_AUTH_FAILURES),
{
    lemma_history_recent(m, ip, events, now);
    recent_is_the_failures_within_window(failures_of(m, ip) + failure_times(events), now);
}

proof fn lemma_history_recent(m: Map<IpAddress, Seq<u64>>, ip: IpAddress, events: Seq<AuthEvent>, now: u64)
    requires
        forall|i: int| 0 <= i < events.len() ==> event_time(#[trigger] events[i]) <= now,
    ensures
        recent(failures_of(after_events(m, ip, events), ip), now) == recent(
            failures_of(m, ip) + failure_times(events),
            now,
        ),
    decreases events.len(),
{
    let all = failures_of(m, ip) + failure_times(events);
    if events.len() == 0 {
        assert(all =~= failures_of(m, ip));
    } else {
        let rest = events.drop_last();
        assert forall|i: int| 0 <= i < rest.len() implies event_time(#[trigger] rest[i]) <= now by {
            assert(rest[i] == events[i]);
        }
        lemma_history_recent(m, ip, rest, now);
        let before = after_events(m, ip, rest);
        let h = failures_of(before, ip);
        let earlier_all = failures_of(m, ip) + failure_times(rest);
        assert(event_time(events[events.len() - 1]) <= now);
        match events.last() {
            AuthEvent::Failure(t) => {
                lemma_recent_twice(h, t, now);
                assert(failures_of(after_events(m, ip, events), ip) == recent(h, t).push(t));
                assert(recent(h, t).push(t).drop_last() =~= recent(h, t));
                assert(all =~= earlier_all.push(t));
                assert(all.drop_last() =~= earlier_all);
            },
            AuthEvent::Check(t) => {
                lemma_recent_twice(h, t, now);
                assert(failures_of(after_events(m, ip, events), ip) == recent(h, t));
                assert(all =~= earlier_all);
            },
        }
    }
}

/// A failure counts for exactly one minute (sixty thousand million
/// nanoseconds) after it, and also when the clock reads an earlier time than
/// the failure's; a peer must wait once five failures count.
pub proof fn window_is_one_minute(at: u64, now: u64, history: Seq<u64>, m: Map<IpAddress, Seq<u64>>, ip: IpAddress)
    ensures
        within_window(at, now) <==> (now < at || now - at < 60_000_000_000),
        spec_is_limited(m, ip, now) <==> recent(failures_of(m, ip), now).len() >= 5,
        after_failure(m, ip, now)[ip] == recent(failures_of(m, ip), now).push(now),
        after_limit_check(m, ip, now)[ip] == recent(failures_of(m, ip), now),
        forall|other: IpAddress| other != ip ==> #[trigger] after_failure(m, ip, now).contains_key(other)
            == m.contains_key(other) && (m.contains_key(other) ==> after_failure(m, ip, now)[other] == m[other]),
        failures_of(m, ip) == (if m.contains_key(ip) { m[ip] } else { Seq::<u64>::empty() }),
{
}

// ---------------------------------------------------------------------------
// Admission and authentication
// ---------------------------------------------------------------------------

/// The state that all sessions of one host share: the session token, whether a
/// client is connected, and the failures of invalid tokens.
#[derive(Debug)]
pub struct ServerState {
    token: String,
    no_auth: bool,
    connected: bool,
    failed_auth: AuthLimiter,
}

impl ServerState {
    /// The session token.
    pub closed spec fn spec_token(&self) -> Seq<char> {
        self.token@
    }

    /// Whether session-token validation is disabled.
    pub closed spec fn spec_no_auth(&self) -> bool {
        self.no_auth
    }

    /// Whether a client is connected.
    pub closed spec fn spec_connected(&self) -> bool {
        self.connected
    }

    /// The invalid-token failures per peer.
    pub closed spec fn failures(&self) -> Map<IpAddress, Seq<u64>> {
        self.failed_auth@
    }

    /// A host with this session token, with token validation disabled where
    /// `no_auth` says so, no client and no failures.
    pub fn new(token: String, no_auth: bool) -> (s: Self)
        ensures
            s.spec_token() == token@,
            s.spec_no_auth() == no_auth,
            !s.spec_connected(),
            s.failures() == Map::<IpAddress, Seq<u64>>::empty(),
    {
        ServerState { token, no_auth, connected: false, failed_auth: AuthLimiter::new() }
    }

    /// The session token.
    pub fn token(&self) -> (t: &str)
        ensures
            t@ == self.spec_token(),
    {
        self.token.as_str()
    }

    /// Whether a client is connected.
    pub fn is_connected(&self) -> (r: bool)
        ensures
            r == self.spec_connected(),
    {
        self.connected
    }

    /// Admits a new connection from `peer` at `now`: a peer with too many recent
    /// invalid tokens is told `rate_limited`; otherwise, while another client is
    /// connected, the peer is told `busy`; otherwise it becomes the connected client.
    pub fn try_connect(&mut self, peer: IpAddress, now: u64) -> (r: Result<(), ServerMessage>)
        ensures
            final(self).spec_token() == old(self).spec_token(),
            final(self).spec_no_auth() == old(self).spec_no_auth(),
            final(self).failures() == after_limit_check(old(self).failures(), peer, now),
            spec_is_limited(old(self).failures(), peer, now) ==> {
                &&& r matches Err(e) && is_error(e, "rate_limited"@, "too many invalid tokens; retry in one minute"@)
                &&& final(self).spec_connected() == old(self).spec_connected()
            },
            !spec_is_limited(old(self).failures(), peer, now) && old(self).spec_connected() ==> {
                &&& r matches Err(e) && is_error(e, "busy"@, "another tablet is already connected"@)
                &&& final(self).spec_connected()
            },
            !spec_is_limited(old(self).failures(), peer, now) && !old(self).spec_connected() ==> {
                &&& r is Ok
                &&& final(self).spec_connected()
            },
    {
        if self.failed_auth.is_limited(peer, now) {
            return Err(ServerMessage::error("rate_limited", "too many invalid tokens; retry in one minute"));
        }
        if self.connected {
            return Err(ServerMessage::error("busy", "another tablet is already connected"));
        }
        self.connected = true;
        Ok(())
    }

    /// Ends the connected client's session.
    pub fn disconnect(&mut self)
        ensures
            !final(self).spec_connected(),
            final(self).spec_token() == old(self).spec_token(),
            final(self).spec_no_auth() == old(self).spec_no_auth(),
            final(self).failures() == old(self).failures(),
    {
        self.connected = false;
    }

    /// Checks the first message of the connected client from `peer` at `now`
    /// against the session token, unless token validation is disabled; an
    /// `unauthorized` answer is recorded as a failure of `peer`, and no other
    /// answer is.
    pub fn authenticate(&mut self, peer: IpAddress, now: u64, first: ClientMessage) -> (r: Result<
        ClientCapabilities,
        ServerMessage,
    >)
        ensures
            hello_outcome_with(first, old(self).spec_token(), old(self).spec_no_auth(), r),
            final(self).spec_token() == old(self).spec_token(),
            final(self).spec_no_auth() == old(self).spec_no_auth(),
            final(self).spec_connected() == old(self).spec_connected(),
            final(self).failures() == (if r matches Err(e) && error_code(e) == Some("unauthorized"@) {
                after_failure(old(self).failures(), peer, now)
            } else {
                old(self).failures()
            }),
    {
        let r = check_client_hello(first, self.token.as_str(), self.no_auth);
        let unauthorized = match &r {
            Err(ServerMessage::Error { code, .. }) => {
                let expected = String::from_str("unauthorized");
                *code == expected
            },
            _ => false,
        };
        if unauthorized {
            self.failed_auth.record_failure(peer, now);
        }
        r
    }
}

// ---------------------------------------------------------------------------
// Session events
// ---------------------------------------------------------------------------

/// What a client message asks the host to do.
#[derive(Debug)]
pub enum ClientAction {
    /// Apply the client's SDP answer.
    ApplyAnswer(String),
    /// Add the client's ICE candidate for this media line.
    AddIceCandidate { index: u32, candidate: String },
    /// Send this message back.
    Reply(ServerMessage),
    /// The client answered the ping with this nonce.
    Acknowledge(u64),
    /// Log the client's statistics.
    LogStats(ClientMessage),
}

/// What the host does with each client message after the hello.
pub open spec fn client_action_for(message: ClientMessage, a: ClientAction) -> bool {
    match message {
        ClientMessage::Answer { sdp } => a matches ClientAction::ApplyAnswer(s) && s@ == sdp@,
        ClientMessage::IceCandidate { candidate, sdp_mline_index, .. } => a matches ClientAction::AddIceCandidate {
            index,
            candidate: c,
        } && index == sdp_mline_index && c@ == candidate@,
        ClientMessage::Ping { nonce } => a matches ClientAction::Reply(ServerMessage::Pong { nonce: n }) && n == nonce,
        ClientMessage::Pong { nonce } => a matches ClientAction::Acknowledge(n) && n == nonce,
        ClientMessage::ClientStats { .. } => a matches ClientAction::LogStats(m) && m == message,
        ClientMessage::ClientHello { .. } => a matches ClientAction::Reply(e) && is_error(
            e,
            "duplicate_hello"@,
            "client_hello is only valid once"@,
        ),
    }
}

/// Decides what a client message after the hello asks for.
pub fn handle_client_message(message: ClientMessage) -> (a: ClientAction)
    ensures
        client_action_for(message, a),
{
    match message {
        ClientMessage::Answer { sdp } => ClientAction::ApplyAnswer(sdp),
        ClientMessage::IceCandidate { candidate, sdp_mline_index, .. } => ClientAction::AddIceCandidate {
            index: sdp_mline_index,
            candidate,
        },
        ClientMessage::Ping { nonce } => ClientAction::Reply(ServerMessage::Pong { nonce }),
        ClientMessage::Pong { nonce } => ClientAction::Acknowledge(nonce),
        ClientMessage::ClientStats { .. } => ClientAction::LogStats(message),
        ClientMessage::ClientHello { .. } => ClientAction::Reply(
            ServerMessage::error("duplicate_hello", "client_hello is only valid once"),
        ),
    }
}

/// Whether a media pipeline error is a failed format negotiation.
pub open spec fn negotiation_failed(details: Seq<char>) -> bool {
    contains_text(details, "not-negotiated"@) || contains_text(details, "not negotiated"@)
}

/// A pipeline error counts as a failed negotiation exactly when its details
/// contain `not-negotiated` or `not negotiated`; so `bus_error_action` rebuilds
/// with the OpenGL bridge only for such details on a pipeline without it, and
/// answers any other details with a `media_pipeline` error.
pub proof fn rebuild_only_on_negotiation_text(details: Seq<char>)
    ensures
        negotiation_failed(details) <==> ((exists|i: int|
            0 <= i && i + "not-negotiated"@.len() <= details.len() && #[trigger] details.subrange(
                i,
                i + "not-negotiated"@.len(),
            ) == "not-negotiated"@) || (exists|i: int|
            0 <= i && i + "not negotiated"@.len() <= details.len() && #[trigger] details.subrange(
                i,
                i + "not negotiated"@.len(),
            ) == "not negotiated"@)),
{
}

/// What the host does about an error from the media pipeline.
#[derive(Debug)]
pub enum BusErrorAction {
    /// Rebuild the pipeline with the OpenGL bridge and go on.
    RebuildWithGl,
    /// Tell the client with this message and end the session.
    Fail(ServerMessage),
}

/// A failed negotiation on a pipeline without the OpenGL bridge is retried with
/// the bridge; any other error ends the session with a `media_pipeline` error
/// that carries the details.
pub fn bus_error_action(details: &str, uses_gl_fallback: bool) -> (a: BusErrorAction)
    ensures
        negotiation_failed(details@) && !uses_gl_fallback ==> a is RebuildWithGl,
        !(negotiation_failed(details@) && !uses_gl_fallback) ==> (a matches BusErrorAction::Fail(e) && is_error(
            e,
            "media_pipeline"@,
            details@,
        )),
{
    let failed = contains_text_in(details, "not-negotiated") || contains_text_in(details, "not negotiated");
    if failed && !uses_gl_fallback {
        BusErrorAction::RebuildWithGl
    } else {
        BusErrorAction::Fail(ServerMessage::error("media_pipeline", details))
    }
}

/// The two messages that open an accepted session: the hello acknowledgement and
/// the stream configuration, for a picture of the capture's size encoded at
/// `encoded` size.
pub fn handshake_messages(config: &ServeArgs, capture: &CaptureInfo, encoded: (u32, u32)) -> (m: (
    ServerMessage,
    ServerMessage,
))
    ensures
        m.0 == (ServerMessage::HelloAck { protocol: PROTOCOL_VERSION }),
        m.1 == (ServerMessage::StreamConfig {
            source_width: capture.size.0,
            source_height: capture.size.1,
            encoded_width: encoded.0,
            encoded_height: encoded.1,
            fps: config.fps,
            bitrate_kbps: config.bitrate_kbps,
        }),
{
    (
        ServerMessage::HelloAck { protocol: PROTOCOL_VERSION },
        ServerMessage::StreamConfig {
            source_width: capture.size.0,
            source_height: capture.size.1,
            encoded_width: encoded.0,
            encoded_height: encoded.1,
            fps: config.fps,
            bitrate_kbps: config.bitrate_kbps,
        },
    )
}

/// What happens on the socket or the timers of an authenticated session.
#[derive(Debug)]
pub enum SessionEvent {
    /// A text frame that holds this client message.
    Text(ClientMessage),
    /// A WebSocket ping with this payload.
    Ping(Vec<u8>),
    /// A WebSocket pong.
    Pong,
    /// A WebSocket close frame.
    Close,
    /// A binary frame.
    Binary,
    /// The socket has no more frames.
    Ended,
    /// The media pipeline has a message for the client.
    Outbound(ServerMessage),
    /// The heartbeat timer fired.
    HeartbeatTick,
}

/// What the host does in answer to a session event.
#[derive(Debug)]
pub enum SessionAction {
    /// Send this message to the client.
    Send(ServerMessage),
    /// Answer a WebSocket ping with a pong that carries this payload.
    SendPong(Vec<u8>),
    /// Apply the client's SDP answer.
    ApplyAnswer(String),
    /// Add the client's ICE candidate for this media line.
    AddIceCandidate { index: u32, candidate: String },
    /// Log the client's statistics.
    LogStats(ClientMessage),
    /// Nothing to do.
    Nothing,
    /// End the session normally.
    Stop,
    /// Send this message, then end the session with an error of this text.
    Fail { reply: ServerMessage, reason: String },
}

/// One authenticated session: its heartbeat.
#[derive(Debug)]
pub struct Session {
    pub heartbeat: HeartbeatState,
}

/// What a session does with a client message after the hello.
pub open spec fn session_action_for_message(message: ClientMessage, a: SessionAction) -> bool {
    match message {
        ClientMessage::Answer { sdp } => a matches SessionAction::ApplyAnswer(s) && s@ == sdp@,
        ClientMessage::IceCandidate { candidate, sdp_mline_index, .. } => a matches SessionAction::AddIceCandidate {
            index,
            candidate: c,
        } && index == sdp_mline_index && c@ == candidate@,
        ClientMessage::Ping { nonce } => a matches SessionAction::Send(ServerMessage::Pong { nonce: n }) && n == nonce,
        ClientMessage::Pong { .. } => a is Nothing,
        ClientMessage::ClientStats { .. } => a matches SessionAction::LogStats(m) && m == message,
        ClientMessage::ClientHello { .. } => a matches SessionAction::Send(e) && is_error(
            e,
            "duplicate_hello"@,
            "client_hello is only valid once"@,
        ),
    }
}

/// No client message ends a session. The host sends something back only for a
/// ping, echoing its nonce in a pong, and for a repeated hello, with a
/// `duplicate_hello` error; an SDP answer and an ICE candidate reach the media
/// pipeline unchanged, and a pong sends nothing.
pub proof fn client_messages_never_end_the_session(m: ClientMessage, a: SessionAction)
    requires
        session_action_for_message(m, a),
    ensures
        !(a is Stop) && !(a is Fail),
        a is Send <==> (m is Ping || m is ClientHello),
        m matches ClientMessage::Ping { nonce } ==> (a matches SessionAction::Send(ServerMessage::Pong { nonce: n })
            && n == nonce),
        m is ClientHello ==> (a matches SessionAction::Send(e) && error_code(e) == Some("duplicate_hello"@)),
        m matches ClientMessage::Answer { sdp } ==> (a matches SessionAction::ApplyAnswer(s) && s@ == sdp@),
        m matches ClientMessage::IceCandidate { candidate, sdp_mline_index, .. } ==> (
        a matches SessionAction::AddIceCandidate { index, candidate: c } && index == sdp_mline_index && c@
            == candidate@),
        m is Pong ==> a is Nothing,
{
}

impl Session {
    /// A session that has sent no ping yet.
    pub fn new() -> (s: Self)
        ensures
            s.heartbeat.nonce == 0,
            s.heartbeat.missed == 0,
    {
        Session { heartbeat: HeartbeatState::default() }
    }

    /// Decides what to do about one event, and keeps the heartbeat: pongs from
    /// the client acknowledge pings, and each heartbeat tick sends the next ping
    /// or, after `MAX_MISSED_PINGS` unanswered ones, ends the session with a
    /// `heartbeat_timeout` error.
    pub fn step(&mut self, event: SessionEvent) -> (a: SessionAction)
        ensures
            match event {
                SessionEvent::Text(m) => {
                    &&& (m matches ClientMessage::Pong { nonce: n } ==> {
                        &&& final(self).heartbeat.nonce == old(self).heartbeat.nonce
                        &&& final(self).heartbeat.missed == (if n == old(self).heartbeat.nonce {
                            0
                        } else {
                            old(self).heartbeat.missed
                        })
                    })
                    &&& (!(m is Pong) ==> final(self).heartbeat == old(self).heartbeat)
                    &&& session_action_for_message(m, a)
                },
                SessionEvent::Ping(data) => a matches SessionAction::SendPong(d) && d == data
                    && final(self).heartbeat == old(self).heartbeat,
                SessionEvent::Pong => a is Nothing && final(self).heartbeat == old(self).heartbeat,
                SessionEvent::Close => a is Stop && final(self).heartbeat == old(self).heartbeat,
                SessionEvent::Ended => a is Stop && final(self).heartbeat == old(self).heartbeat,
                SessionEvent::Binary => (a matches SessionAction::Send(e) && is_error(
                    e,
                    "text_only"@,
                    "binary signaling is not supported"@,
                )) && final(self).heartbeat == old(self).heartbeat,
                SessionEvent::Outbound(m) => a matches SessionAction::Send(n) && n == m
                    && final(self).heartbeat == old(self).heartbeat,
                SessionEvent::HeartbeatTick => {
                    if old(self).heartbeat.missed >= MAX_MISSED_PINGS {
                        &&& a matches SessionAction::Fail { reply, reason } && is_error(
                            reply,
                            "heartbeat_timeout"@,
                            "client stopped responding"@,
                        ) && reason@ == "client heartbeat timed out"@
                        &&& final(self).heartbeat == old(self).heartbeat
                    } else {
                        &&& final(self).heartbeat.nonce == (if old(self).heartbeat.nonce == u64::MAX {
                            0
                        } else {
                            old(self).heartbeat.nonce + 1
                        })
                        &&& final(self).heartbeat.missed == old(self).heartbeat.missed + 1
                        &&& a matches SessionAction::Send(ServerMessage::Ping { nonce }) && nonce
                            == final(self).heartbeat.nonce
                    }
                },
            },
    {
        match event {
            SessionEvent::Text(m) => {
                let c = handle_client_message(m);
                let a = match c {
                    ClientAction::ApplyAnswer(s) => SessionAction::ApplyAnswer(s),
                    ClientAction::AddIceCandidate { index, candidate } => SessionAction::AddIceCandidate {
                        index,
                        candidate,
                    },
                    ClientAction::Reply(r) => SessionAction::Send(r),
                    ClientAction::Acknowledge(nonce) => {
                        self.heartbeat.acknowledge(nonce);
                        SessionAction::Nothing
                    },
                    ClientAction::LogStats(s) => SessionAction::LogStats(s),
                };
                a
            },
            SessionEvent::Ping(data) => SessionAction::SendPong(data),
            SessionEvent::Pong => SessionAction::Nothing,
            SessionEvent::Close => SessionAction::Stop,
            SessionEvent::Ended => SessionAction::Stop,
            SessionEvent::Binary => SessionAction::Send(
                ServerMessage::error("text_only", "binary signaling is not supported"),
            ),
            SessionEvent::Outbound(m) => SessionAction::Send(m),
            SessionEvent::HeartbeatTick => match self.heartbeat.next_ping() {
                Some(nonce) => SessionAction::Send(ServerMessage::Ping { nonce }),
                None => SessionAction::Fail {
                    reply: ServerMessage::error("heartbeat_timeout", "client stopped responding"),
                    reason: String::from_str("client heartbeat timed out"),
                },
            },
        }
    }
}

} // verus!
