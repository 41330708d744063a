//! Fixed-window rate limiting per client key.
//!
//! Time is a reading of a monotonic clock in nanoseconds, supplied by the
//! caller with each request.
use vstd::prelude::*;

use crate::assoc::{assoc_lookup, assoc_set, lemma_assoc_lookup_skip, lemma_assoc_set_at, lemma_assoc_set_lookup};
use crate::web::json::{entry_lookup, JsonNumber, JsonValue};
use crate::web::models::ProblemDetails;
use crate::text::{chars_eq, str_chars, string_from_chars, split_chars, trim_chars, seq_starts_with, split_seq, trim_seq, views};

verus! {

/// Rate limiting configuration.
#[derive(Debug, Clone, Copy)]
pub struct RateLimitConfig {
    /// Maximum requests per IP per window.
    pub ip_requests_per_minute: u32,
    /// Maximum requests per API key per window.
    pub api_key_requests_per_minute: u32,
    /// Window length in nanoseconds.
    pub window_duration_nanos: u64,
}

impl RateLimitConfig {
    /// 100 requests per IP and 1000 per API key in one-minute windows.
    pub fn default_config() -> (r: Self)
        ensures
            r.ip_requests_per_minute == 100,
            r.api_key_requests_per_minute == 1000,
            r.window_duration_nanos == 60_000_000_000,
    {
        RateLimitConfig {
            ip_requests_per_minute: 100,
            api_key_requests_per_minute: 1000,
            window_duration_nanos: 60_000_000_000,
        }
    }
}

/// Requests counted in the current window of one key.
#[derive(Debug, Clone, Copy)]
pub struct RateLimitEntry {
    pub count: u32,
    pub window_start: u64,
}

/// Time from `start` to `now`, zero when `now` is earlier.
pub open spec fn elapsed(now: u64, start: u64) -> u64 {
    if now >= start {
        (now - start) as u64
    } else {
        0
    }
}

/// The entry that applies to `key` at `now`: its stored entry, or a fresh
/// one, restarted when its window has run out.
pub open spec fn rl_current(es: Seq<(Seq<char>, (u32, u64))>, key: Seq<char>, now: u64, window: u64) -> (
    u32,
    u64,
) {
    let e = match assoc_lookup(es, key) {
        Some(e) => e,
        None => (0u32, now),
    };
    if elapsed(now, e.1) >= window {
        (0u32, now)
    } else {
        e
    }
}

/// One request for `key` at `now`: the entries afterwards and whether it was
/// allowed.
pub open spec fn rl_step(
    es: Seq<(Seq<char>, (u32, u64))>,
    max: u32,
    window: u64,
    key: Seq<char>,
    now: u64,
) -> (Seq<(Seq<char>, (u32, u64))>, bool) {
    let cur = rl_current(es, key, now, window);
    if cur.0 < max {
        (assoc_set(es, key, ((cur.0 + 1) as u32, cur.1)), true)
    } else {
        (assoc_set(es, key, cur), false)
    }
}

/// How many of the requests for `key` at the given times are allowed.
pub open spec fn rl_allowed_count(
    es: Seq<(Seq<char>, (u32, u64))>,
    max: u32,
    window: u64,
    key: Seq<char>,
    times: Seq<u64>,
) -> nat
    decreases times.len(),
{
    if times.len() == 0 {
        0
    } else {
        let (next, ok) = rl_step(es, max, window, key, times[0]);
        (if ok {
            1nat
        } else {
            0nat
        }) + rl_allowed_count(next, max, window, key, times.drop_first())
    }
}

/// In-memory fixed-window rate limiter.
#[derive(Debug)]
pub struct SimpleRateLimiter {
    entries: Vec<(String, RateLimitEntry)>,
    max_requests: u32,
    window_duration: u64,
}

impl SimpleRateLimiter {
    /// The per-key entries as (key, (count, window start)).
    pub closed spec fn entries_view(&self) -> Seq<(Seq<char>, (u32, u64))> {
        self.entries@.map_values(|e: (String, RateLimitEntry)| (e.0@, (e.1.count, e.1.window_start)))
    }

    /// Requests allowed per window.
    pub closed spec fn max(&self) -> u32 {
        self.max_requests
    }

    /// Window length.
    pub closed spec fn window(&self) -> u64 {
        self.window_duration
    }

    /// A limiter with no history.
    pub fn new(max_requests: u32, window_duration: u64) -> (r: Self)
        ensures
            r.entries_view().len() == 0,
            r.max() == max_requests,
            r.window() == window_duration,
    {
        let r = SimpleRateLimiter { entries: Vec::new(), max_requests, window_duration };
        assert(r.entries_view() =~= Seq::<(Seq<char>, (u32, u64))>::empty());
        r
    }

    /// Index of the first entry for `key`, or the number of entries.
    fn find_key(&self, key: &[char]) -> (i: usize)
        ensures
            i <= self.entries_view().len(),
            forall|j: int| 0 <= j < i ==> self.entries_view()[j].0 != key@,
            i < self.entries_view().len() ==> self.entries_view()[i as int].0 == key@,
    {
        let n = self.entries.len();
        let mut i: usize = 0;
        while i < n
            invariant
                n == self.entries@.len(),
                i <= n,
                forall|j: int| 0 <= j < i ==> self.entries_view()[j].0 != key@,
            decreases n - i,
        {
            let kk = str_chars(self.entries[i].0.as_str());
            if chars_eq(kk.as_slice(), key) {
                return i;
            }
            i += 1;
        }
        i
    }

    /// Counts a request for `key` at `now`.  Returns whether it is allowed,
    /// how many more the window admits, and (when refused) the time until
    /// the window ends.
    pub fn check_rate_limit(&mut self, key: &str, now: u64) -> (r: (bool, u32, u64))
        ensures
            final(self).max() == old(self).max(),
            final(self).window() == old(self).window(),
            ({
                let cur = rl_current(old(self).entries_view(), key@, now, old(self).window());
                let (next, ok) = rl_step(
                    old(self).entries_view(),
                    old(self).max(),
                    old(self).window(),
                    key@,
                    now,
                );
                &&& final(self).entries_view() == next
                &&& r.0 == ok
                &&& ok ==> r.1 == old(self).max() - cur.0 - 1 && r.2 == 0
                &&& !ok ==> r.1 == 0 && r.2 == old(self).window() - elapsed(now, cur.1)
            }),
    {
        let k = str_chars(key);
        let ghost es = self.entries_view();
        let n = self.entries.len();
        let i = self.find_key(k.as_slice());
        proof {
            lemma_assoc_lookup_skip(es, i as int, key@);
        }
        let stored: RateLimitEntry = if i < n {
            self.entries[i].1
        } else {
            RateLimitEntry { count: 0, window_start: now }
        };
        let since: u64 = if now >= stored.window_start {
            now - stored.window_start
        } else {
            0
        };
        let cur: RateLimitEntry = if since >= self.window_duration {
            RateLimitEntry { count: 0, window_start: now }
        } else {
            stored
        };
        let cur_since: u64 = if now >= cur.window_start {
            now - cur.window_start
        } else {
            0
        };
        let result: (bool, u32, u64);
        let updated: RateLimitEntry;
        if cur.count < self.max_requests {
            updated = RateLimitEntry { count: cur.count + 1, window_start: cur.window_start };
            result = (true, self.max_requests - updated.count, 0);
        } else {
            updated = cur;
            result = (false, 0, self.window_duration - cur_since);
        }
        if i < n {
            self.entries.set(i, (String::from_str(key), updated));
        } else {
            self.entries.push((String::from_str(key), updated));
        }
        proof {
            lemma_assoc_set_at(es, i as int, key@, (updated.count, updated.window_start));
            if i < n {
                assert(self.entries_view() =~= es.update(
                    i as int,
                    (key@, (updated.count, updated.window_start)),
                ));
            } else {
                assert(self.entries_view() =~= es.push(
                    (key@, (updated.count, updated.window_start)),
                ));
            }
        }
        result
    }
}

/// Within one window (every request time less than a window after its
/// start), a key is allowed no more requests than the window has left.
pub proof fn at_most_max_per_window(
    es: Seq<(Seq<char>, (u32, u64))>,
    max: u32,
    window: u64,
    key: Seq<char>,
    times: Seq<u64>,
    count: u32,
    start: u64,
)
    requires
        assoc_lookup(es, key) == Some((count, start)),
        count <= max,
        forall|i: int| 0 <= i < times.len() ==> elapsed(#[trigger] times[i], start) < window,
    ensures
        rl_allowed_count(es, max, window, key, times) <= max - count,
    decreases times.len(),
{
    if times.len() > 0 {
        let t = times[0];
        assert(elapsed(t, start) < window);
        let (next, ok) = rl_step(es, max, window, key, t);
        let cur = rl_current(es, key, t, window);
        assert(cur == (count, start));
        let c2: u32 = if ok {
            (count + 1) as u32
        } else {
            count
        };
        lemma_assoc_set_lookup(es, key, if ok {
            ((cur.0 + 1) as u32, cur.1)
        } else {
            cur
        }, key);
        assert(assoc_lookup(next, key) == Some((c2, start)));
        assert forall|i: int| 0 <= i < times.drop_first().len() implies elapsed(
            #[trigger] times.drop_first()[i],
            start,
        ) < window by {
            assert(times.drop_first()[i] == times[i + 1]);
        }
        at_most_max_per_window(next, max, window, key, times.drop_first(), c2, start);
    }
}

/// Once a key's window has run out (or the key is new), its next request
/// starts a fresh window at that moment and is allowed, whatever the key
/// was refused before: the key's entry becomes one request in a window
/// starting now.
pub proof fn window_restarts_after_expiry(
    es: Seq<(Seq<char>, (u32, u64))>,
    max: u32,
    window: u64,
    key: Seq<char>,
    now: u64,
)
    requires
        max >= 1,
        assoc_lookup(es, key) matches Some(e) ==> elapsed(now, e.1) >= window,
    ensures
        rl_current(es, key, now, window) == (0u32, now),
        rl_step(es, max, window, key, now).1,
        assoc_lookup(rl_step(es, max, window, key, now).0, key) == Some((1u32, now)),
{
    lemma_assoc_set_lookup(es, key, (1u32, now), key);
}

/// A request for one key leaves every other key's entry unchanged.
pub proof fn other_keys_untouched(
    es: Seq<(Seq<char>, (u32, u64))>,
    max: u32,
    window: u64,
    key: Seq<char>,
    now: u64,
    other: Seq<char>,
)
    requires
        other != key,
    ensures
        assoc_lookup(rl_step(es, max, window, key, now).0, other) == assoc_lookup(es, other),
{
    let cur = rl_current(es, key, now, window);
    if cur.0 < max {
        lemma_assoc_set_lookup(es, key, ((cur.0 + 1) as u32, cur.1), other);
    } else {
        lemma_assoc_set_lookup(es, key, cur, other);
    }
}

/// How a request was authenticated.
#[derive(Debug, Clone, Copy, PartialEq, Eq, Structural)]
pub enum AuthType {
    ApiKey,
    Jwt,
}

/// Which limiter counts a request.
#[derive(Debug, Clone, Copy, PartialEq, Eq, Structural)]
pub enum LimiterKind {
    Ip,
    ApiKey,
}

/// The limiter, key and limit label for a request: API-key users are
/// counted by user id, everyone else by client IP.
pub fn select_limiter(auth: Option<(AuthType, &str)>, client_ip: &str) -> (r: (
    LimiterKind,
    String,
    &'static str,
))
    ensures
        match auth {
            Some((AuthType::ApiKey, id)) => r.0 == LimiterKind::ApiKey && r.1@ == id@ && r.2@
                == "api_key"@,
            _ => r.0 == LimiterKind::Ip && r.1@ == client_ip@ && r.2@ == "ip"@,
        },
{
    proof {
        reveal_strlit("api_key");
        reveal_strlit("ip");
    }
    match auth {
        Some((AuthType::ApiKey, id)) => (LimiterKind::ApiKey, String::from_str(id), "api_key"),
        _ => (LimiterKind::Ip, String::from_str(client_ip), "ip"),
    }
}

/// The client address of a request: the first entry of `X-Forwarded-For`
/// (trimmed), else `X-Real-IP`, else the peer address, else `unknown`.
/// Each argument is the header text when the header is present and
/// readable.
pub fn client_ip(forwarded_for: Option<&str>, real_ip: Option<&str>, peer: Option<&str>) -> (r:
    String)
    ensures
        r@ == match forwarded_for {
            Some(f) => trim_seq(split_seq(f@, ',')[0]),
            None => match real_ip {
                Some(x) => x@,
                None => match peer {
                    Some(p) => p@,
                    None => "unknown"@,
                },
            },
        },
{
    match forwarded_for {
        Some(f) => {
            let c = str_chars(f);
            let parts = split_chars(c.as_slice(), ',');
            let first = trim_chars(parts[0].as_slice());
            assert(views(parts@)[0] == parts@[0]@);
            string_from_chars(first.as_slice())
        },
        None => match real_ip {
            Some(x) => String::from_str(x),
            None => match peer {
                Some(p) => String::from_str(p),
                None => String::from_str("unknown"),
            },
        },
    }
}

/// The problem a refused request is answered with: the `429` problem with
/// the seconds to wait as `retry_after`, the limiter's label as
/// `limit_type` and the client address as `client_ip`, and no other member.
pub open spec fn rate_limit_problem(p: ProblemDetails, secs: u64, label: Seq<char>, ip: Seq<char>) -> bool {
    &&& p.problem_type@ == "https://datatracker.ietf.org/rfc/rfc7231.html#section-6.6.4"@
    &&& p.title@ == "Too Many Requests"@
    &&& p.status == Some(429u16)
    &&& p.detail matches Some(d) && d@ == "Rate limit exceeded"@
    &&& p.instance is None
    &&& entry_lookup(p.extensions@, "retry_after"@) == Some(
        JsonValue::Number(JsonNumber::PosInt(secs)),
    )
    &&& entry_lookup(p.extensions@, "limit_type"@) matches Some(JsonValue::Str(l)) && l@ == label
    &&& entry_lookup(p.extensions@, "client_ip"@) matches Some(JsonValue::Str(c)) && c@ == ip
    &&& forall|k: Seq<char>|
        k != "retry_after"@ && k != "limit_type"@ && k != "client_ip"@ ==> #[trigger] entry_lookup(
            p.extensions@,
            k,
        ) is None
}

/// The rate limiting layer: one limiter for clients counted by address,
/// one for API-key users.
#[derive(Debug)]
pub struct RateLimit {
    config: RateLimitConfig,
    ip_limiter: SimpleRateLimiter,
    api_key_limiter: SimpleRateLimiter,
}

/// The answer of the rate limiting layer to one request.
#[derive(Debug)]
pub enum RateVerdict {
    /// Pass the request on; this many more fit in the window.
    Allowed(u32),
    /// Refuse with `429`: the problem to send and the seconds to wait.
    Limited(ProblemDetails, u64),
}

impl RateLimit {
    pub closed spec fn spec_config(&self) -> RateLimitConfig {
        self.config
    }

    /// The limiter that counts clients by address.
    pub closed spec fn ip_limiter(&self) -> SimpleRateLimiter {
        self.ip_limiter
    }

    /// The limiter that counts API-key users.
    pub closed spec fn api_key_limiter(&self) -> SimpleRateLimiter {
        self.api_key_limiter
    }

    /// Two empty limiters with the configured limits and window.
    pub fn new(config: RateLimitConfig) -> (r: Self)
        ensures
            r.spec_config() == config,
            r.ip_limiter().entries_view().len() == 0,
            r.ip_limiter().max() == config.ip_requests_per_minute,
            r.ip_limiter().window() == config.window_duration_nanos,
            r.api_key_limiter().entries_view().len() == 0,
            r.api_key_limiter().max() == config.api_key_requests_per_minute,
            r.api_key_limiter().window() == config.window_duration_nanos,
    {
        let ip_limiter = SimpleRateLimiter::new(config.ip_requests_per_minute, config.window_duration_nanos);
        let api_key_limiter = SimpleRateLimiter::new(
            config.api_key_requests_per_minute,
            config.window_duration_nanos,
        );
        RateLimit { config, ip_limiter, api_key_limiter }
    }

    /// Counts a request at `now` (nanoseconds) against the limiter that
    /// `select_limiter` picks.  A refused request gets a `429` problem with
    /// the seconds until the window ends as `retry_after`, the limit type
    /// and the client address; only the chosen limiter changes.
    pub fn check(&mut self, auth: Option<(AuthType, &str)>, client_ip: &str, now: u64) -> (r: RateVerdict)
        ensures
            final(self).spec_config() == old(self).spec_config(),
            match auth {
                Some((AuthType::ApiKey, id)) => {
                    let cur = rl_current(old(self).api_key_limiter().entries_view(), id@, now, old(self).api_key_limiter().window());
                    let (next, ok) = rl_step(
                        old(self).api_key_limiter().entries_view(),
                        old(self).api_key_limiter().max(),
                        old(self).api_key_limiter().window(),
                        id@,
                        now,
                    );
                    &&& final(self).api_key_limiter().entries_view() == next
                    &&& final(self).ip_limiter() == old(self).ip_limiter()
                    &&& (r is Allowed) == ok
                    &&& (r matches RateVerdict::Allowed(n) ==> n == old(self).api_key_limiter().max() - cur.0 - 1)
                    &&& (r matches RateVerdict::Limited(p, secs) ==> secs == (old(self).api_key_limiter().window() - elapsed(now, cur.1)) / 1_000_000_000 && rate_limit_problem(p, secs, "api_key"@, client_ip@))
                },
                _ => {
                    let cur = rl_current(old(self).ip_limiter().entries_view(), client_ip@, now, old(self).ip_limiter().window());
                    let (next, ok) = rl_step(
                        old(self).ip_limiter().entries_view(),
                        old(self).ip_limiter().max(),
                        old(self).ip_limiter().window(),
                        client_ip@,
                        now,
                    );
                    &&& final(self).ip_limiter().entries_view() == next
                    &&& final(self).api_key_limiter() == old(self).api_key_limiter()
                    &&& (r is Allowed) == ok
                    &&& (r matches RateVerdict::Allowed(n) ==> n == old(self).ip_limiter().max() - cur.0 - 1)
                    &&& (r matches RateVerdict::Limited(p, secs) ==> secs == (old(self).ip_limiter().window() - elapsed(now, cur.1)) / 1_000_000_000 && rate_limit_problem(p, secs, "ip"@, client_ip@))
                },
            },
    {
        let (kind, key, label) = select_limiter(auth, client_ip);
        let (allowed, remaining, reset) = match kind {
            LimiterKind::ApiKey => self.api_key_limiter.check_rate_limit(key.as_str(), now),
            LimiterKind::Ip => self.ip_limiter.check_rate_limit(key.as_str(), now),
        };
        if allowed {
            RateVerdict::Allowed(remaining)
        } else {
            proof {
                reveal_strlit("retry_after");
                reveal_strlit("limit_type");
                reveal_strlit("client_ip");
                assert("retry_after"@ != "limit_type"@) by {
                    assert("retry_after"@[0] != "limit_type"@[0]);
                }
                assert("retry_after"@ != "client_ip"@) by {
                    assert("retry_after"@[0] != "client_ip"@[0]);
                }
                assert("limit_type"@ != "client_ip"@) by {
                    assert("limit_type"@[0] != "client_ip"@[0]);
                }
            }
            let retry_after = reset / 1_000_000_000;
            let problem = ProblemDetails::rate_limit_error(Some(retry_after)).with_extension(
                "limit_type",
                JsonValue::Str(String::from_str(label)),
            ).with_extension("client_ip", JsonValue::Str(String::from_str(client_ip)));
            RateVerdict::Limited(problem, retry_after)
        }
    }
}

} // verus!
