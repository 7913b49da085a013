use vstd::prelude::*;

use crate::text::{pieces, same_text, split_at_char, trim, trimmed};

verus! {

/// The requests seen from one client, as Unix seconds.
#[derive(Debug, Clone)]
pub struct ClientLog {
    pub client: String,
    pub stamps: Vec<u64>,
}

/// Per-client sliding-window rate limiting: at most `max_requests` requests
/// within `window_seconds`.
#[derive(Debug, Clone)]
pub struct RateLimiter {
    pub logs: Vec<ClientLog>,
    pub max_requests: u32,
    pub window_seconds: u64,
}

/// Seconds from `t` to `now`, none for a time after `now`.
pub open spec fn age(now: u64, t: u64) -> int {
    if t <= now {
        now - t
    } else {
        0
    }
}

/// The stamps still inside the window, in order.
pub open spec fn recent(stamps: Seq<u64>, now: u64, window: u64) -> Seq<u64>
    decreases stamps.len(),
{
    if stamps.len() == 0 {
        Seq::empty()
    } else {
        let rest = recent(stamps.drop_last(), now, window);
        if age(now, stamps.last()) < window {
            rest.push(stamps.last())
        } else {
            rest
        }
    }
}

/// Where the log of `client` stands.
pub open spec fn log_index(logs: Seq<ClientLog>, client: Seq<char>) -> Option<int>
    decreases logs.len(),
{
    if logs.len() == 0 {
        None
    } else if logs.last().client@ == client {
        Some(logs.len() - 1)
    } else {
        log_index(logs.drop_last(), client)
    }
}

proof fn lemma_log_index(logs: Seq<ClientLog>, client: Seq<char>)
    ensures
        log_index(logs, client) matches Some(i) ==> 0 <= i < logs.len() && logs[i].client@
            == client,
        log_index(logs, client) is None ==> forall|i: int|
            0 <= i < logs.len() ==> (#[trigger] logs[i]).client@ != client,
    decreases logs.len(),
{
    if logs.len() > 0 {
        lemma_log_index(logs.drop_last(), client);
        if log_index(logs, client) is None {
            assert forall|i: int| 0 <= i < logs.len() implies (#[trigger] logs[i]).client@
                != client by {
                if i < logs.len() - 1 {
                    assert(logs[i] == logs.drop_last()[i]);
                }
            }
        }
    }
}

/// `allowed` is the decision on a request of `client` at `now`, and `after`
/// records it: requests older than the window are forgotten, the request is
/// allowed, and recorded, when fewer than the limit remain.
pub open spec fn decided(
    before: RateLimiter,
    after: RateLimiter,
    client: Seq<char>,
    now: u64,
    allowed: bool,
) -> bool {
    let kept = recent(before.stamps_of(client), now, before.window_seconds);
    &&& allowed == (kept.len() < before.max_requests)
    &&& after.stamps_of(client) == if allowed {
        kept.push(now)
    } else {
        kept
    }
}

impl RateLimiter {
    /// The requests on record for `client`.
    pub open spec fn stamps_of(&self, client: Seq<char>) -> Seq<u64> {
        match log_index(self.logs@, client) {
            Some(i) => self.logs@[i].stamps@,
            None => Seq::empty(),
        }
    }

    pub fn new(max_requests: u32, window_seconds: u64) -> (r: RateLimiter)
        ensures
            r.max_requests == max_requests,
            r.window_seconds == window_seconds,
            forall|c: Seq<char>| #[trigger] r.stamps_of(c) == Seq::<u64>::empty(),
    {
        RateLimiter { logs: Vec::new(), max_requests, window_seconds }
    }

    fn find(&self, client: &str) -> (r: Option<usize>)
        ensures
            r matches Some(i) ==> log_index(self.logs@, client@) == Some(i as int),
            r is None ==> log_index(self.logs@, client@) is None,
    {
        let mut j: usize = self.logs.len();
        assert(self.logs@.subrange(0, j as int) =~= self.logs@);
        while j > 0
            invariant
                j <= self.logs@.len(),
                log_index(self.logs@, client@) == log_index(
                    self.logs@.subrange(0, j as int),
                    client@,
                ),
            decreases j,
        {
            if same_text(self.logs[j - 1].client.as_str(), client) {
                return Some(j - 1);
            }
            assert(self.logs@.subrange(0, j as int).drop_last() =~= self.logs@.subrange(
                0,
                j - 1,
            ));
            j = j - 1;
        }
        None
    }

    /// Decides on one request of `client` at time `now`: requests older than
    /// the window are forgotten; the request is allowed, and recorded, when
    /// fewer than `max_requests` remain.
    pub fn check_rate_limit_at(&mut self, client_ip: &str, now: u64) -> (r: bool)
        ensures
            final(self).max_requests == old(self).max_requests,
            final(self).window_seconds == old(self).window_seconds,
            decided(*old(self), *final(self), client_ip@, now, r),
            forall|c: Seq<char>|
                c != client_ip@ ==> #[trigger] final(self).stamps_of(c) == old(self).stamps_of(c),
    {
        proof {
            lemma_log_index(self.logs@, client_ip@);
        }
        let idx = match self.find(client_ip) {
            Some(i) => i,
            None => {
                let ghost before = self.logs@;
                self.logs.push(ClientLog { client: client_ip.to_string(), stamps: Vec::new() });
                proof {
                    assert(self.logs@.drop_last() =~= before);
                    assert forall|c: Seq<char>| c != client_ip@ implies log_index(self.logs@, c)
                        == log_index(before, c) by {}
                }
                self.logs.len() - 1
            },
        };
        let ghost mid = self.logs@;
        assert(mid.len() >= old(self).logs@.len());
        assert(forall|i: int| 0 <= i < old(self).logs@.len() ==> mid[i] == old(self).logs@[i]);
        assert(forall|c: Seq<char>|
            c != client_ip@ ==> #[trigger] log_index(mid, c) == log_index(old(self).logs@, c));
        assert(mid[idx as int].client@ == client_ip@);
        assert(mid[idx as int].stamps@ == old(self).stamps_of(client_ip@));
        let window = self.window_seconds;
        let old_stamps = &self.logs[idx].stamps;
        let mut kept: Vec<u64> = Vec::new();
        let mut j: usize = 0;
        assert(old_stamps@.subrange(0, 0) =~= Seq::<u64>::empty());
        while j < old_stamps.len()
            invariant
                j <= old_stamps@.len(),
                kept@ == recent(old_stamps@.subrange(0, j as int), now, window),
            decreases old_stamps.len() - j,
        {
            assert(old_stamps@.subrange(0, j + 1).drop_last() =~= old_stamps@.subrange(
                0,
                j as int,
            ));
            let t = old_stamps[j];
            let elapsed = if t <= now {
                now - t
            } else {
                0
            };
            if elapsed < window {
                kept.push(t);
            }
            j = j + 1;
        }
        assert(old_stamps@.subrange(0, j as int) =~= old_stamps@);
        let allowed = kept.len() < self.max_requests as usize;
        if allowed {
            kept.push(now);
        }
        let client = self.logs[idx].client.clone();
        self.logs.set(idx, ClientLog { client, stamps: kept });
        proof {
            lemma_log_index(self.logs@, client_ip@);
            assert forall|c: Seq<char>| c != client_ip@ implies #[trigger] self.stamps_of(c)
                == old(self).stamps_of(c) by {
                lemma_same_index_after_set(mid, self.logs@, idx as int, c);
                lemma_log_index(mid, c);
                lemma_log_index(old(self).logs@, c);
                assert(log_index(mid, c) == log_index(old(self).logs@, c));
            }
            lemma_same_index_after_set(mid, self.logs@, idx as int, client_ip@);
        }
        allowed
    }

    /// Decides on one request of `client` now.
    pub fn check_rate_limit(&mut self, client_ip: &str) -> (r: bool)
        ensures
            exists|now: u64| #[trigger] decided(*old(self), *final(self), client_ip@, now, r),
    {
        let now = unix_seconds();
        self.check_rate_limit_at(client_ip, now)
    }
}

proof fn lemma_same_index_after_set(a: Seq<ClientLog>, b: Seq<ClientLog>, k: int, c: Seq<char>)
    requires
        a.len() == b.len(),
        0 <= k < a.len(),
        a[k].client@ == b[k].client@,
        forall|i: int| 0 <= i < a.len() && i != k ==> a[i] == b[i],
    ensures
        log_index(a, c) == log_index(b, c),
    decreases a.len(),
{
    if a.len() > 0 {
        if k < a.len() - 1 {
            lemma_same_index_after_set(a.drop_last(), b.drop_last(), k, c);
        } else {
            assert(a.drop_last() =~= b.drop_last());
        }
    }
}

/// Relies on `SystemTime::elapsed` from the Unix epoch: the current time as
/// Unix seconds, zero on a clock set before the epoch.
#[verifier::external_body]
pub(crate) fn unix_seconds() -> (r: u64) {
    match std::time::UNIX_EPOCH.elapsed() {
        Ok(d) => d.as_secs(),
        Err(_) => 0,
    }
}

/// The client named first in an `X-Forwarded-For` header, trimmed;
/// `unknown` without a readable header.
pub open spec fn forwarded_client(header: Option<Seq<char>>) -> Seq<char> {
    match header {
        Some(h) => trim(pieces(h, ',')[0]),
        None => "unknown"@,
    }
}

pub fn client_ip_from_forwarded(header: Option<&str>) -> (r: String)
    ensures
        r@ == forwarded_client(
            match header {
                Some(h) => Some(h@),
                None => None,
            },
        ),
{
    match header {
        Some(h) => {
            let parts = split_at_char(h, ',');
            trimmed(parts[0].as_str())
        },
        None => "unknown".to_string(),
    }
}

/// The security headers set on every response, as name and value.
pub open spec fn security_headers_spec() -> Seq<(Seq<char>, Seq<char>)> {
    seq![
        ("X-Content-Type-Options"@, "nosniff"@),
        ("X-Frame-Options"@, "DENY"@),
        ("X-XSS-Protection"@, "1; mode=block"@),
        ("Strict-Transport-Security"@, "max-age=31536000; includeSubDomains"@),
        (
            "Content-Security-Policy"@,
            "default-src 'self'; script-src 'self' 'unsafe-inline'; style-src 'self' 'unsafe-inline'"@,
        ),
    ]
}

pub fn security_headers() -> (r: Vec<(&'static str, &'static str)>)
    ensures
        r@.len() == security_headers_spec().len(),
        forall|i: int|
            0 <= i < r@.len() ==> (#[trigger] r@[i]).0@ == security_headers_spec()[i].0
                && r@[i].1@ == security_headers_spec()[i].1,
{
    let mut v: Vec<(&'static str, &'static str)> = Vec::new();
    v.push(("X-Content-Type-Options", "nosniff"));
    v.push(("X-Frame-Options", "DENY"));
    v.push(("X-XSS-Protection", "1; mode=block"));
    v.push(("Strict-Transport-Security", "max-age=31536000; includeSubDomains"));
    v.push(
        (
            "Content-Security-Policy",
            "default-src 'self'; script-src 'self' 'unsafe-inline'; style-src 'self' 'unsafe-inline'",
        ),
    );
    v
}

} // verus!
