//! Session state, the caller's resource plan, and the endpoint
//! configuration.  Timestamps are seconds since the Unix epoch; the
//! lifecycle questions are pure timestamp arithmetic with the current
//! time handed in, so they can be answered for any instant.

use vstd::prelude::*;

verus! {

/// Access tokens live for one hour.
pub const ACCESS_LIFETIME_SECONDS: u64 = 3600;

/// Refresh tokens live for thirty days.
pub const REFRESH_LIFETIME_SECONDS: u64 = 2592000;

/// An authentication session: an access/refresh token pair, each with
/// its own issuance timestamp and fixed lifetime.
pub struct Session {
    pub access: String,
    pub refresh: String,
    pub access_issued_at: u64,
    pub refresh_issued_at: u64,
    pub access_lifetime: u64,
    pub refresh_lifetime: u64,
}

/// Relies on chrono::Utc::now: reads the machine clock and reports it
/// as whole seconds since the Unix epoch; the result depends on the
/// clock alone, so nothing is promised of it.
#[verifier::external_body]
fn now_seconds() -> i64 {
    chrono::Utc::now().timestamp()
}

impl Session {
    /// Lifetimes are positive and the expiry instants fit the word.
    pub open spec fn wf(self) -> bool {
        0 < self.access_lifetime && 0 < self.refresh_lifetime && self.access_issued_at
            + self.access_lifetime <= u64::MAX && self.refresh_issued_at + self.refresh_lifetime
            <= u64::MAX
    }

    /// The access token is expired strictly past its full lifetime.
    pub open spec fn access_expired_spec(self, now: int) -> bool {
        now > self.access_issued_at + self.access_lifetime
    }

    /// The refresh token is expired strictly past its full lifetime.
    pub open spec fn refresh_expired_spec(self, now: int) -> bool {
        now > self.refresh_issued_at + self.refresh_lifetime
    }

    /// Renewal is due strictly past the access token's half-life.
    pub open spec fn needs_refresh_spec(self, now: int) -> bool {
        now > self.access_issued_at + self.access_lifetime / 2
    }

    /// A session whose tokens are both stamped `now` and carry the
    /// default lifetimes.
    pub fn new(access: &str, refresh: &str, now: u64) -> (s: Session)
        requires
            now + REFRESH_LIFETIME_SECONDS <= u64::MAX,
        ensures
            s.access@ == access@,
            s.refresh@ == refresh@,
            s.access_issued_at == now,
            s.refresh_issued_at == now,
            s.access_lifetime == ACCESS_LIFETIME_SECONDS,
            s.refresh_lifetime == REFRESH_LIFETIME_SECONDS,
            s.wf(),
    {
        Session {
            access: access.to_owned(),
            refresh: refresh.to_owned(),
            access_issued_at: now,
            refresh_issued_at: now,
            access_lifetime: ACCESS_LIFETIME_SECONDS,
            refresh_lifetime: REFRESH_LIFETIME_SECONDS,
        }
    }

    /// A session stamped with the machine clock, or `None` when the
    /// clock reading cannot serve as a timestamp.
    pub fn new_at_now(access: &str, refresh: &str) -> (r: Option<Session>)
        ensures
            r matches Some(s) ==> s.access@ == access@ && s.refresh@ == refresh@
                && s.access_issued_at == s.refresh_issued_at && s.access_lifetime
                == ACCESS_LIFETIME_SECONDS && s.refresh_lifetime == REFRESH_LIFETIME_SECONDS
                && s.wf(),
    {
        let t = now_seconds();
        if 0 <= t && (t as u64) <= u64::MAX - REFRESH_LIFETIME_SECONDS {
            Some(Session::new(access, refresh, t as u64))
        } else {
            None
        }
    }

    /// Replaces the access token and resets its issuance stamp; the
    /// refresh token and both lifetimes are untouched.
    pub fn set_access(&mut self, access: &str, now: u64)
        requires
            old(self).wf(),
            now + old(self).access_lifetime <= u64::MAX,
        ensures
            final(self).access@ == access@,
            final(self).access_issued_at == now,
            final(self).refresh == old(self).refresh,
            final(self).refresh_issued_at == old(self).refresh_issued_at,
            final(self).access_lifetime == old(self).access_lifetime,
            final(self).refresh_lifetime == old(self).refresh_lifetime,
            final(self).wf(),
    {
        self.access = access.to_owned();
        self.access_issued_at = now;
    }

    /// Replaces the refresh token and resets its issuance stamp; the
    /// access token and both lifetimes are untouched.
    pub fn set_refresh(&mut self, refresh: &str, now: u64)
        requires
            old(self).wf(),
            now + old(self).refresh_lifetime <= u64::MAX,
        ensures
            final(self).refresh@ == refresh@,
            final(self).refresh_issued_at == now,
            final(self).access == old(self).access,
            final(self).access_issued_at == old(self).access_issued_at,
            final(self).access_lifetime == old(self).access_lifetime,
            final(self).refresh_lifetime == old(self).refresh_lifetime,
            final(self).wf(),
    {
        self.refresh = refresh.to_owned();
        self.refresh_issued_at = now;
    }

    /// Whether the access token is expired at `now`.
    pub fn access_expired(&self, now: u64) -> (r: bool)
        requires
            self.wf(),
        ensures
            r == self.access_expired_spec(now as int),
    {
        now > self.access_issued_at + self.access_lifetime
    }

    /// Whether the refresh token is expired at `now`.
    pub fn refresh_expired(&self, now: u64) -> (r: bool)
        requires
            self.wf(),
        ensures
            r == self.refresh_expired_spec(now as int),
    {
        now > self.refresh_issued_at + self.refresh_lifetime
    }

    /// Whether the access token is past its half-life at `now` and so
    /// due for proactive renewal.
    pub fn needs_refresh(&self, now: u64) -> (r: bool)
        requires
            self.wf(),
        ensures
            r == self.needs_refresh_spec(now as int),
    {
        now > self.access_issued_at + self.access_lifetime / 2
    }
}

/// A session is fresh at its own issuance instant: neither token is
/// expired there, and the access token is expired at any instant
/// strictly past its full lifetime.
pub proof fn lemma_fresh_session_unexpired(s: Session, eps: int)
    requires
        s.wf(),
    ensures
        !s.access_expired_spec(s.access_issued_at as int),
        !s.refresh_expired_spec(s.refresh_issued_at as int),
        eps > 0 ==> s.access_expired_spec(s.access_issued_at + s.access_lifetime + eps),
{
}

/// Half-life precedes full life: an expired access token always
/// already needs a refresh, and at the full-lifetime instant the
/// token needs a refresh while not yet being expired.
pub proof fn lemma_needs_refresh_before_expiry(s: Session, now: int)
    requires
        s.wf(),
    ensures
        s.access_expired_spec(now) ==> s.needs_refresh_spec(now),
        s.needs_refresh_spec(s.access_issued_at + s.access_lifetime),
        !s.access_expired_spec(s.access_issued_at + s.access_lifetime),
{
}

/// Remaining resource budget of the caller, one non-negative counter
/// per dimension.
#[derive(Clone, Copy, Debug, PartialEq, Eq, Structural)]
pub struct Plan {
    pub time: u64,
    pub space: u64,
    pub traffic: u64,
    pub tips: u64,
}

/// The resources one successful business call consumed, reported on
/// its response and debited from the plan.
#[derive(Clone, Copy, Debug, PartialEq, Eq, Structural)]
pub struct CostReport {
    pub time: u64,
    pub space: u64,
    pub traffic: u64,
    pub tips: u64,
}

impl Plan {
    /// Whether every counter of the plan covers the report.
    pub open spec fn covers_spec(self, c: CostReport) -> bool {
        c.time <= self.time && c.space <= self.space && c.traffic <= self.traffic && c.tips
            <= self.tips
    }

    /// The plan after debiting the report from every counter.
    pub open spec fn minus_spec(self, c: CostReport) -> Plan {
        Plan {
            time: (self.time - c.time) as u64,
            space: (self.space - c.space) as u64,
            traffic: (self.traffic - c.traffic) as u64,
            tips: (self.tips - c.tips) as u64,
        }
    }

    /// Whether every counter of the plan covers the report.
    pub fn covers(&self, c: &CostReport) -> (r: bool)
        ensures
            r == self.covers_spec(*c),
    {
        c.time <= self.time && c.space <= self.space && c.traffic <= self.traffic && c.tips
            <= self.tips
    }

    /// Debits the report from every counter.
    pub fn apply(&mut self, c: &CostReport)
        requires
            old(self).covers_spec(*c),
        ensures
            *final(self) == old(self).minus_spec(*c),
    {
        self.time = self.time - c.time;
        self.space = self.space - c.space;
        self.traffic = self.traffic - c.traffic;
        self.tips = self.tips - c.tips;
    }
}

/// A cost report is a debit, not a state: applying the same report
/// twice reduces every counter by twice the report.
pub proof fn lemma_apply_cost_twice(p: Plan, c: CostReport)
    requires
        p.covers_spec(c),
        p.minus_spec(c).covers_spec(c),
    ensures
        p.minus_spec(c).minus_spec(c) == (Plan {
            time: (p.time - 2 * c.time) as u64,
            space: (p.space - 2 * c.space) as u64,
            traffic: (p.traffic - 2 * c.traffic) as u64,
            tips: (p.tips - 2 * c.tips) as u64,
        }),
{
}

/// The endpoint configuration: the service address, the stored
/// session if any, and the caller's plan.
pub struct Config {
    pub url: String,
    pub session: Option<Session>,
    pub plan: Plan,
}

impl Config {
    /// A stored session, when present, is well-formed.
    pub open spec fn wf(self) -> bool {
        self.session matches Some(s) ==> s.wf()
    }

    /// The configuration a fresh client starts from: the local
    /// endpoint, no session, and a full default plan.
    pub fn load() -> (c: Config)
        ensures
            c.url@ == "http://localhost:8080"@,
            c.session is None,
            c.plan == (Plan { time: 1000000000, space: 1000000000, traffic: 1000000000, tips: 1000000000 }),
            c.wf(),
    {
        Config {
            url: "http://localhost:8080".to_owned(),
            session: None,
            plan: Plan {
                time: 1000000000,
                space: 1000000000,
                traffic: 1000000000,
                tips: 1000000000,
            },
        }
    }
}

impl Default for Config {
    /// The same configuration that `load` builds.
    fn default() -> (c: Self)
        ensures
            c.url@ == "http://localhost:8080"@,
            c.session is None,
            c.plan == (Plan { time: 1000000000, space: 1000000000, traffic: 1000000000, tips: 1000000000 }),
            c.wf(),
    {
        Config::load()
    }
}

} // verus!
