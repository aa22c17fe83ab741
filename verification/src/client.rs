//! The session manager and the business operations.  Every operation
//! is split at the transport boundary: a builder turns the client's
//! state into the outbound wire message, and an acceptor turns the
//! decoded response into the caller's result, debiting the cost
//! report on success.  The exchange itself — one POST against the
//! configured endpoint — is the transport's and stands outside this
//! crate.

use vstd::prelude::*;

use crate::codec::{encode, field_or_empty, is_error_spec, WireMessage};
use crate::config::{Config, CostReport, Plan, Session, REFRESH_LIFETIME_SECONDS};
use crate::digits::{dec_of, dec_val, is_dec, parse_u64, u64_to_dec};

verus! {

/// The lifecycle of the stored session at a given instant.
#[derive(Clone, Copy, Debug, PartialEq, Eq, Structural)]
pub enum SessionState {
    /// No session is stored.
    NoSession,
    /// The access token is usable and not yet past its half-life.
    Valid,
    /// The access token is past its half-life and the refresh token
    /// still lives.
    NeedsRefresh,
    /// The refresh token is expired; the whole session is dead.
    Expired,
}

/// What the manager does before a business call.
#[derive(Clone, Copy, Debug, PartialEq, Eq, Structural)]
pub enum SessionAction {
    /// Use the current access token as it is.
    Proceed,
    /// Perform a SessionRefresh exchange with the refresh token.
    Refresh,
    /// Perform a SessionStart exchange; nothing was stored.
    StartNew,
    /// Discard the dead session, report the reset, then perform a
    /// SessionStart exchange.
    ResetAndStart,
}

/// The lifecycle state of a (possibly absent) session at `now`.
pub open spec fn session_state_spec(s: Option<Session>, now: int) -> SessionState {
    match s {
        Option::None => SessionState::NoSession,
        Option::Some(sess) => if sess.refresh_expired_spec(now) {
            SessionState::Expired
        } else if sess.needs_refresh_spec(now) {
            SessionState::NeedsRefresh
        } else {
            SessionState::Valid
        },
    }
}

/// The action the manager takes in each lifecycle state.
pub open spec fn session_action_spec(s: Option<Session>, now: int) -> SessionAction {
    match session_state_spec(s, now) {
        SessionState::NoSession => SessionAction::StartNew,
        SessionState::Valid => SessionAction::Proceed,
        SessionState::NeedsRefresh => SessionAction::Refresh,
        SessionState::Expired => SessionAction::ResetAndStart,
    }
}

/// A refresh exchange is never attempted with an expired refresh
/// token: an expired refresh token always leads to a fresh session
/// start, and whenever a refresh is chosen the refresh token lives.
pub proof fn lemma_no_refresh_after_refresh_expiry(s: Option<Session>, now: int)
    ensures
        (s matches Some(sess) && sess.refresh_expired_spec(now)) ==> session_action_spec(s, now)
            == SessionAction::ResetAndStart,
        session_action_spec(s, now) == SessionAction::Refresh ==> (s matches Some(sess)
            && !sess.refresh_expired_spec(now)),
        s is None ==> session_action_spec(s, now) == SessionAction::StartNew,
{
}

/// An error a business operation surfaces: either the remote answered
/// with the uniform error tag, or its success response could not be
/// honoured.
#[derive(Debug, PartialEq, Eq)]
pub enum ClientError {
    /// The remote explicitly returned `type = "Error"`; the payload is
    /// its human-readable message.
    Protocol(String),
    /// A success response carried no readable cost report.
    BadCostReport,
    /// The reported cost exceeds some counter of the plan.
    PlanExceeded,
}

/// The protocol client: the configuration it works on, with the
/// stored session and the plan.
pub struct Client {
    pub config: Config,
}

impl Client {
    /// The stored session, when present, is well-formed.
    pub open spec fn wf(self) -> bool {
        self.config.wf()
    }

    /// A client over the given configuration.
    pub fn new(config: Config) -> (c: Client)
        ensures
            c.config == config,
    {
        Client { config }
    }

    /// The lifecycle state of the stored session at `now`.
    pub fn session_state(&self, now: u64) -> (s: SessionState)
        requires
            self.wf(),
        ensures
            s == session_state_spec(self.config.session, now as int),
    {
        match &self.config.session {
            None => SessionState::NoSession,
            Some(sess) => {
                if sess.refresh_expired(now) {
                    SessionState::Expired
                } else if sess.needs_refresh(now) {
                    SessionState::NeedsRefresh
                } else {
                    SessionState::Valid
                }
            },
        }
    }

    /// The action to take before a business call at `now`: the
    /// lifecycle check always completes before any business request,
    /// and a business request is never sent in a `NeedsRefresh` or
    /// `Expired` state.
    pub fn session_action(&self, now: u64) -> (a: SessionAction)
        requires
            self.wf(),
        ensures
            a == session_action_spec(self.config.session, now as int),
    {
        match self.session_state(now) {
            SessionState::NoSession => SessionAction::StartNew,
            SessionState::Valid => SessionAction::Proceed,
            SessionState::NeedsRefresh => SessionAction::Refresh,
            SessionState::Expired => SessionAction::ResetAndStart,
        }
    }

    /// Installs the session a successful SessionStart exchange
    /// returned, both tokens stamped `now`; the address and the plan
    /// are untouched.
    pub fn apply_session_start(&mut self, access: &str, refresh: &str, now: u64)
        requires
            now + REFRESH_LIFETIME_SECONDS <= u64::MAX,
        ensures
            final(self).config.session matches Some(s) && s.access@ == access@ && s.refresh@
                == refresh@ && s.access_issued_at == now && s.refresh_issued_at == now,
            final(self).config.url == old(self).config.url,
            final(self).config.plan == old(self).config.plan,
            final(self).wf(),
    {
        self.config.session = Some(Session::new(access, refresh, now));
    }

    /// Replaces the access token with the one a successful
    /// SessionRefresh exchange returned, stamped `now`; the refresh
    /// token, its stamp, the address and the plan are untouched.
    pub fn apply_session_refresh(&mut self, access: &str, now: u64)
        requires
            old(self).wf(),
            old(self).config.session is Some,
            now + old(self).config.session.unwrap().access_lifetime <= u64::MAX,
        ensures
            final(self).config.session is Some,
            ({
                let s = final(self).config.session.unwrap();
                let t = old(self).config.session.unwrap();
                s.access@ == access@ && s.access_issued_at == now && s.refresh == t.refresh
                    && s.refresh_issued_at == t.refresh_issued_at && s.access_lifetime
                    == t.access_lifetime && s.refresh_lifetime == t.refresh_lifetime
            }),
            final(self).config.url == old(self).config.url,
            final(self).config.plan == old(self).config.plan,
            final(self).wf(),
    {
        if let Some(sess) = &mut self.config.session {
            sess.set_access(access, now);
        }
    }

    /// Discards a dead session, so that the next lifecycle check
    /// starts fresh; the address and the plan are untouched.
    pub fn discard_session(&mut self)
        ensures
            final(self).config.session is None,
            final(self).config.url == old(self).config.url,
            final(self).config.plan == old(self).config.plan,
            final(self).wf(),
    {
        self.config.session = None;
    }

    /// The SessionStart request: no credentials, only the tag.
    pub fn auth_session_start(&self) -> (m: WireMessage)
        ensures
            m@ == Map::<Seq<char>, Seq<char>>::empty().insert("type"@, "AuthSessionStart"@),
    {
        encode("AuthSessionStart", WireMessage::empty())
    }

    /// The SessionRefresh request: proves possession of the refresh
    /// token to mint a new access token.
    pub fn auth_session_refresh(&self) -> (m: WireMessage)
        requires
            self.config.session is Some,
        ensures
            m@ == Map::<Seq<char>, Seq<char>>::empty().insert(
                "refresh"@,
                self.config.session.unwrap().refresh@,
            ).insert("type"@, "AuthSessionRefresh"@),
    {
        let mut f = WireMessage::empty();
        f.put("refresh", self.config.session.as_ref().unwrap().refresh.as_str());
        encode("AuthSessionRefresh", f)
    }

    /// The SessionEnd request: carries the access token, and also the
    /// refresh token when the caller asks for full invalidation.
    pub fn auth_session_end(&self, drop_refresh: bool) -> (m: WireMessage)
        requires
            self.config.session is Some,
        ensures
            ({
                let base = Map::<Seq<char>, Seq<char>>::empty().insert(
                    "access"@,
                    self.config.session.unwrap().access@,
                );
                m@ == (if drop_refresh {
                    base.insert("refresh"@, self.config.session.unwrap().refresh@)
                } else {
                    base
                }).insert("type"@, "AuthSessionEnd"@)
            }),
    {
        let sess = self.config.session.as_ref().unwrap();
        let mut f = WireMessage::empty();
        f.put("access", sess.access.as_str());
        if drop_refresh {
            f.put("refresh", sess.refresh.as_str());
        }
        encode("AuthSessionEnd", f)
    }

    /// The SmsSendTo request: asks where to send the confirmation
    /// message; carries both current tokens.
    pub fn auth_sms_send_to(&self) -> (m: WireMessage)
        requires
            self.config.session is Some,
        ensures
            m@ == Map::<Seq<char>, Seq<char>>::empty().insert(
                "access"@,
                self.config.session.unwrap().access@,
            ).insert("refresh"@, self.config.session.unwrap().refresh@).insert(
                "type"@,
                "AuthSmsSendTo"@,
            ),
    {
        let sess = self.config.session.as_ref().unwrap();
        let mut f = WireMessage::empty();
        f.put("access", sess.access.as_str());
        f.put("refresh", sess.refresh.as_str());
        encode("AuthSmsSendTo", f)
    }

    /// The SmsSent request: reports the confirmation message as
    /// delivered; carries both tokens and the delivery details.
    pub fn auth_sms_sent(&self, phone: &str, message: &str) -> (m: WireMessage)
        requires
            self.config.session is Some,
        ensures
            m@ == Map::<Seq<char>, Seq<char>>::empty().insert(
                "access"@,
                self.config.session.unwrap().access@,
            ).insert("refresh"@, self.config.session.unwrap().refresh@).insert(
                "phone"@,
                phone@,
            ).insert("message"@, message@).insert("type"@, "AuthSmsSent"@),
    {
        let sess = self.config.session.as_ref().unwrap();
        let mut f = WireMessage::empty();
        f.put("access", sess.access.as_str());
        f.put("refresh", sess.refresh.as_str());
        f.put("phone", phone);
        f.put("message", message);
        encode("AuthSmsSent", f)
    }

    /// The CostPay request: asks for a payment link from the fixed
    /// vendor.
    pub fn cost_pay(&self) -> (m: WireMessage)
        requires
            self.config.session is Some,
        ensures
            m@ == Map::<Seq<char>, Seq<char>>::empty().insert(
                "access"@,
                self.config.session.unwrap().access@,
            ).insert("vendor"@, "00000000000000000000000000000000"@).insert(
                "type"@,
                "CostPay"@,
            ),
    {
        let sess = self.config.session.as_ref().unwrap();
        let mut f = WireMessage::empty();
        f.put("access", sess.access.as_str());
        f.put("vendor", "00000000000000000000000000000000");
        encode("CostPay", f)
    }

    /// The CostGet request: asks for the credit balance.
    pub fn cost_get(&self) -> (m: WireMessage)
        requires
            self.config.session is Some,
        ensures
            m@ == Map::<Seq<char>, Seq<char>>::empty().insert(
                "access"@,
                self.config.session.unwrap().access@,
            ).insert("type"@, "CostGet"@),
    {
        let sess = self.config.session.as_ref().unwrap();
        let mut f = WireMessage::empty();
        f.put("access", sess.access.as_str());
        encode("CostGet", f)
    }

    /// The common head of every business request: the access token,
    /// the four plan counters in decimal, and the optional federation
    /// target.
    pub fn head_fields(&self, fed: Option<&str>) -> (m: WireMessage)
        requires
            self.config.session is Some,
        ensures
            m@ == head_spec(
                self.config,
                match fed {
                    Option::None => Option::None,
                    Option::Some(f) => Option::Some(f@),
                },
            ),
    {
        let sess = self.config.session.as_ref().unwrap();
        let mut f = WireMessage::empty();
        f.put("access", sess.access.as_str());
        f.put("time", u64_to_dec(self.config.plan.time).as_str());
        f.put("space", u64_to_dec(self.config.plan.space).as_str());
        f.put("traffic", u64_to_dec(self.config.plan.traffic).as_str());
        f.put("tips", u64_to_dec(self.config.plan.tips).as_str());
        if let Some(fid) = fed {
            f.put("fed", fid);
        }
        f
    }

    /// The request of a resource operation: metadata query or
    /// invocation.
    pub fn gene(&self, cmd: &GeneCmd) -> (m: WireMessage)
        requires
            self.config.session is Some,
        ensures
            m@ == gene_request_spec(self.config, *cmd),
    {
        match cmd {
            GeneCmd::Meta { fed, gid } => {
                let mut f = self.head_fields(opt_str(fed));
                f.put("gid", gid.as_str());
                encode("GeneMeta", f)
            },
            GeneCmd::Call { fed, gid, args } => {
                let mut f = self.head_fields(opt_str(fed));
                f.put("gid", gid.as_str());
                let arg = join_args(args);
                f.put("arg", arg.as_str());
                encode("GeneCall", f)
            },
        }
    }

    /// The request of a content operation: metadata query, upload, or
    /// download.  An upload's raw bytes travel as the request body and
    /// are the transport's to attach.
    pub fn meme(&self, cmd: &MemeCmd) -> (m: WireMessage)
        requires
            self.config.session is Some,
        ensures
            m@ == meme_request_spec(self.config, *cmd),
    {
        match cmd {
            MemeCmd::Meta { hash } => {
                let mut f = self.head_fields(None);
                f.put("hash", hash.as_str());
                encode("MemeMeta", f)
            },
            MemeCmd::RawPut { days } => {
                let mut f = self.head_fields(None);
                f.put("days", u64_to_dec(*days).as_str());
                encode("MemeRawPut", f)
            },
            MemeCmd::RawGet { public, hash } => {
                let mut f = self.head_fields(None);
                f.put("public", if *public { "true" } else { "false" });
                f.put("hash", hash.as_str());
                encode("MemeRawGet", f)
            },
        }
    }
}

/// A resource operation, already parsed: a metadata query or an
/// invocation, each optionally routed to a federated instance.
pub enum GeneCmd {
    Meta { fed: Option<String>, gid: String },
    Call { fed: Option<String>, gid: String, args: Vec<String> },
}

/// A content operation, already parsed: metadata by hash, an upload
/// kept for a number of days, or a download by hash.
pub enum MemeCmd {
    Meta { hash: String },
    RawPut { days: u64 },
    RawGet { public: bool, hash: String },
}

/// The view of an optional federation target.
pub open spec fn fed_view(f: Option<String>) -> Option<Seq<char>> {
    match f {
        Option::None => Option::None,
        Option::Some(s) => Option::Some(s@),
    }
}

/// Borrows an optional owned string as an optional slice.
fn opt_str(f: &Option<String>) -> (r: Option<&str>)
    ensures
        match r {
            Option::None => f is None,
            Option::Some(s) => f matches Some(o) && s@ == o@,
        },
{
    match f {
        None => None,
        Some(s) => Some(s.as_str()),
    }
}

/// The common head of every business request, as a field mapping.
pub open spec fn head_spec(c: Config, fed: Option<Seq<char>>) -> Map<Seq<char>, Seq<char>> {
    let base = Map::<Seq<char>, Seq<char>>::empty().insert(
        "access"@,
        c.session.unwrap().access@,
    ).insert("time"@, dec_of(c.plan.time as nat)).insert(
        "space"@,
        dec_of(c.plan.space as nat),
    ).insert("traffic"@, dec_of(c.plan.traffic as nat)).insert(
        "tips"@,
        dec_of(c.plan.tips as nat),
    );
    match fed {
        Option::None => base,
        Option::Some(f) => base.insert("fed"@, f),
    }
}

/// The full request of each resource operation.
pub open spec fn gene_request_spec(c: Config, cmd: GeneCmd) -> Map<Seq<char>, Seq<char>> {
    match cmd {
        GeneCmd::Meta { fed, gid } => head_spec(c, fed_view(fed)).insert("gid"@, gid@).insert(
            "type"@,
            "GeneMeta"@,
        ),
        GeneCmd::Call { fed, gid, args } => head_spec(c, fed_view(fed)).insert(
            "gid"@,
            gid@,
        ).insert("arg"@, join_spaces(args@)).insert("type"@, "GeneCall"@),
    }
}

/// The full request of each content operation.
pub open spec fn meme_request_spec(c: Config, cmd: MemeCmd) -> Map<Seq<char>, Seq<char>> {
    match cmd {
        MemeCmd::Meta { hash } => head_spec(c, Option::None).insert("hash"@, hash@).insert(
            "type"@,
            "MemeMeta"@,
        ),
        MemeCmd::RawPut { days } => head_spec(c, Option::None).insert(
            "days"@,
            dec_of(days as nat),
        ).insert("type"@, "MemeRawPut"@),
        MemeCmd::RawGet { public, hash } => head_spec(c, Option::None).insert(
            "public"@,
            if public {
                "true"@
            } else {
                "false"@
            },
        ).insert("hash"@, hash@).insert("type"@, "MemeRawGet"@),
    }
}

/// A variable-length trailing argument is joined with single spaces;
/// no argument at all reads as the empty string.
pub open spec fn join_spaces(parts: Seq<String>) -> Seq<char>
    decreases parts.len(),
{
    if parts.len() == 0 {
        Seq::<char>::empty()
    } else if parts.len() == 1 {
        parts[0]@
    } else {
        join_spaces(parts.drop_last()) + " "@ + parts.last()@
    }
}

/// Joins trailing argument tokens with single spaces.
fn join_args(args: &Vec<String>) -> (r: String)
    ensures
        r@ == join_spaces(args@),
{
    let mut r = String::new();
    let mut i: usize = 0;
    while i < args.len()
        invariant
            i <= args@.len(),
            r@ == join_spaces(args@.take(i as int)),
        decreases args@.len() - i,
    {
        if i > 0 {
            r.append(" ");
        }
        r.append(args[i].as_str());
        proof {
            assert(args@.take(i + 1).drop_last() =~= args@.take(i as int));
            assert(args@.take(i + 1).last() == args@[i as int]);
        }
        i = i + 1;
    }
    proof {
        assert(args@.take(args@.len() as int) =~= args@);
    }
    r
}

/// The value a decimal field parses to, when it is a digit run that
/// fits the counter word.
pub open spec fn parse_field(m: Map<Seq<char>, Seq<char>>, k: Seq<char>) -> Option<u64> {
    let s = field_or_empty(m, k);
    if is_dec(s) && dec_val(s) <= u64::MAX {
        Option::Some(dec_val(s) as u64)
    } else {
        Option::None
    }
}

/// The cost report a success response carries, when all four counters
/// are readable.
pub open spec fn cost_report_spec(m: Map<Seq<char>, Seq<char>>) -> Option<CostReport> {
    if parse_field(m, "time"@) is Some && parse_field(m, "space"@) is Some && parse_field(
        m,
        "traffic"@,
    ) is Some && parse_field(m, "tips"@) is Some {
        Option::Some(
            CostReport {
                time: parse_field(m, "time"@).unwrap(),
                space: parse_field(m, "space"@).unwrap(),
                traffic: parse_field(m, "traffic"@).unwrap(),
                tips: parse_field(m, "tips"@).unwrap(),
            },
        )
    } else {
        Option::None
    }
}

/// The uniform error of a response, as a caller-visible failure.
pub open spec fn protocol_error_spec(r: ClientError, m: Map<Seq<char>, Seq<char>>) -> bool {
    r matches ClientError::Protocol(e) && e@ == field_or_empty(m, "error"@)
}

/// Reads one decimal counter field of a response.
fn get_counter(m: &WireMessage, key: &str) -> (r: Option<u64>)
    ensures
        r == parse_field(m@, key@),
{
    let s = m.get(key);
    parse_u64(s.as_str())
}

/// Reads the cost report of a success response.
pub fn read_cost_report(m: &WireMessage) -> (r: Option<CostReport>)
    ensures
        r == cost_report_spec(m@),
{
    let time = get_counter(m, "time");
    let space = get_counter(m, "space");
    let traffic = get_counter(m, "traffic");
    let tips = get_counter(m, "tips");
    match (time, space, traffic, tips) {
        (Some(time), Some(space), Some(traffic), Some(tips)) => Some(
            CostReport { time, space, traffic, tips },
        ),
        _ => None,
    }
}

/// Accepts a SessionStart response: the error is surfaced and no
/// session material is returned, or the new token pair is handed
/// back exactly as sent.
pub fn auth_session_start_accept(m: &WireMessage) -> (r: Result<(String, String), ClientError>)
    ensures
        is_error_spec(m@) ==> (r matches Err(e) && protocol_error_spec(e, m@)),
        !is_error_spec(m@) ==> (r matches Ok(p) && p.0@ == field_or_empty(m@, "access"@) && p.1@
            == field_or_empty(m@, "refresh"@)),
{
    if m.is_error() {
        return Err(ClientError::Protocol(m.error_message()));
    }
    Ok((m.get("access"), m.get("refresh")))
}

/// Accepts a SessionRefresh response: the error is surfaced and the
/// old session stays in place, or the fresh access token is handed
/// back exactly as sent.
pub fn auth_session_refresh_accept(m: &WireMessage) -> (r: Result<String, ClientError>)
    ensures
        is_error_spec(m@) ==> (r matches Err(e) && protocol_error_spec(e, m@)),
        !is_error_spec(m@) ==> (r matches Ok(a) && a@ == field_or_empty(m@, "access"@)),
{
    if m.is_error() {
        return Err(ClientError::Protocol(m.error_message()));
    }
    Ok(m.get("access"))
}

/// Accepts a SessionEnd response: only the uniform error check; the
/// caller decides what to do with the ended session.
pub fn auth_session_end_accept(m: &WireMessage) -> (r: Result<(), ClientError>)
    ensures
        is_error_spec(m@) ==> (r matches Err(e) && protocol_error_spec(e, m@)),
        !is_error_spec(m@) ==> r is Ok,
{
    if m.is_error() {
        return Err(ClientError::Protocol(m.error_message()));
    }
    Ok(())
}

/// Accepts a SmsSendTo response: where to send the confirmation
/// message, and what it must say.
pub fn auth_sms_send_to_accept(m: &WireMessage) -> (r: Result<(String, String), ClientError>)
    ensures
        is_error_spec(m@) ==> (r matches Err(e) && protocol_error_spec(e, m@)),
        !is_error_spec(m@) ==> (r matches Ok(p) && p.0@ == field_or_empty(m@, "phone"@) && p.1@
            == field_or_empty(m@, "message"@)),
{
    if m.is_error() {
        return Err(ClientError::Protocol(m.error_message()));
    }
    Ok((m.get("phone"), m.get("message")))
}

/// Accepts a SmsSent response: the opaque user identifier.
pub fn auth_sms_sent_accept(m: &WireMessage) -> (r: Result<String, ClientError>)
    ensures
        is_error_spec(m@) ==> (r matches Err(e) && protocol_error_spec(e, m@)),
        !is_error_spec(m@) ==> (r matches Ok(u) && u@ == field_or_empty(m@, "uid"@)),
{
    if m.is_error() {
        return Err(ClientError::Protocol(m.error_message()));
    }
    Ok(m.get("uid"))
}

/// Accepts a CostPay response: the payment link.
pub fn cost_pay_accept(m: &WireMessage) -> (r: Result<String, ClientError>)
    ensures
        is_error_spec(m@) ==> (r matches Err(e) && protocol_error_spec(e, m@)),
        !is_error_spec(m@) ==> (r matches Ok(u) && u@ == field_or_empty(m@, "uri"@)),
{
    if m.is_error() {
        return Err(ClientError::Protocol(m.error_message()));
    }
    Ok(m.get("uri"))
}

/// Accepts a CostGet response: the credit balance as the remote
/// reports it.
pub fn cost_get_accept(m: &WireMessage) -> (r: Result<String, ClientError>)
    ensures
        is_error_spec(m@) ==> (r matches Err(e) && protocol_error_spec(e, m@)),
        !is_error_spec(m@) ==> (r matches Ok(c) && c@ == field_or_empty(m@, "credit"@)),
{
    if m.is_error() {
        return Err(ClientError::Protocol(m.error_message()));
    }
    Ok(m.get("credit"))
}

/// Accepts the uniform part of every business response: on the
/// uniform error, or when the cost report is unreadable or exceeds
/// the plan, an error is surfaced and the plan is untouched; on
/// success the report is debited from the plan and handed back.  No
/// partial debit ever happens.
pub fn business_accept(m: &WireMessage, plan: &mut Plan) -> (r: Result<CostReport, ClientError>)
    ensures
        is_error_spec(m@) ==> (r matches Err(e) && protocol_error_spec(e, m@) && *final(plan)
            == *old(plan)),
        !is_error_spec(m@) ==> match cost_report_spec(m@) {
            Option::None => r == Err::<CostReport, ClientError>(ClientError::BadCostReport)
                && *final(plan) == *old(plan),
            Option::Some(c) => if old(plan).covers_spec(c) {
                r == Ok::<CostReport, ClientError>(c) && *final(plan) == old(plan).minus_spec(c)
            } else {
                r == Err::<CostReport, ClientError>(ClientError::PlanExceeded) && *final(plan)
                    == *old(plan)
            },
        },
{
    if m.is_error() {
        return Err(ClientError::Protocol(m.error_message()));
    }
    match read_cost_report(m) {
        None => Err(ClientError::BadCostReport),
        Some(c) => {
            if !plan.covers(&c) {
                return Err(ClientError::PlanExceeded);
            }
            plan.apply(&c);
            Ok(c)
        },
    }
}

/// Accepts a MemeRawPut response: the content hash, after the cost
/// report is debited.
pub fn meme_raw_put_accept(m: &WireMessage, plan: &mut Plan) -> (r: Result<
    (String, CostReport),
    ClientError,
>)
    ensures
        is_error_spec(m@) ==> (r matches Err(e) && protocol_error_spec(e, m@) && *final(plan)
            == *old(plan)),
        !is_error_spec(m@) ==> match cost_report_spec(m@) {
            Option::None => r == Err::<(String, CostReport), ClientError>(
                ClientError::BadCostReport,
            ) && *final(plan) == *old(plan),
            Option::Some(c) => if old(plan).covers_spec(c) {
                r matches Ok(p) && p.0@ == field_or_empty(m@, "hash"@) && p.1 == c && *final(plan)
                    == old(plan).minus_spec(c)
            } else {
                r == Err::<(String, CostReport), ClientError>(ClientError::PlanExceeded)
                    && *final(plan) == *old(plan)
            },
        },
{
    match business_accept(m, plan) {
        Err(e) => Err(e),
        Ok(c) => Ok((m.get("hash"), c)),
    }
}

} // verus!
