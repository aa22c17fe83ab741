use voxov_cli::client::{
    auth_session_end_accept, auth_session_refresh_accept, auth_session_start_accept,
    auth_sms_send_to_accept, auth_sms_sent_accept, business_accept, cost_get_accept,
    cost_pay_accept, meme_raw_put_accept, read_cost_report, Client, ClientError, GeneCmd, MemeCmd,
    SessionAction, SessionState,
};
use voxov_cli::codec::WireMessage;
use voxov_cli::config::{Config, CostReport, Plan, Session, ACCESS_LIFETIME_SECONDS,
    REFRESH_LIFETIME_SECONDS};

const T0: u64 = 1_700_000_000;

fn client_with(session: Option<Session>) -> Client {
    let mut config = Config::load();
    config.session = session;
    Client::new(config)
}

fn response(pairs: &[(&str, &str)]) -> WireMessage {
    let mut m = WireMessage::empty();
    for (k, v) in pairs {
        m.put(k, v);
    }
    m
}

#[test]
fn no_session_leads_to_session_start() {
    let c = client_with(None);
    assert_eq!(c.session_state(T0), SessionState::NoSession);
    assert_eq!(c.session_action(T0), SessionAction::StartNew);
}

#[test]
fn fresh_session_proceeds_directly() {
    let c = client_with(Some(Session::new("A", "R", T0)));
    assert_eq!(c.session_state(T0 + 10), SessionState::Valid);
    assert_eq!(c.session_action(T0 + 10), SessionAction::Proceed);
}

#[test]
fn past_half_life_leads_to_refresh_only() {
    let c = client_with(Some(Session::new("A", "R", T0)));
    let now = T0 + ACCESS_LIFETIME_SECONDS / 2 + 1;
    assert_eq!(c.session_state(now), SessionState::NeedsRefresh);
    assert_eq!(c.session_action(now), SessionAction::Refresh);
}

#[test]
fn expired_refresh_never_leads_to_refresh() {
    let c = client_with(Some(Session::new("A", "R", T0)));
    let now = T0 + REFRESH_LIFETIME_SECONDS + 1;
    assert_eq!(c.session_state(now), SessionState::Expired);
    assert_eq!(c.session_action(now), SessionAction::ResetAndStart);
}

#[test]
fn get_balance_on_a_fresh_client() {
    // Fresh client, no session: the manager must start a session first.
    let mut c = client_with(None);
    assert_eq!(c.session_action(T0), SessionAction::StartNew);
    let start = c.auth_session_start();
    assert_eq!(start.get("type"), "AuthSessionStart");
    let start_response = response(&[("type", "AuthSessionStart"), ("access", "A1"), ("refresh", "R1")]);
    let (access, refresh) = auth_session_start_accept(&start_response).expect("start succeeds");
    assert_eq!((access.as_str(), refresh.as_str()), ("A1", "R1"));
    c.apply_session_start(&access, &refresh, T0);
    // The business call goes out with the fresh access token.
    assert_eq!(c.session_action(T0), SessionAction::Proceed);
    let req = c.cost_get();
    assert_eq!(req.get("type"), "CostGet");
    assert_eq!(req.get("access"), "A1");
    let reply = response(&[("type", "CostGet"), ("credit", "500")]);
    assert_eq!(cost_get_accept(&reply), Ok("500".to_string()));
}

#[test]
fn get_metadata_past_half_life_refreshes_in_place() {
    let mut c = client_with(Some(Session::new("A", "R", T0)));
    let now = T0 + ACCESS_LIFETIME_SECONDS / 2 + 1;
    // Past the half-life the manager refreshes; it never starts anew.
    assert_eq!(c.session_action(now), SessionAction::Refresh);
    let req = c.auth_session_refresh();
    assert_eq!(req.get("type"), "AuthSessionRefresh");
    assert_eq!(req.get("refresh"), "R");
    let reply = response(&[("type", "AuthSessionRefresh"), ("access", "A2")]);
    let access = auth_session_refresh_accept(&reply).expect("refresh succeeds");
    c.apply_session_refresh(&access, now);
    let s = c.config.session.as_ref().unwrap();
    assert_eq!(s.access, "A2");
    assert_eq!(s.access_issued_at, now);
    assert_eq!(s.refresh, "R");
    assert_eq!(s.refresh_issued_at, T0);
    // The business call now proceeds with the replaced token.
    assert_eq!(c.session_action(now), SessionAction::Proceed);
    let m = c.meme(&MemeCmd::Meta { hash: "h".to_string() });
    assert_eq!(m.get("access"), "A2");
}

#[test]
fn expired_refresh_resets_and_starts_anew() {
    let mut c = client_with(Some(Session::new("old", "old", T0)));
    let now = T0 + REFRESH_LIFETIME_SECONDS + 1;
    // The dead session is discarded and a fresh start performed.
    assert_eq!(c.session_action(now), SessionAction::ResetAndStart);
    c.discard_session();
    assert_eq!(c.session_state(now), SessionState::NoSession);
    let start_response = response(&[("type", "AuthSessionStart"), ("access", "A9"), ("refresh", "R9")]);
    let (access, refresh) = auth_session_start_accept(&start_response).expect("start succeeds");
    c.apply_session_start(&access, &refresh, now);
    assert_eq!(c.session_action(now), SessionAction::Proceed);
    let req = c.cost_get();
    assert_eq!(req.get("access"), "A9");
}

#[test]
fn error_response_leaves_the_plan_untouched() {
    let c = client_with(Some(Session::new("A", "R", T0)));
    let req = c.gene(&GeneCmd::Call {
        fed: None,
        gid: "g1".to_string(),
        args: vec![],
    });
    assert_eq!(req.get("type"), "GeneCall");
    let mut plan = c.config.plan;
    let before = plan;
    let reply = response(&[("type", "Error"), ("error", "insufficient credit")]);
    let r = business_accept(&reply, &mut plan);
    assert_eq!(r, Err(ClientError::Protocol("insufficient credit".to_string())));
    assert_eq!(plan, before);
}

#[test]
fn cost_report_debits_cumulatively() {
    let mut plan = Plan { time: 100, space: 100, traffic: 100, tips: 100 };
    let reply = response(&[
        ("type", "GeneCall"),
        ("time", "3"),
        ("space", "5"),
        ("traffic", "7"),
        ("tips", "11"),
    ]);
    let first = business_accept(&reply, &mut plan).expect("first call succeeds");
    assert_eq!(first, CostReport { time: 3, space: 5, traffic: 7, tips: 11 });
    let second = business_accept(&reply, &mut plan).expect("second call succeeds");
    assert_eq!(second, first);
    // Two identical reports debit twice: the report is a debit, not a state.
    assert_eq!(plan, Plan { time: 100 - 6, space: 100 - 10, traffic: 100 - 14, tips: 100 - 22 });
}

#[test]
fn unreadable_cost_report_is_refused_without_debit() {
    let mut plan = Plan { time: 10, space: 10, traffic: 10, tips: 10 };
    let before = plan;
    let reply = response(&[("type", "GeneCall"), ("time", "3"), ("space", "x")]);
    assert_eq!(business_accept(&reply, &mut plan), Err(ClientError::BadCostReport));
    assert_eq!(plan, before);
}

#[test]
fn overrunning_cost_report_is_refused_without_debit() {
    let mut plan = Plan { time: 2, space: 10, traffic: 10, tips: 10 };
    let before = plan;
    let reply = response(&[
        ("type", "GeneCall"),
        ("time", "3"),
        ("space", "0"),
        ("traffic", "0"),
        ("tips", "0"),
    ]);
    assert_eq!(business_accept(&reply, &mut plan), Err(ClientError::PlanExceeded));
    assert_eq!(plan, before);
}

#[test]
fn read_cost_report_needs_all_four_counters() {
    let reply = response(&[("time", "1"), ("space", "2"), ("traffic", "3"), ("tips", "4")]);
    assert_eq!(
        read_cost_report(&reply),
        Some(CostReport { time: 1, space: 2, traffic: 3, tips: 4 })
    );
    let partial = response(&[("time", "1"), ("space", "2"), ("traffic", "3")]);
    assert_eq!(read_cost_report(&partial), None);
}

#[test]
fn head_fields_carry_token_plan_and_federation() {
    let mut c = client_with(Some(Session::new("A", "R", T0)));
    c.config.plan = Plan { time: 1, space: 22, traffic: 333, tips: 4444 };
    let m = c.head_fields(Some("remote"));
    assert_eq!(m.get("access"), "A");
    assert_eq!(m.get("time"), "1");
    assert_eq!(m.get("space"), "22");
    assert_eq!(m.get("traffic"), "333");
    assert_eq!(m.get("tips"), "4444");
    assert_eq!(m.get("fed"), "remote");
    let local = c.head_fields(None);
    assert_eq!(local.get("fed"), "");
}

#[test]
fn gene_call_joins_trailing_arguments_with_spaces() {
    let c = client_with(Some(Session::new("A", "R", T0)));
    let m = c.gene(&GeneCmd::Call {
        fed: Some("f1".to_string()),
        gid: "g1".to_string(),
        args: vec!["a".to_string(), "b".to_string(), "c".to_string()],
    });
    assert_eq!(m.get("type"), "GeneCall");
    assert_eq!(m.get("gid"), "g1");
    assert_eq!(m.get("fed"), "f1");
    assert_eq!(m.get("arg"), "a b c");
}

#[test]
fn gene_call_without_arguments_sends_the_empty_string() {
    let c = client_with(Some(Session::new("A", "R", T0)));
    let m = c.gene(&GeneCmd::Call { fed: None, gid: "g1".to_string(), args: vec![] });
    assert_eq!(m.get("arg"), "");
    assert_eq!(m.get("fed"), "");
}

#[test]
fn gene_meta_carries_the_resource_id() {
    let c = client_with(Some(Session::new("A", "R", T0)));
    let m = c.gene(&GeneCmd::Meta { fed: None, gid: "g7".to_string() });
    assert_eq!(m.get("type"), "GeneMeta");
    assert_eq!(m.get("gid"), "g7");
}

#[test]
fn meme_requests_carry_their_fields() {
    let c = client_with(Some(Session::new("A", "R", T0)));
    let meta = c.meme(&MemeCmd::Meta { hash: "h1".to_string() });
    assert_eq!(meta.get("type"), "MemeMeta");
    assert_eq!(meta.get("hash"), "h1");
    let put = c.meme(&MemeCmd::RawPut { days: 30 });
    assert_eq!(put.get("type"), "MemeRawPut");
    assert_eq!(put.get("days"), "30");
    let get_public = c.meme(&MemeCmd::RawGet { public: true, hash: "h2".to_string() });
    assert_eq!(get_public.get("type"), "MemeRawGet");
    assert_eq!(get_public.get("public"), "true");
    assert_eq!(get_public.get("hash"), "h2");
    let get_private = c.meme(&MemeCmd::RawGet { public: false, hash: "h3".to_string() });
    assert_eq!(get_private.get("public"), "false");
}

#[test]
fn meme_raw_put_returns_the_content_hash_after_debit() {
    let mut plan = Plan { time: 10, space: 10, traffic: 10, tips: 10 };
    let reply = response(&[
        ("type", "MemeRawPut"),
        ("hash", "abc123"),
        ("time", "1"),
        ("space", "2"),
        ("traffic", "3"),
        ("tips", "4"),
    ]);
    let (hash, cost) = meme_raw_put_accept(&reply, &mut plan).expect("put succeeds");
    assert_eq!(hash, "abc123");
    assert_eq!(cost, CostReport { time: 1, space: 2, traffic: 3, tips: 4 });
    assert_eq!(plan, Plan { time: 9, space: 8, traffic: 7, tips: 6 });
}

#[test]
fn session_end_sends_refresh_only_on_full_invalidation() {
    let c = client_with(Some(Session::new("A", "R", T0)));
    let partial = c.auth_session_end(false);
    assert_eq!(partial.get("type"), "AuthSessionEnd");
    assert_eq!(partial.get("access"), "A");
    assert_eq!(partial.get("refresh"), "");
    let full = c.auth_session_end(true);
    assert_eq!(full.get("refresh"), "R");
    let confirmed = response(&[("type", "AuthSessionEnd")]);
    assert_eq!(auth_session_end_accept(&confirmed), Ok(()));
    let refused = response(&[("type", "Error"), ("error", "no session")]);
    assert_eq!(
        auth_session_end_accept(&refused),
        Err(ClientError::Protocol("no session".to_string()))
    );
}

#[test]
fn sms_flow_carries_both_tokens_and_the_delivery_details() {
    let c = client_with(Some(Session::new("A", "R", T0)));
    let ask = c.auth_sms_send_to();
    assert_eq!(ask.get("type"), "AuthSmsSendTo");
    assert_eq!(ask.get("access"), "A");
    assert_eq!(ask.get("refresh"), "R");
    let where_to = response(&[("type", "AuthSmsSendTo"), ("phone", "+100"), ("message", "m0")]);
    let (phone, message) = auth_sms_send_to_accept(&where_to).expect("send-to succeeds");
    assert_eq!((phone.as_str(), message.as_str()), ("+100", "m0"));
    let sent = c.auth_sms_sent(&phone, &message);
    assert_eq!(sent.get("type"), "AuthSmsSent");
    assert_eq!(sent.get("phone"), "+100");
    assert_eq!(sent.get("message"), "m0");
    let confirmed = response(&[("type", "AuthSmsSent"), ("uid", "user-1")]);
    assert_eq!(auth_sms_sent_accept(&confirmed), Ok("user-1".to_string()));
}

#[test]
fn cost_pay_carries_the_fixed_vendor() {
    let c = client_with(Some(Session::new("A", "R", T0)));
    let m = c.cost_pay();
    assert_eq!(m.get("type"), "CostPay");
    assert_eq!(m.get("vendor"), "00000000000000000000000000000000");
    let reply = response(&[("type", "CostPay"), ("uri", "pay://here")]);
    assert_eq!(cost_pay_accept(&reply), Ok("pay://here".to_string()));
}

#[test]
fn lifecycle_errors_propagate_to_the_caller() {
    let failed = response(&[("type", "Error"), ("error", "denied")]);
    let r = auth_session_start_accept(&failed);
    assert_eq!(r, Err(ClientError::Protocol("denied".to_string())));
    let r2 = auth_session_refresh_accept(&failed);
    assert_eq!(r2, Err(ClientError::Protocol("denied".to_string())));
}

#[test]
fn load_builds_the_default_configuration() {
    let c = Config::load();
    assert_eq!(c.url, "http://localhost:8080");
    assert!(c.session.is_none());
    let full = 1_000_000_000;
    assert_eq!(c.plan, Plan { time: full, space: full, traffic: full, tips: full });
    let d = Config::default();
    assert_eq!(d.url, c.url);
    assert_eq!(d.plan, c.plan);
}
