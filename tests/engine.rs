use autocampnet::credentials::Credentials;
use autocampnet::engine::{
    logout_result, Icon, LoginAction, LoginEnd, Notice, Store, TrafficAction, TrafficEnd,
    LOGIN_PERIOD_MS, TRAFFIC_PERIOD_MS,
};
use autocampnet::portal::Endpoints;
use autocampnet::quota::NotificationState;

fn running_store() -> (Store, u64, u64) {
    let file = "{\"username\":\"u1\",\"password\":\"p1\"}";
    let (store, start) = Store::startup(Endpoints::campnet(), Some(file));
    let (l, t) = start.loops.unwrap();
    (store, l, t)
}

fn finish(a: LoginAction) -> LoginEnd {
    match a {
        LoginAction::Finish(e) => e,
        other => panic!("tick went on: {other:?}"),
    }
}

fn traffic_finish(a: TrafficAction) -> TrafficEnd {
    match a {
        TrafficAction::Finish(e) => e,
        other => panic!("tick went on: {other:?}"),
    }
}

fn status_page(used: &str, total: &str) -> String {
    let mut s = String::from("<table><tr><td id='Language.CycleDataTrasfer'>Cycle</td></tr><tr>");
    for f in [total, "0", "0", used, "0"] {
        s.push_str(&format!("<td> {f}&nbsp;<label id='Language.GB'>GB</label></td>"));
    }
    s.push_str("</tr></table>");
    s
}

/// Runs one traffic tick whose requests all succeed, reading `html`.
fn traffic_tick(store: &mut Store, ticket: u64, html: &str) -> TrafficEnd {
    assert!(store.begin_traffic_tick(ticket));
    assert!(matches!(store.on_traffic_reachable(ticket, true), TrafficAction::RequestCookie));
    assert!(matches!(
        store.on_cookie(ticket, Some("SID=s1; Path=/")),
        TrafficAction::RequestIndex
    ));
    assert_eq!(store.cookie, "SID=s1");
    assert!(matches!(
        store.on_index(ticket, Some("var k3n = 'tok';")),
        TrafficAction::RequestStatus
    ));
    assert_eq!(store.csrf, "tok");
    traffic_finish(store.on_status(ticket, Some(html)))
}

/// Runs one login tick that finds the host already through the portal.
fn online_tick(store: &mut Store, ticket: u64) -> LoginEnd {
    assert!(store.begin_login_tick(ticket));
    assert!(matches!(store.on_reachable(ticket, true), LoginAction::ProbeInternet));
    finish(store.on_internet(ticket, true))
}

/// Runs one login tick that has to log in and gets `reply`.
fn login_tick(store: &mut Store, ticket: u64, reply: &str) -> LoginEnd {
    assert!(store.begin_login_tick(ticket));
    assert!(matches!(store.on_reachable(ticket, true), LoginAction::ProbeInternet));
    assert!(matches!(store.on_internet(ticket, false), LoginAction::SendLogin));
    finish(store.on_login_reply(ticket, Some(reply)))
}

#[test]
fn cold_start_without_credentials() {
    let (mut store, start) = Store::startup(Endpoints::campnet(), None);
    assert!(start.loops.is_none());
    assert_eq!(start.icon, Icon::Inactive);
    assert_eq!(start.icon.name(), "inactive");
    assert!(store.login_guard.is_none() && store.traffic_guard.is_none());
    let fx = store.save(Credentials::new("u1", "p1"));
    assert_eq!(fx.file_text, "{\"username\":\"u1\",\"password\":\"p1\"}");
    assert_eq!(fx.notice, Notice::CredentialsSaved);
    assert_eq!(fx.notice.title(), "Credentials saved to disk");
    assert_eq!(store.login_guard, Some(fx.login_ticket));
    assert_eq!(store.traffic_guard, Some(fx.traffic_ticket));
    assert_eq!(store.credentials.username, "u1");
}

#[test]
fn malformed_file_starts_like_no_file() {
    let (store, start) = Store::startup(Endpoints::campnet(), Some("garbage"));
    assert!(start.loops.is_none());
    assert!(store.credentials.is_blank());
}

#[test]
fn already_authenticated() {
    let (mut store, l, _) = running_store();
    let end = online_tick(&mut store, l);
    assert_eq!(end.icon, Some(Icon::Active));
    assert_eq!(end.notice, None);
    assert_eq!(end.next_ms, Some(2500));
    assert_eq!(store.login_guard, Some(l));
}

#[test]
fn captive_needs_login() {
    let (mut store, l, _) = running_store();
    let end = login_tick(&mut store, l, "<xml><status>LIVE</status></xml>");
    assert_eq!(end.notice, Some(Notice::Connected));
    assert_eq!(Notice::Connected.title(), "Connected to Campnet!");
    assert_eq!(end.icon, Some(Icon::Active));
    assert_eq!(end.next_ms, Some(LOGIN_PERIOD_MS));
    assert_eq!(store.login_guard, Some(l));
}

#[test]
fn wrong_password_halts_until_save() {
    let (mut store, l, _) = running_store();
    let end = login_tick(&mut store, l, "Login failed");
    assert_eq!(end.notice, Some(Notice::IncorrectCredentials));
    assert_eq!(Notice::IncorrectCredentials.body(), "Incorrect credentials were provided");
    assert_eq!(end.icon, Some(Icon::Inactive));
    assert_eq!(end.next_ms, None);
    assert_eq!(store.login_guard, None);
    let fx = store.save(Credentials::new("u1", "right"));
    let end = login_tick(&mut store, fx.login_ticket, "LIVE");
    assert_eq!(end.notice, Some(Notice::Connected));
    assert_eq!(end.next_ms, Some(LOGIN_PERIOD_MS));
}

#[test]
fn quota_crossing_half() {
    let (mut store, l, t) = running_store();
    let first = traffic_tick(&mut store, t, &status_page("42", "100"));
    assert_eq!(first.notice, None);
    assert!(first.publish);
    assert_eq!(first.next_ms, Some(TRAFFIC_PERIOD_MS));
    assert_eq!(store.last_notification_state, NotificationState::Quiet);
    let second = traffic_tick(&mut store, t, &status_page("61", "100"));
    assert_eq!(second.notice, Some(Notice::Warn50));
    assert_eq!(Notice::Warn50.title(), "50% data warning!");
    assert_eq!(store.last_notification_state, NotificationState::Used50);
    assert_eq!(store.traffic_units.used, "GB");
    let end = online_tick(&mut store, l);
    assert_eq!(end.icon, Some(Icon::Used50));
    assert_eq!(Icon::Used50.name(), "used_50");
}

#[test]
fn quota_exceeded_mid_session() {
    let (mut store, l, t) = running_store();
    let end = login_tick(&mut store, l, "Your data limit has exceeded");
    assert_eq!(end.notice, Some(Notice::LimitExceeded));
    assert_eq!(Notice::LimitExceeded.body(), "Daily data limit exceeded on credentials");
    assert_eq!(end.icon, Some(Icon::Inactive));
    assert_eq!(end.next_ms, None);
    let tick = traffic_tick(&mut store, t, &status_page("10.5", "10"));
    assert_eq!(tick.notice, None);
    assert_eq!(tick.next_ms, Some(TRAFFIC_PERIOD_MS));
    assert_eq!(store.last_notification_state, NotificationState::Used100);
    assert_eq!(store.traffic_guard, Some(t));
}

#[test]
fn unreachable_portal_retries() {
    let (mut store, l, t) = running_store();
    assert!(store.begin_login_tick(l));
    let end = finish(store.on_reachable(l, false));
    assert_eq!((end.notice, end.icon, end.next_ms), (None, None, Some(2500)));
    assert!(store.begin_traffic_tick(t));
    let end = traffic_finish(store.on_traffic_reachable(t, false));
    assert_eq!((end.notice, end.publish, end.next_ms), (None, false, Some(45000)));
}

#[test]
fn no_login_reply_halts() {
    let (mut store, l, _) = running_store();
    assert!(store.begin_login_tick(l));
    store.on_reachable(l, true);
    store.on_internet(l, false);
    let end = finish(store.on_login_reply(l, None));
    assert_eq!(end.notice, Some(Notice::LoginIssue));
    assert_eq!(end.next_ms, None);
}

#[test]
fn portal_failures_skip_the_tick() {
    let (mut store, _, t) = running_store();
    assert!(store.begin_traffic_tick(t));
    store.on_traffic_reachable(t, true);
    let end = traffic_finish(store.on_cookie(t, None));
    assert_eq!(end.next_ms, Some(TRAFFIC_PERIOD_MS));
    assert!(store.begin_traffic_tick(t));
    store.on_cookie(t, Some("SID=1"));
    let end = traffic_finish(store.on_index(t, Some("no token")));
    assert_eq!(end.next_ms, Some(TRAFFIC_PERIOD_MS));
    assert!(store.begin_traffic_tick(t));
    store.on_cookie(t, Some("SID=1"));
    store.on_index(t, Some("k3n = 'x'"));
    let end = traffic_finish(store.on_status(t, Some("<html>maintenance</html>")));
    assert!(!end.publish);
    assert_eq!(end.next_ms, Some(TRAFFIC_PERIOD_MS));
    assert_eq!(store.traffic.total.mantissa, 0);
}

#[test]
fn one_guard_per_loop_after_each_tick() {
    let (mut store, l, t) = running_store();
    for _ in 0..3 {
        online_tick(&mut store, l);
        assert_eq!(store.login_guard, Some(l));
        traffic_tick(&mut store, t, &status_page("1", "100"));
        assert_eq!(store.traffic_guard, Some(t));
    }
}

#[test]
fn restart_makes_running_tick_stale() {
    let (mut store, l, t) = running_store();
    assert!(store.begin_login_tick(l));
    let (l2, t2) = store.reconnect().unwrap();
    assert_ne!(l, l2);
    assert_ne!(t, t2);
    let end = finish(store.on_internet(l, true));
    assert_eq!(end.next_ms, None);
    assert_eq!(store.login_guard, Some(l2));
    assert!(!store.begin_traffic_tick(t));
    assert!(store.begin_traffic_tick(t2));
}

#[test]
fn reconnect_without_credentials_shows_window() {
    let (mut store, _) = Store::startup(Endpoints::campnet(), None);
    assert_eq!(store.reconnect(), None);
    assert!(store.login_guard.is_none());
}

#[test]
fn logout_stops_login_loop() {
    let (mut store, l, t) = running_store();
    assert_eq!(store.begin_logout(), "u1");
    assert_eq!(store.login_guard, None);
    assert_eq!(store.traffic_guard, Some(t));
    assert!(!store.begin_login_tick(l));
    assert_eq!(logout_result(Some("<msg>LOGIN</msg>")), (Some(Icon::Inactive), Notice::LoggedOut));
    assert_eq!(logout_result(Some("error")), (None, Notice::LogoutFailed));
    assert_eq!(logout_result(None), (None, Notice::LogoutFailed));
    assert_eq!(Notice::LogoutFailed.title(), "Unable to logout of campnet!");
}

#[test]
fn delete_twice_is_harmless() {
    let (mut store, _, t) = running_store();
    traffic_tick(&mut store, t, &status_page("95", "100"));
    assert_eq!(store.last_notification_state, NotificationState::Used90);
    store.delete();
    assert!(store.credentials.is_blank());
    assert_eq!(store.traffic.used.mantissa, 0);
    assert_eq!(store.traffic_units.used, "");
    assert_eq!(store.last_notification_state, NotificationState::Quiet);
    assert!(store.login_guard.is_none() && store.traffic_guard.is_none());
    store.delete();
    assert!(store.credentials.is_blank());
    assert!(store.login_guard.is_none() && store.traffic_guard.is_none());
    assert_eq!(store.last_notification_state, NotificationState::Quiet);
}

#[test]
fn level_does_not_drop_while_usage_grows() {
    let (mut store, _, t) = running_store();
    let mut last = 0;
    for used in ["10", "49.9", "50", "70", "90", "99.99", "100", "120"] {
        traffic_tick(&mut store, t, &status_page(used, "100"));
        let rank = match store.last_notification_state {
            NotificationState::Quiet => 0,
            NotificationState::Used50 => 1,
            NotificationState::Used90 => 2,
            NotificationState::Used100 => 3,
        };
        assert!(rank >= last);
        last = rank;
    }
    assert_eq!(last, 3);
}

#[test]
fn warning_at_ninety() {
    let (mut store, l, t) = running_store();
    let end = traffic_tick(&mut store, t, &status_page("91", "100"));
    assert_eq!(end.notice, Some(Notice::Warn90));
    assert_eq!(Notice::Warn90.body(), "Tread the interwebs slowly");
    let again = traffic_tick(&mut store, t, &status_page("92", "100"));
    assert_eq!(again.notice, None);
    assert_eq!(online_tick(&mut store, l).icon, Some(Icon::Used90));
}

#[test]
fn save_resets_warning_level() {
    let (mut store, _, t) = running_store();
    traffic_tick(&mut store, t, &status_page("60", "100"));
    assert_eq!(store.last_notification_state, NotificationState::Used50);
    store.save(Credentials::new("u2", "p2"));
    assert_eq!(store.last_notification_state, NotificationState::Quiet);
}
