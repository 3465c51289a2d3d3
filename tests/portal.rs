use autocampnet::credentials::Credentials;
use autocampnet::portal::{
    check_after_login, check_after_logout, check_after_probe, classify_login, cookie_form,
    extract_csrf, login_form, logout_form, logout_succeeded, session_cookie,
    user_agent, CheckAction, CheckError, Endpoints, LoginOutcome,
};

#[test]
fn endpoint_urls() {
    let e = Endpoints::campnet();
    assert_eq!(e.login_url(), "https://campnet.bits-goa.ac.in:8090/login.xml");
    assert_eq!(e.logout_url(), "https://campnet.bits-goa.ac.in:8090/logout.xml");
    assert_eq!(e.controller_url(), "https://campnet.bits-goa.ac.in:8093/userportal/Controller");
    assert_eq!(
        e.index_url(),
        "https://campnet.bits-goa.ac.in:8093/userportal/webpages/myaccount/index.jsp"
    );
    assert_eq!(
        e.referer_url(),
        "https://campnet.bits-goa.ac.in:8093/userportal/webpages/myaccount/login.jsp"
    );
    assert_eq!(
        e.status_url(1700000000123),
        "https://campnet.bits-goa.ac.in:8093/userportal/webpages/myaccount/AccountStatus.jsp?popup=0&t=1700000000123"
    );
}

#[test]
fn request_bodies() {
    let c = Credentials::new("f2021", "pw");
    assert_eq!(login_form(&c, 42), "mode=191&username=f2021&password=pw&a=42&producttype=1");
    assert_eq!(logout_form("f2021", 0), "mode=193&username=f2021&a=0&producttype=1");
    assert_eq!(
        cookie_form(&c, 18446744073709551615),
        "mode=451&json=%7B%22username%22%3A%22f2021%22%2C%22password%22%3A%22pw%22%2C%22languageid%22%3A%221%22%2C%22browser%22%3A%22Chrome_109%22%7D&t=18446744073709551615"
    );
    assert_eq!(user_agent("0.3.1"), "AutoCampnetRuntime/0.3.1");
}

#[test]
fn login_reply_classification() {
    assert_eq!(classify_login("<status>LIVE</status>"), LoginOutcome::Live);
    assert_eq!(classify_login("Login failed. Invalid user"), LoginOutcome::InvalidCredentials);
    assert_eq!(classify_login("data limit exceeded"), LoginOutcome::QuotaExceeded);
    assert_eq!(classify_login("LIVE but failed"), LoginOutcome::Live);
    assert_eq!(classify_login("failed, exceeded"), LoginOutcome::InvalidCredentials);
    assert_eq!(classify_login("live"), LoginOutcome::Unknown);
    assert_eq!(classify_login(""), LoginOutcome::Unknown);
}

#[test]
fn logout_reply() {
    assert!(logout_succeeded("<message>LOGIN</message>"));
    assert!(!logout_succeeded("<message>error</message>"));
}

#[test]
fn cookie_keeps_text_before_semicolon() {
    assert_eq!(session_cookie("JSESSIONID=AB12; Path=/; Secure"), "JSESSIONID=AB12");
    assert_eq!(session_cookie("JSESSIONID=AB12"), "JSESSIONID=AB12");
    assert_eq!(session_cookie(";x"), "");
}

#[test]
fn csrf_from_index_page() {
    let page = "<script>\nvar k3n = 'c0ffee42';\nvar other = 1;\n</script>";
    assert_eq!(extract_csrf(page).as_deref(), Some("c0ffee42"));
    assert_eq!(extract_csrf("var k3n = 'a' + 'b';").as_deref(), Some("a' + 'b"));
    assert_eq!(extract_csrf("var k3n = 'a'b';").as_deref(), Some("a'b"));
    assert_eq!(extract_csrf("k3n = 'x'\nk3n = 'y'").as_deref(), Some("x"));
    assert_eq!(extract_csrf("no token here"), None);
    assert_eq!(extract_csrf("k3n = ''"), None);
}

#[test]
fn csrf_skips_quotes_before_the_token() {
    let page = "<script>var lang = 'en';\nvar k3n = 'z9y8';</script>";
    assert_eq!(extract_csrf(page).as_deref(), Some("z9y8"));
}

#[test]
fn credential_check_steps() {
    assert!(matches!(check_after_probe(true), CheckAction::SendLogout));
    assert!(matches!(check_after_probe(false), CheckAction::Done(Err(CheckError::NoSophos))));
    assert!(matches!(check_after_logout(true), CheckAction::SendLogin));
    assert!(matches!(check_after_logout(false), CheckAction::Done(Err(CheckError::Unknown))));
    assert!(matches!(check_after_login(Some("LIVE")), CheckAction::Done(Ok(()))));
    assert!(matches!(check_after_login(Some("exceeded")), CheckAction::Done(Ok(()))));
    assert!(matches!(
        check_after_login(Some("failed")),
        CheckAction::Done(Err(CheckError::InvalidCred))
    ));
    assert!(matches!(check_after_login(Some("failed: exceeded")), CheckAction::Done(Ok(()))));
    assert!(matches!(check_after_login(Some("failed LIVE")), CheckAction::Done(Ok(()))));
    assert!(matches!(check_after_login(Some("?")), CheckAction::Done(Err(CheckError::Unknown))));
    assert!(matches!(check_after_login(None), CheckAction::Done(Err(CheckError::Unknown))));
    assert_eq!(CheckError::InvalidCred.code(), "INVALIDCRED");
    assert_eq!(CheckError::Unknown.code(), "UNKNOWN");
    assert_eq!(CheckError::NoSophos.code(), "NOSOPHOS");
}
