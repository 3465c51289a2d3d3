//! The captive portal's addresses and request bodies, and how its replies
//! read: login outcomes, the session cookie, the CSRF token.

use vstd::prelude::*;

use crate::credentials::Credentials;
use crate::text::{
    char_seq, contains, contains_str, find_from, find_lit, push_char, push_range, push_str,
    seq_to_string,
};

verus! {

/// The portal's login service.
pub const LOGIN_ENDPOINT: &'static str = "https://campnet.bits-goa.ac.in:8090";

/// The portal's user pages.
pub const PORTAL_ENDPOINT: &'static str = "https://campnet.bits-goa.ac.in:8093";

/// Reached only once the portal has let the host through.
pub const INTERNET_PROBE: &'static str = "https://www.google.com";

/// The pattern whose match on the account index page carries the CSRF token.
pub const CSRF_PATTERN: &'static str = "k3n = '(.+)'";

/// The two base addresses of the captive portal.
#[derive(Debug)]
pub struct Endpoints {
    pub login: String,
    pub portal: String,
}

impl Endpoints {
    pub fn new(login: &str, portal: &str) -> (r: Endpoints)
        ensures
            r.login@ == login@,
            r.portal@ == portal@,
    {
        Endpoints { login: login.to_string(), portal: portal.to_string() }
    }

    /// The campus portal's fixed addresses.
    pub fn campnet() -> (r: Endpoints)
        ensures
            r.login@ == LOGIN_ENDPOINT@,
            r.portal@ == PORTAL_ENDPOINT@,
    {
        Endpoints::new(LOGIN_ENDPOINT, PORTAL_ENDPOINT)
    }

    pub fn duplicate(&self) -> (r: Endpoints)
        ensures
            r.login@ == self.login@,
            r.portal@ == self.portal@,
    {
        Endpoints { login: self.login.clone(), portal: self.portal.clone() }
    }

    fn join(base: &String, path: &str) -> (r: String)
        ensures
            r@ == base@ + path@,
    {
        let mut s = base.clone();
        push_str(&mut s, path);
        s
    }

    pub fn login_url(&self) -> (r: String)
        ensures
            r@ == self.login@ + "/login.xml"@,
    {
        Endpoints::join(&self.login, "/login.xml")
    }

    pub fn logout_url(&self) -> (r: String)
        ensures
            r@ == self.login@ + "/logout.xml"@,
    {
        Endpoints::join(&self.login, "/logout.xml")
    }

    pub fn controller_url(&self) -> (r: String)
        ensures
            r@ == self.portal@ + "/userportal/Controller"@,
    {
        Endpoints::join(&self.portal, "/userportal/Controller")
    }

    pub fn index_url(&self) -> (r: String)
        ensures
            r@ == self.portal@ + "/userportal/webpages/myaccount/index.jsp"@,
    {
        Endpoints::join(&self.portal, "/userportal/webpages/myaccount/index.jsp")
    }

    pub fn referer_url(&self) -> (r: String)
        ensures
            r@ == self.portal@ + "/userportal/webpages/myaccount/login.jsp"@,
    {
        Endpoints::join(&self.portal, "/userportal/webpages/myaccount/login.jsp")
    }

    /// The account status page, with `now_ms` as the anti-cache nonce.
    pub fn status_url(&self, now_ms: u64) -> (r: String)
        ensures
            r@ == self.portal@ + "/userportal/webpages/myaccount/AccountStatus.jsp?popup=0&t="@
                + decimal(now_ms as nat),
    {
        let mut s = Endpoints::join(
            &self.portal,
            "/userportal/webpages/myaccount/AccountStatus.jsp?popup=0&t=",
        );
        push_decimal(&mut s, now_ms);
        s
    }
}

pub open spec fn digit_char(d: nat) -> char {
    ((d + 48) as u8) as char
}

/// `n` in decimal, without leading zeros.
pub open spec fn decimal(n: nat) -> Seq<char>
    decreases n,
{
    if n < 10 {
        seq![digit_char(n)]
    } else {
        decimal(n / 10).push(digit_char(n % 10))
    }
}

fn push_decimal(s: &mut String, n: u64)
    ensures
        final(s)@ == old(s)@ + decimal(n as nat),
    decreases n,
{
    if n >= 10 {
        push_decimal(s, n / 10);
    }
    push_char(s, ((n % 10) as u8 + 48) as char);
    assert(final(s)@ =~= old(s)@ + decimal(n as nat)) by {
        if n >= 10 {
            assert(decimal(n as nat) == decimal((n / 10) as nat).push(digit_char((n % 10) as nat)));
        }
    };
}

/// Body of the login request.
pub open spec fn login_form_text(username: Seq<char>, password: Seq<char>, now_ms: nat) -> Seq<
    char,
> {
    "mode=191&username="@ + username + "&password="@ + password + "&a="@ + decimal(now_ms)
        + "&producttype=1"@
}

/// Body of the logout request.
pub open spec fn logout_form_text(username: Seq<char>, now_ms: nat) -> Seq<char> {
    "mode=193&username="@ + username + "&a="@ + decimal(now_ms) + "&producttype=1"@
}

/// Body of the request that opens a portal session: the account as
/// percent-encoded JSON.
pub open spec fn cookie_form_text(username: Seq<char>, password: Seq<char>, now_ms: nat) -> Seq<
    char,
> {
    "mode=451&json=%7B%22username%22%3A%22"@ + username + "%22%2C%22password%22%3A%22"@
        + password
        + "%22%2C%22languageid%22%3A%221%22%2C%22browser%22%3A%22Chrome_109%22%7D&t="@
        + decimal(now_ms)
}

pub fn login_form(creds: &Credentials, now_ms: u64) -> (r: String)
    ensures
        r@ == login_form_text(creds.username@, creds.password@, now_ms as nat),
{
    let mut s = String::new();
    push_str(&mut s, "mode=191&username=");
    push_str(&mut s, creds.username.as_str());
    push_str(&mut s, "&password=");
    push_str(&mut s, creds.password.as_str());
    push_str(&mut s, "&a=");
    push_decimal(&mut s, now_ms);
    push_str(&mut s, "&producttype=1");
    s
}

pub fn logout_form(username: &str, now_ms: u64) -> (r: String)
    ensures
        r@ == logout_form_text(username@, now_ms as nat),
{
    let mut s = String::new();
    push_str(&mut s, "mode=193&username=");
    push_str(&mut s, username);
    push_str(&mut s, "&a=");
    push_decimal(&mut s, now_ms);
    push_str(&mut s, "&producttype=1");
    s
}

pub fn cookie_form(creds: &Credentials, now_ms: u64) -> (r: String)
    ensures
        r@ == cookie_form_text(creds.username@, creds.password@, now_ms as nat),
{
    let mut s = String::new();
    push_str(&mut s, "mode=451&json=%7B%22username%22%3A%22");
    push_str(&mut s, creds.username.as_str());
    push_str(&mut s, "%22%2C%22password%22%3A%22");
    push_str(&mut s, creds.password.as_str());
    push_str(&mut s, "%22%2C%22languageid%22%3A%221%22%2C%22browser%22%3A%22Chrome_109%22%7D&t=");
    push_decimal(&mut s, now_ms);
    s
}

/// The `User-Agent` sent to the portal's user pages.
pub fn user_agent(version: &str) -> (r: String)
    ensures
        r@ == "AutoCampnetRuntime/"@ + version@,
{
    let mut s = String::new();
    push_str(&mut s, "AutoCampnetRuntime/");
    push_str(&mut s, version);
    s
}

/// How the portal answered a login request.
#[derive(Debug, Clone, Copy, PartialEq, Eq, Structural)]
pub enum LoginOutcome {
    Live,
    InvalidCredentials,
    QuotaExceeded,
    Unknown,
}

/// The outcome that a login reply stands for (`None`: no reply arrived).
pub open spec fn login_outcome(body: Option<Seq<char>>) -> LoginOutcome {
    match body {
        None => LoginOutcome::Unknown,
        Some(b) => if contains(b, "LIVE"@) {
            LoginOutcome::Live
        } else if contains(b, "failed"@) {
            LoginOutcome::InvalidCredentials
        } else if contains(b, "exceeded"@) {
            LoginOutcome::QuotaExceeded
        } else {
            LoginOutcome::Unknown
        },
    }
}

pub open spec fn str_view(s: Option<&str>) -> Option<Seq<char>> {
    match s {
        Some(t) => Some(t@),
        None => None,
    }
}

/// Classifies the text of a login reply.
pub fn classify_login(body: &str) -> (r: LoginOutcome)
    ensures
        r == login_outcome(Some(body@)),
{
    if contains_str(body, "LIVE") {
        LoginOutcome::Live
    } else if contains_str(body, "failed") {
        LoginOutcome::InvalidCredentials
    } else if contains_str(body, "exceeded") {
        LoginOutcome::QuotaExceeded
    } else {
        LoginOutcome::Unknown
    }
}

/// Whether a logout reply reports success.
pub fn logout_succeeded(body: &str) -> (r: bool)
    ensures
        r == contains(body@, "LOGIN"@),
{
    contains_str(body, "LOGIN")
}

/// The session cookie in a `Set-Cookie` header: the text before its first `;`.
pub open spec fn cookie_of(header: Seq<char>) -> Seq<char> {
    match find_from(header, ";"@, 0) {
        Some(i) => header.subrange(0, i),
        None => header,
    }
}

pub fn session_cookie(header: &str) -> (r: String)
    ensures
        r@ == cookie_of(header@),
{
    let t = char_seq(header);
    let semi = char_seq(";");
    let end = match find_lit(&t, &semi, 0) {
        Some(i) => i,
        None => t.len(),
    };
    let mut v: Vec<char> = Vec::new();
    push_range(&mut v, &t, 0, end);
    assert(v@ =~= cookie_of(header@));
    seq_to_string(&v)
}

/// The text that the first capture group of the regular expression
/// `pattern` takes in its leftmost match in `hay`, if the pattern is valid,
/// matches, and the group takes part in the match.
pub uninterp spec fn regex_first_group(pattern: Seq<char>, hay: Seq<char>) -> Option<Seq<char>>;

/// Relies on `regex::Regex::new` (compiles the pattern) and
/// `regex::Regex::captures` (the groups of its leftmost match in the text),
/// of which the first group is kept.
#[verifier::external_body]
fn first_group(pattern: &str, hay: &str) -> (r: Option<String>)
    ensures
        match r {
            Some(g) => regex_first_group(pattern@, hay@) == Some(g@),
            None => regex_first_group(pattern@, hay@) is None,
        },
{
    match regex::Regex::new(pattern) {
        Ok(re) => re.captures(hay).and_then(|c| c.get(1)).map(|m| m.as_str().to_string()),
        Err(_) => None,
    }
}

/// The CSRF token that the account index page carries: the group that
/// `CSRF_PATTERN` captures.
pub open spec fn csrf_of_page(page: Seq<char>) -> Option<Seq<char>> {
    regex_first_group(CSRF_PATTERN@, page)
}

/// Finds the CSRF token on the account index page.
pub fn extract_csrf(page: &str) -> (r: Option<String>)
    ensures
        match r {
            Some(c) => csrf_of_page(page@) == Some(c@),
            None => csrf_of_page(page@) is None,
        },
{
    first_group(CSRF_PATTERN, page)
}

/// Why a credential check did not succeed.
#[derive(Debug, Clone, Copy, PartialEq, Eq, Structural)]
pub enum CheckError {
    /// The portal rejected the username or password.
    InvalidCred,
    /// The portal answered in an unexpected way, or not at all.
    Unknown,
    /// The portal is not reachable: the host is not on the campus network.
    NoSophos,
}

impl CheckError {
    /// The code that the user interface receives.
    pub fn code(&self) -> (r: String)
        ensures
            r@ == (match self {
                CheckError::InvalidCred => "INVALIDCRED"@,
                CheckError::Unknown => "UNKNOWN"@,
                CheckError::NoSophos => "NOSOPHOS"@,
            }),
    {
        match self {
            CheckError::InvalidCred => "INVALIDCRED".to_string(),
            CheckError::Unknown => "UNKNOWN".to_string(),
            CheckError::NoSophos => "NOSOPHOS".to_string(),
        }
    }
}

/// The next request of a credential check, or its verdict.
#[derive(Debug, Clone, Copy)]
pub enum CheckAction {
    SendLogout,
    SendLogin,
    Done(Result<(), CheckError>),
}

/// The verdict that a login reply gives a credential check (`None`: no reply
/// arrived): a live session or an exceeded quota proves the account valid,
/// a failure rejects it, anything else is unknown.
pub open spec fn check_verdict(body: Option<Seq<char>>) -> Result<(), CheckError> {
    match body {
        Some(b) => if contains(b, "LIVE"@) || contains(b, "exceeded"@) {
            Ok(())
        } else if contains(b, "failed"@) {
            Err(CheckError::InvalidCred)
        } else {
            Err(CheckError::Unknown)
        },
        None => Err(CheckError::Unknown),
    }
}

/// After the reachability probe: log out first if the portal is there.
pub fn check_after_probe(reachable: bool) -> (r: CheckAction)
    ensures
        r == (if reachable {
            CheckAction::SendLogout
        } else {
            CheckAction::Done(Err(CheckError::NoSophos))
        }),
{
    if reachable {
        CheckAction::SendLogout
    } else {
        CheckAction::Done(Err(CheckError::NoSophos))
    }
}

/// After the logout request: log in if it was answered.
pub fn check_after_logout(answered: bool) -> (r: CheckAction)
    ensures
        r == (if answered {
            CheckAction::SendLogin
        } else {
            CheckAction::Done(Err(CheckError::Unknown))
        }),
{
    if answered {
        CheckAction::SendLogin
    } else {
        CheckAction::Done(Err(CheckError::Unknown))
    }
}

/// After the login request (`None`: no reply arrived): the verdict.
pub fn check_after_login(body: Option<&str>) -> (r: CheckAction)
    ensures
        r == CheckAction::Done(check_verdict(str_view(body))),
{
    match body {
        Some(b) => if contains_str(b, "LIVE") || contains_str(b, "exceeded") {
            CheckAction::Done(Ok(()))
        } else if contains_str(b, "failed") {
            CheckAction::Done(Err(CheckError::InvalidCred))
        } else {
            CheckAction::Done(Err(CheckError::Unknown))
        },
        None => CheckAction::Done(Err(CheckError::Unknown)),
    }
}

} // verus!
