//! The state store and the decisions of the two loops and of the user's
//! commands. The caller performs each requested action (a probe, a request,
//! a timer) and reports what came of it; the store decides what follows.

use vstd::prelude::*;

use crate::credentials::{credentials_text, load_creds, load_result, save_creds, Credentials};
use crate::portal::{
    classify_login, cookie_of, csrf_of_page, extract_csrf, login_outcome,
    logout_succeeded, session_cookie, str_view, Endpoints, LoginOutcome,
};
use crate::text::contains;
use crate::quota::{
    band, notification_state, parse_quota, quota_of, AmountModel, NotificationState,
    TrafficStats, TrafficUnits,
};

verus! {

/// Pause between two ticks of the login loop.
pub const LOGIN_PERIOD_MS: u64 = 2500;

/// Pause between two ticks of the traffic loop.
pub const TRAFFIC_PERIOD_MS: u64 = 45000;

/// Tray icons.
#[derive(Debug, Clone, Copy, PartialEq, Eq, Structural)]
pub enum Icon {
    Active,
    Inactive,
    Used50,
    Used90,
}

impl Icon {
    /// The icon's file name, without extension.
    pub fn name(&self) -> (r: String)
        ensures
            r@ == (match self {
                Icon::Active => "active"@,
                Icon::Inactive => "inactive"@,
                Icon::Used50 => "used_50"@,
                Icon::Used90 => "used_90"@,
            }),
    {
        match self {
            Icon::Active => "active".to_string(),
            Icon::Inactive => "inactive".to_string(),
            Icon::Used50 => "used_50".to_string(),
            Icon::Used90 => "used_90".to_string(),
        }
    }
}

/// Desktop notifications.
#[derive(Debug, Clone, Copy, PartialEq, Eq, Structural)]
pub enum Notice {
    CredentialsSaved,
    Connected,
    IncorrectCredentials,
    LimitExceeded,
    LoginIssue,
    Warn50,
    Warn90,
    LoggedOut,
    LogoutFailed,
}

impl Notice {
    pub fn title(&self) -> (r: String)
        ensures
            r@ == (match self {
                Notice::CredentialsSaved => "Credentials saved to disk"@,
                Notice::Connected => "Connected to Campnet!"@,
                Notice::IncorrectCredentials => "Could not connect to Campnet!"@,
                Notice::LimitExceeded => "Could not connect to Campnet!"@,
                Notice::LoginIssue => "Could not connect to Campnet!"@,
                Notice::Warn50 => "50% data warning!"@,
                Notice::Warn90 => "90% data warning!"@,
                Notice::LoggedOut => "Logged out of campnet!"@,
                Notice::LogoutFailed => "Unable to logout of campnet!"@,
            }),
    {
        match self {
            Notice::CredentialsSaved => "Credentials saved to disk".to_string(),
            Notice::Connected => "Connected to Campnet!".to_string(),
            Notice::IncorrectCredentials => "Could not connect to Campnet!".to_string(),
            Notice::LimitExceeded => "Could not connect to Campnet!".to_string(),
            Notice::LoginIssue => "Could not connect to Campnet!".to_string(),
            Notice::Warn50 => "50% data warning!".to_string(),
            Notice::Warn90 => "90% data warning!".to_string(),
            Notice::LoggedOut => "Logged out of campnet!".to_string(),
            Notice::LogoutFailed => "Unable to logout of campnet!".to_string(),
        }
    }

    pub fn body(&self) -> (r: String)
        ensures
            r@ == (match self {
                Notice::CredentialsSaved => "App will try to login to campnet whenever available"@,
                Notice::Connected => "Logged in successfully to BPGC network"@,
                Notice::IncorrectCredentials => "Incorrect credentials were provided"@,
                Notice::LimitExceeded => "Daily data limit exceeded on credentials"@,
                Notice::LoginIssue => "There was an issue with the login attempt"@,
                Notice::Warn50 => "Consider slowing down"@,
                Notice::Warn90 => "Tread the interwebs slowly"@,
                Notice::LoggedOut => Seq::<char>::empty(),
                Notice::LogoutFailed => Seq::<char>::empty(),
            }),
    {
        match self {
            Notice::CredentialsSaved => {
                "App will try to login to campnet whenever available".to_string()
            },
            Notice::Connected => "Logged in successfully to BPGC network".to_string(),
            Notice::IncorrectCredentials => "Incorrect credentials were provided".to_string(),
            Notice::LimitExceeded => "Daily data limit exceeded on credentials".to_string(),
            Notice::LoginIssue => "There was an issue with the login attempt".to_string(),
            Notice::Warn50 => "Consider slowing down".to_string(),
            Notice::Warn90 => "Tread the interwebs slowly".to_string(),
            Notice::LoggedOut => String::new(),
            Notice::LogoutFailed => String::new(),
        }
    }
}

/// How a login tick ends: what to show, and when the next tick comes
/// (`None`: the loop stops here).
#[derive(Debug, Clone, Copy)]
pub struct LoginEnd {
    pub notice: Option<Notice>,
    pub icon: Option<Icon>,
    pub next_ms: Option<u64>,
}

/// What a login tick does next.
#[derive(Debug, Clone, Copy)]
pub enum LoginAction {
    /// Probe the internet; report with `on_internet`.
    ProbeInternet,
    /// Send the login request with the stored credentials; report with
    /// `on_login_reply`.
    SendLogin,
    Finish(LoginEnd),
}

/// How a traffic tick ends: the warning to raise, whether to push the
/// figures to the window, and when the next tick comes.
#[derive(Debug, Clone, Copy)]
pub struct TrafficEnd {
    pub notice: Option<Notice>,
    pub publish: bool,
    pub next_ms: Option<u64>,
}

/// What a traffic tick does next.
#[derive(Debug, Clone, Copy)]
pub enum TrafficAction {
    /// Open a portal session with the stored credentials; report the
    /// `Set-Cookie` header with `on_cookie`.
    RequestCookie,
    /// Fetch the account index page with the stored cookie; report with
    /// `on_index`.
    RequestIndex,
    /// Fetch the account status page with the stored cookie and CSRF token;
    /// report with `on_status`.
    RequestStatus,
    Finish(TrafficEnd),
}

/// The icon that shows the warning level while connected; a used-up quota
/// leaves the icon as it is.
pub open spec fn level_icon(level: NotificationState) -> Option<Icon> {
    match level {
        NotificationState::Quiet => Some(Icon::Active),
        NotificationState::Used50 => Some(Icon::Used50),
        NotificationState::Used90 => Some(Icon::Used90),
        NotificationState::Used100 => None,
    }
}

fn level_icon_exec(level: NotificationState) -> (r: Option<Icon>)
    ensures
        r == level_icon(level),
{
    match level {
        NotificationState::Quiet => Some(Icon::Active),
        NotificationState::Used50 => Some(Icon::Used50),
        NotificationState::Used90 => Some(Icon::Used90),
        NotificationState::Used100 => None,
    }
}

pub open spec fn outcome_notice(o: LoginOutcome) -> Notice {
    match o {
        LoginOutcome::Live => Notice::Connected,
        LoginOutcome::InvalidCredentials => Notice::IncorrectCredentials,
        LoginOutcome::QuotaExceeded => Notice::LimitExceeded,
        LoginOutcome::Unknown => Notice::LoginIssue,
    }
}

/// The warning raised when the level moves from `old` to `new`.
pub open spec fn warning_for(old: NotificationState, new: NotificationState) -> Option<Notice> {
    if new != old && new == NotificationState::Used50 {
        Some(Notice::Warn50)
    } else if new != old && new == NotificationState::Used90 {
        Some(Notice::Warn90)
    } else {
        None
    }
}

/// Order of the warning levels.
pub open spec fn rank(level: NotificationState) -> nat {
    match level {
        NotificationState::Quiet => 0,
        NotificationState::Used50 => 1,
        NotificationState::Used90 => 2,
        NotificationState::Used100 => 3,
    }
}

pub open spec fn next_epoch(e: u64) -> u64 {
    if e == u64::MAX {
        0
    } else {
        (e + 1) as u64
    }
}

fn next_epoch_exec(e: u64) -> (r: u64)
    ensures
        r == next_epoch(e),
{
    if e == u64::MAX {
        0
    } else {
        e + 1
    }
}

/// What the store holds, apart from the loops' epoch counters.
pub struct StoreView {
    pub username: Seq<char>,
    pub password: Seq<char>,
    pub cookie: Seq<char>,
    pub csrf: Seq<char>,
    pub traffic: Seq<AmountModel>,
    pub traffic_units: Seq<Seq<char>>,
    pub level: NotificationState,
    pub login_guard: Option<u64>,
    pub traffic_guard: Option<u64>,
}

/// What `delete` leaves: no credentials, no figures, no warning, no loop.
pub open spec fn deleted(v: StoreView) -> StoreView {
    StoreView {
        username: Seq::empty(),
        password: Seq::empty(),
        traffic: Seq::new(5, |k: int| (0nat, 0nat)),
        traffic_units: Seq::new(5, |k: int| Seq::<char>::empty()),
        level: NotificationState::Quiet,
        login_guard: None,
        traffic_guard: None,
        ..v
    }
}

/// The agent's state. Each loop has at most one pending tick, its guard:
/// the epoch that the tick was armed in. Cancelling a loop moves its epoch
/// on, so that a tick still under way finds itself stale and does not
/// arm another.
#[derive(Debug)]
pub struct Store {
    pub endpoints: Endpoints,
    pub credentials: Credentials,
    pub cookie: String,
    pub csrf: String,
    pub traffic: TrafficStats,
    pub traffic_units: TrafficUnits,
    pub last_notification_state: NotificationState,
    pub login_guard: Option<u64>,
    pub traffic_guard: Option<u64>,
    pub login_epoch: u64,
    pub traffic_epoch: u64,
}

/// How the agent starts: the tickets of the two loops to run, or `None`
/// (no credentials: show the window instead); and the tray icon to show.
#[derive(Debug, Clone, Copy)]
pub struct Startup {
    pub loops: Option<(u64, u64)>,
    pub icon: Icon,
}

/// What saving credentials asks of the caller.
#[derive(Debug)]
pub struct SaveEffects {
    /// To write to the credentials file.
    pub file_text: String,
    /// Tickets of the fresh login and traffic loops, to run at once.
    pub login_ticket: u64,
    pub traffic_ticket: u64,
    pub notice: Notice,
}

impl Store {
    /// The figures are well formed, and each loop's guard, if armed, is its
    /// current epoch: at most one tick of each loop is pending, and it belongs
    /// to the loop as it now runs.
    pub open spec fn wf(&self) -> bool {
        &&& self.traffic.wf()
        &&& self.login_guard is Some ==> self.login_guard == Some(self.login_epoch)
        &&& self.traffic_guard is Some ==> self.traffic_guard == Some(self.traffic_epoch)
    }

    pub open spec fn view(&self) -> StoreView {
        StoreView {
            username: self.credentials.username@,
            password: self.credentials.password@,
            cookie: self.cookie@,
            csrf: self.csrf@,
            traffic: self.traffic@,
            traffic_units: self.traffic_units@,
            level: self.last_notification_state,
            login_guard: self.login_guard,
            traffic_guard: self.traffic_guard,
        }
    }

    /// The store once a login tick with `ticket` has started: a tick that
    /// holds the guard takes it; a stale one changes nothing.
    pub open spec fn login_begun(self, ticket: u64) -> Store {
        if self.login_guard == Some(ticket) {
            Store { login_guard: None, ..self }
        } else {
            self
        }
    }

    pub open spec fn traffic_begun(self, ticket: u64) -> Store {
        if self.traffic_guard == Some(ticket) {
            Store { traffic_guard: None, ..self }
        } else {
            self
        }
    }

    /// Whether a tick with `ticket` may arm the next one: its loop has not
    /// been cancelled since, and nothing is armed.
    pub open spec fn login_may_rearm(self, ticket: u64) -> bool {
        self.login_epoch == ticket && self.login_guard is None
    }

    pub open spec fn traffic_may_rearm(self, ticket: u64) -> bool {
        self.traffic_epoch == ticket && self.traffic_guard is None
    }

    /// The store once a login tick with `ticket` has ended, arming the next
    /// tick if `rearm` asks and the loop is still its own.
    pub open spec fn login_finished(self, ticket: u64, rearm: bool) -> Store {
        if rearm && self.login_may_rearm(ticket) {
            Store { login_guard: Some(ticket), ..self }
        } else {
            self
        }
    }

    pub open spec fn traffic_finished(self, ticket: u64, rearm: bool) -> Store {
        if rearm && self.traffic_may_rearm(ticket) {
            Store { traffic_guard: Some(ticket), ..self }
        } else {
            self
        }
    }

    /// The store with both loops cancelled and a fresh pair armed.
    pub open spec fn restarted(self) -> Store {
        Store {
            login_epoch: next_epoch(self.login_epoch),
            traffic_epoch: next_epoch(self.traffic_epoch),
            login_guard: Some(next_epoch(self.login_epoch)),
            traffic_guard: Some(next_epoch(self.traffic_epoch)),
            ..self
        }
    }

    pub fn new(endpoints: Endpoints, credentials: Credentials) -> (r: Store)
        ensures
            r.wf(),
            r.endpoints == endpoints,
            r.credentials == credentials,
            r.cookie@.len() == 0,
            r.csrf@.len() == 0,
            r.traffic@ == Seq::new(5, |k: int| (0nat, 0nat)),
            r.traffic_units@ == Seq::new(5, |k: int| Seq::<char>::empty()),
            r.last_notification_state == NotificationState::Quiet,
            r.login_guard is None,
            r.traffic_guard is None,
            r.login_epoch == 0,
            r.traffic_epoch == 0,
    {
        let traffic = TrafficStats::zero();
        let traffic_units = TrafficUnits::empty();
        assert(traffic@ =~= Seq::new(5, |k: int| (0nat, 0nat)));
        Store {
            endpoints,
            credentials,
            cookie: String::new(),
            csrf: String::new(),
            traffic,
            traffic_units,
            last_notification_state: NotificationState::Quiet,
            login_guard: None,
            traffic_guard: None,
            login_epoch: 0,
            traffic_epoch: 0,
        }
    }

    /// Cancels both loops and arms a fresh pair; gives their tickets.
    pub fn start_loops(&mut self) -> (r: (u64, u64))
        requires
            old(self).wf(),
        ensures
            final(self).wf(),
            *final(self) == old(self).restarted(),
            r == (final(self).login_epoch, final(self).traffic_epoch),
    {
        self.login_epoch = next_epoch_exec(self.login_epoch);
        self.traffic_epoch = next_epoch_exec(self.traffic_epoch);
        self.login_guard = Some(self.login_epoch);
        self.traffic_guard = Some(self.traffic_epoch);
        (self.login_epoch, self.traffic_epoch)
    }

    /// A store for the agent's start, from the credentials file's contents
    /// (`None`: no file). With credentials both loops start at once; without,
    /// nothing runs and the window is to be shown.
    pub fn startup(endpoints: Endpoints, file: Option<&str>) -> (r: (Store, Startup))
        ensures
            r.0.wf(),
            r.0.endpoints == endpoints,
            r.1.icon == Icon::Inactive,
            r.0.last_notification_state == NotificationState::Quiet,
            match load_result(str_view(file)) {
                Ok((u, p)) => r.0.credentials.username@ == u && r.0.credentials.password@ == p
                    && r.1.loops == Some((r.0.login_epoch, r.0.traffic_epoch))
                    && r.0.login_guard == Some(r.0.login_epoch) && r.0.traffic_guard == Some(
                    r.0.traffic_epoch,
                ),
                Err(_) => r.0.credentials.username@.len() == 0
                    && r.0.credentials.password@.len() == 0 && r.1.loops is None
                    && r.0.login_guard is None && r.0.traffic_guard is None,
            },
    {
        match load_creds(file) {
            Ok(creds) => {
                let mut store = Store::new(endpoints, creds);
                let tickets = store.start_loops();
                (store, Startup { loops: Some(tickets), icon: Icon::Inactive })
            },
            Err(_) => {
                let store = Store::new(endpoints, Credentials::empty());
                (store, Startup { loops: None, icon: Icon::Inactive })
            },
        }
    }

    /// Starts a login tick with `ticket`; `false`: the tick is stale and
    /// does nothing.
    pub fn begin_login_tick(&mut self, ticket: u64) -> (r: bool)
        requires
            old(self).wf(),
        ensures
            final(self).wf(),
            r == (old(self).login_guard == Some(ticket)),
            r ==> old(self).login_epoch == ticket,
            *final(self) == old(self).login_begun(ticket),
    {
        if self.login_guard == Some(ticket) {
            self.login_guard = None;
            true
        } else {
            false
        }
    }

    /// Starts a traffic tick with `ticket`; `false`: the tick is stale.
    pub fn begin_traffic_tick(&mut self, ticket: u64) -> (r: bool)
        requires
            old(self).wf(),
        ensures
            final(self).wf(),
            r == (old(self).traffic_guard == Some(ticket)),
            r ==> old(self).traffic_epoch == ticket,
            *final(self) == old(self).traffic_begun(ticket),
    {
        if self.traffic_guard == Some(ticket) {
            self.traffic_guard = None;
            true
        } else {
            false
        }
    }

    fn finish_login(
        &mut self,
        ticket: u64,
        notice: Option<Notice>,
        icon: Option<Icon>,
        rearm: bool,
    ) -> (r: LoginAction)
        ensures
            *final(self) == old(self).login_finished(ticket, rearm),
            r == LoginAction::Finish(
                LoginEnd {
                    notice,
                    icon,
                    next_ms: if rearm && old(self).login_may_rearm(ticket) {
                        Some(LOGIN_PERIOD_MS)
                    } else {
                        None
                    },
                },
            ),
    {
        if rearm && self.login_epoch == ticket && self.login_guard.is_none() {
            self.login_guard = Some(ticket);
            LoginAction::Finish(LoginEnd { notice, icon, next_ms: Some(LOGIN_PERIOD_MS) })
        } else {
            LoginAction::Finish(LoginEnd { notice, icon, next_ms: None })
        }
    }

    fn finish_traffic(&mut self, ticket: u64, notice: Option<Notice>, publish: bool) -> (r: TrafficAction)
        ensures
            *final(self) == old(self).traffic_finished(ticket, true),
            r == TrafficAction::Finish(
                TrafficEnd {
                    notice,
                    publish,
                    next_ms: if old(self).traffic_may_rearm(ticket) {
                        Some(TRAFFIC_PERIOD_MS)
                    } else {
                        None
                    },
                },
            ),
    {
        if self.traffic_epoch == ticket && self.traffic_guard.is_none() {
            self.traffic_guard = Some(ticket);
            TrafficAction::Finish(TrafficEnd { notice, publish, next_ms: Some(TRAFFIC_PERIOD_MS) })
        } else {
            TrafficAction::Finish(TrafficEnd { notice, publish, next_ms: None })
        }
    }

    /// Login tick, after probing the portal: go on if it is reachable,
    /// else try again next tick.
    pub fn on_reachable(&mut self, ticket: u64, reachable: bool) -> (r: LoginAction)
        requires
            old(self).wf(),
        ensures
            final(self).wf(),
            reachable ==> r == LoginAction::ProbeInternet && *final(self) == *old(self),
            !reachable ==> *final(self) == old(self).login_finished(ticket, true) && r
                == LoginAction::Finish(
                LoginEnd {
                    notice: None,
                    icon: None,
                    next_ms: if old(self).login_may_rearm(ticket) {
                        Some(LOGIN_PERIOD_MS)
                    } else {
                        None
                    },
                },
            ),
    {
        if reachable {
            LoginAction::ProbeInternet
        } else {
            self.finish_login(ticket, None, None, true)
        }
    }

    /// Login tick, after probing the internet: if it answers, the host is
    /// already through the portal; else log in.
    pub fn on_internet(&mut self, ticket: u64, online: bool) -> (r: LoginAction)
        requires
            old(self).wf(),
        ensures
            final(self).wf(),
            !online ==> r == LoginAction::SendLogin && *final(self) == *old(self),
            online ==> *final(self) == old(self).login_finished(ticket, true) && r
                == LoginAction::Finish(
                LoginEnd {
                    notice: None,
                    icon: level_icon(old(self).last_notification_state),
                    next_ms: if old(self).login_may_rearm(ticket) {
                        Some(LOGIN_PERIOD_MS)
                    } else {
                        None
                    },
                },
            ),
    {
        if online {
            let icon = level_icon_exec(self.last_notification_state);
            self.finish_login(ticket, None, icon, true)
        } else {
            LoginAction::SendLogin
        }
    }

    /// Login tick, after the login request (`None`: no reply arrived). A live
    /// session keeps the loop going; any other answer stops it until the
    /// user acts.
    pub fn on_login_reply(&mut self, ticket: u64, body: Option<&str>) -> (r: LoginAction)
        requires
            old(self).wf(),
        ensures
            final(self).wf(),
            ({
                let o = login_outcome(str_view(body));
                let live = o == LoginOutcome::Live;
                &&& *final(self) == old(self).login_finished(ticket, live)
                &&& r == LoginAction::Finish(
                    LoginEnd {
                        notice: Some(outcome_notice(o)),
                        icon: if live {
                            level_icon(old(self).last_notification_state)
                        } else {
                            Some(Icon::Inactive)
                        },
                        next_ms: if live && old(self).login_may_rearm(ticket) {
                            Some(LOGIN_PERIOD_MS)
                        } else {
                            None
                        },
                    },
                )
            }),
    {
        let outcome = match body {
            Some(b) => classify_login(b),
            None => LoginOutcome::Unknown,
        };
        match outcome {
            LoginOutcome::Live => {
                let icon = level_icon_exec(self.last_notification_state);
                self.finish_login(ticket, Some(Notice::Connected), icon, true)
            },
            LoginOutcome::InvalidCredentials => self.finish_login(
                ticket,
                Some(Notice::IncorrectCredentials),
                Some(Icon::Inactive),
                false,
            ),
            LoginOutcome::QuotaExceeded => self.finish_login(
                ticket,
                Some(Notice::LimitExceeded),
                Some(Icon::Inactive),
                false,
            ),
            LoginOutcome::Unknown => self.finish_login(
                ticket,
                Some(Notice::LoginIssue),
                Some(Icon::Inactive),
                false,
            ),
        }
    }

    /// Traffic tick, after probing the portal.
    pub fn on_traffic_reachable(&mut self, ticket: u64, reachable: bool) -> (r: TrafficAction)
        requires
            old(self).wf(),
        ensures
            final(self).wf(),
            reachable ==> r == TrafficAction::RequestCookie && *final(self) == *old(self),
            !reachable ==> *final(self) == old(self).traffic_finished(ticket, true) && r
                == TrafficAction::Finish(
                TrafficEnd {
                    notice: None,
                    publish: false,
                    next_ms: if old(self).traffic_may_rearm(ticket) {
                        Some(TRAFFIC_PERIOD_MS)
                    } else {
                        None
                    },
                },
            ),
    {
        if reachable {
            TrafficAction::RequestCookie
        } else {
            self.finish_traffic(ticket, None, false)
        }
    }

    /// Traffic tick, after opening a portal session: `header` is its
    /// `Set-Cookie` header (`None`: no reply, or no such header).
    pub fn on_cookie(&mut self, ticket: u64, header: Option<&str>) -> (r: TrafficAction)
        requires
            old(self).wf(),
        ensures
            final(self).wf(),
            match header {
                Some(h) => r == TrafficAction::RequestIndex && final(self).cookie@ == cookie_of(h@)
                    && *final(self) == (Store { cookie: final(self).cookie, ..*old(self) }),
                None => *final(self) == old(self).traffic_finished(ticket, true) && r
                    == TrafficAction::Finish(
                    TrafficEnd {
                        notice: None,
                        publish: false,
                        next_ms: if old(self).traffic_may_rearm(ticket) {
                            Some(TRAFFIC_PERIOD_MS)
                        } else {
                            None
                        },
                    },
                ),
            },
    {
        match header {
            Some(h) => {
                self.cookie = session_cookie(h);
                TrafficAction::RequestIndex
            },
            None => self.finish_traffic(ticket, None, false),
        }
    }

    /// Traffic tick, after fetching the account index page (`None`: no
    /// reply): keep its CSRF token, if it has one.
    pub fn on_index(&mut self, ticket: u64, page: Option<&str>) -> (r: TrafficAction)
        requires
            old(self).wf(),
        ensures
            final(self).wf(),
            ({
                let token = match page {
                    Some(p) => csrf_of_page(p@),
                    None => None,
                };
                match token {
                    Some(c) => r == TrafficAction::RequestStatus && final(self).csrf@ == c
                        && *final(self) == (Store { csrf: final(self).csrf, ..*old(self) }),
                    None => *final(self) == old(self).traffic_finished(ticket, true) && r
                        == TrafficAction::Finish(
                        TrafficEnd {
                            notice: None,
                            publish: false,
                            next_ms: if old(self).traffic_may_rearm(ticket) {
                                Some(TRAFFIC_PERIOD_MS)
                            } else {
                                None
                            },
                        },
                    ),
                }
            }),
    {
        let token = match page {
            Some(p) => extract_csrf(p),
            None => None,
        };
        match token {
            Some(c) => {
                self.csrf = c;
                TrafficAction::RequestStatus
            },
            None => self.finish_traffic(ticket, None, false),
        }
    }

    /// Takes in freshly read figures: stores them and their units, moves the
    /// warning level to their band, and gives the warning that the move
    /// raises.
    pub fn apply_quota(&mut self, stats: TrafficStats, units: TrafficUnits) -> (r: Option<Notice>)
        requires
            old(self).wf(),
            stats.wf(),
        ensures
            final(self).wf(),
            final(self).traffic == stats,
            final(self).traffic_units == units,
            final(self).traffic@.len() == 5,
            final(self).traffic_units@.len() == 5,
            final(self).last_notification_state == band(stats.used@, stats.total@),
            r == warning_for(old(self).last_notification_state, band(stats.used@, stats.total@)),
            *final(self) == (Store {
                traffic: stats,
                traffic_units: units,
                last_notification_state: final(self).last_notification_state,
                ..*old(self)
            }),
    {
        let level = notification_state(&stats);
        let notice = if level != self.last_notification_state && level
            == NotificationState::Used50 {
            Some(Notice::Warn50)
        } else if level != self.last_notification_state && level == NotificationState::Used90 {
            Some(Notice::Warn90)
        } else {
            None
        };
        self.traffic = stats;
        self.traffic_units = units;
        self.last_notification_state = level;
        notice
    }

    /// Traffic tick, after fetching the account status page (`None`: no
    /// reply). Figures that read well are taken in and pushed to the window;
    /// either way the next tick is armed.
    pub fn on_status(&mut self, ticket: u64, page: Option<&str>) -> (r: TrafficAction)
        requires
            old(self).wf(),
        ensures
            final(self).wf(),
            ({
                let q = match page {
                    Some(p) => quota_of(p@),
                    None => Err(crate::quota::ParseError::MissingTable),
                };
                match q {
                    Ok((s, u)) => {
                        let level = band(s[3], s[0]);
                        &&& final(self).traffic@ == s
                        &&& final(self).traffic_units@ == u
                        &&& *final(self) == (Store {
                            traffic: final(self).traffic,
                            traffic_units: final(self).traffic_units,
                            last_notification_state: level,
                            ..old(self).traffic_finished(ticket, true)
                        })
                        &&& r == TrafficAction::Finish(
                            TrafficEnd {
                                notice: warning_for(old(self).last_notification_state, level),
                                publish: true,
                                next_ms: if old(self).traffic_may_rearm(ticket) {
                                    Some(TRAFFIC_PERIOD_MS)
                                } else {
                                    None
                                },
                            },
                        )
                    },
                    Err(_) => *final(self) == old(self).traffic_finished(ticket, true) && r
                        == TrafficAction::Finish(
                        TrafficEnd {
                            notice: None,
                            publish: false,
                            next_ms: if old(self).traffic_may_rearm(ticket) {
                                Some(TRAFFIC_PERIOD_MS)
                            } else {
                                None
                            },
                        },
                    ),
                }
            }),
    {
        let html = match page {
            Some(p) => p,
            None => {
                return self.finish_traffic(ticket, None, false);
            },
        };
        match parse_quota(html) {
            Ok((stats, units)) => {
                let notice = self.apply_quota(stats, units);
                self.finish_traffic(ticket, notice, true)
            },
            Err(_) => self.finish_traffic(ticket, None, false),
        }
    }

    /// Takes new credentials: they replace the old ones, the warning level
    /// starts over, and both loops restart at once.
    pub fn save(&mut self, creds: Credentials) -> (r: SaveEffects)
        requires
            old(self).wf(),
        ensures
            final(self).wf(),
            r.file_text@ == credentials_text(creds.username@, creds.password@),
            r.notice == Notice::CredentialsSaved,
            *final(self) == (Store {
                credentials: creds,
                last_notification_state: NotificationState::Quiet,
                ..old(self).restarted()
            }),
            r.login_ticket == final(self).login_epoch,
            r.traffic_ticket == final(self).traffic_epoch,
    {
        let file_text = save_creds(&creds);
        self.credentials = creds;
        self.last_notification_state = NotificationState::Quiet;
        let (login_ticket, traffic_ticket) = self.start_loops();
        SaveEffects { file_text, login_ticket, traffic_ticket, notice: Notice::CredentialsSaved }
    }

    /// Forces both loops to restart; `None` when there are no credentials to
    /// log in with (the window is to be shown instead).
    pub fn reconnect(&mut self) -> (r: Option<(u64, u64)>)
        requires
            old(self).wf(),
        ensures
            final(self).wf(),
            old(self).credentials.username@.len() == 0 || old(self).credentials.password@.len()
                == 0 ==> r is None && *final(self) == *old(self),
            !(old(self).credentials.username@.len() == 0
                || old(self).credentials.password@.len() == 0) ==> *final(self) == old(
                self,
            ).restarted() && r == Some((final(self).login_epoch, final(self).traffic_epoch)),
    {
        if self.credentials.is_blank() {
            None
        } else {
            Some(self.start_loops())
        }
    }

    /// Stops the login loop before a logout; gives the username to log out.
    pub fn begin_logout(&mut self) -> (r: String)
        requires
            old(self).wf(),
        ensures
            final(self).wf(),
            r@ == old(self).credentials.username@,
            *final(self) == (Store {
                login_epoch: next_epoch(old(self).login_epoch),
                login_guard: None,
                ..*old(self)
            }),
    {
        self.login_epoch = next_epoch_exec(self.login_epoch);
        self.login_guard = None;
        self.credentials.username.clone()
    }

    /// Forgets the credentials, the figures and the warning level, and stops
    /// both loops.
    pub fn delete(&mut self)
        requires
            old(self).wf(),
        ensures
            final(self).wf(),
            final(self)@ == deleted(old(self)@),
            final(self).endpoints == old(self).endpoints,
    {
        self.login_epoch = next_epoch_exec(self.login_epoch);
        self.traffic_epoch = next_epoch_exec(self.traffic_epoch);
        self.login_guard = None;
        self.traffic_guard = None;
        self.credentials = Credentials::empty();
        self.traffic = TrafficStats::zero();
        self.traffic_units = TrafficUnits::empty();
        self.last_notification_state = NotificationState::Quiet;
        assert(self.traffic@ =~= Seq::new(5, |k: int| (0nat, 0nat)));
        assert(self@ == deleted(old(self)@));
    }
}

/// The tray icon and notification after a logout request (`None`: no reply
/// arrived). The portal confirms a logout with `LOGIN` in its reply.
pub fn logout_result(body: Option<&str>) -> (r: (Option<Icon>, Notice))
    ensures
        ({
            let ok = match body {
                Some(b) => contains(b@, "LOGIN"@),
                None => false,
            };
            r == if ok {
                (Some(Icon::Inactive), Notice::LoggedOut)
            } else {
                (None::<Icon>, Notice::LogoutFailed)
            }
        }),
{
    let ok = match body {
        Some(b) => logout_succeeded(b),
        None => false,
    };
    if ok {
        (Some(Icon::Inactive), Notice::LoggedOut)
    } else {
        (None, Notice::LogoutFailed)
    }
}

/// In a well-formed store, a tick that holds its loop's guard leaves exactly
/// one guard behind if it arms the next tick and none if it stops the loop,
/// when nothing cancels the loop while it runs; the other loop's guard stays
/// as it was, and the store stays well formed.
pub proof fn lemma_tick_leaves_one_guard(s: Store, ticket: u64, rearm: bool)
    requires
        s.wf(),
    ensures
        s.login_guard == Some(ticket) ==> {
            let after = s.login_begun(ticket).login_finished(ticket, rearm);
            &&& after.login_guard == (if rearm {
                Some(ticket)
            } else {
                None
            })
            &&& after.traffic_guard == s.traffic_guard
            &&& after.wf()
        },
        s.traffic_guard == Some(ticket) ==> {
            let after = s.traffic_begun(ticket).traffic_finished(ticket, rearm);
            &&& after.traffic_guard == (if rearm {
                Some(ticket)
            } else {
                None
            })
            &&& after.login_guard == s.login_guard
            &&& after.wf()
        },
{
}

/// Deleting twice leaves the store as deleting once does.
pub proof fn lemma_delete_idempotent(v: StoreView)
    ensures
        deleted(deleted(v)) == deleted(v),
{
}

/// Used share of the quota, `used / total`, as the pair `(used * d, total * d)`
/// over the common denominator `d` of the two figures.
pub open spec fn share(used: AmountModel, total: AmountModel) -> (nat, nat) {
    (used.0 * crate::quota::pow10(total.1), total.0 * crate::quota::pow10(used.1))
}

/// The warning level never drops while the used share of the quota does not
/// drop (as within one session, where usage only grows): from a positive
/// total, a share at least as large lands in a band at least as high.
pub proof fn lemma_level_monotone(
    used0: AmountModel,
    total0: AmountModel,
    used1: AmountModel,
    total1: AmountModel,
)
    requires
        share(used0, total0).1 > 0,
        share(used0, total0).0 * share(used1, total1).1 <= share(used1, total1).0 * share(
            used0,
            total0,
        ).1,
    ensures
        rank(band(used0, total0)) <= rank(band(used1, total1)),
{
    let (u0, t0) = share(used0, total0);
    let (u1, t1) = share(used1, total1);
    assert(u0 == used0.0 * crate::quota::pow10(total0.1));
    assert(t1 == total1.0 * crate::quota::pow10(used1.1));
    if t1 > 0 {
        assert(2 * u0 >= t0 ==> 2 * u1 >= t1) by (nonlinear_arith)
            requires
                t0 > 0,
                u0 * t1 <= u1 * t0,
        ;
        assert(10 * u0 >= 9 * t0 ==> 10 * u1 >= 9 * t1) by (nonlinear_arith)
            requires
                t0 > 0,
                u0 * t1 <= u1 * t0,
        ;
        assert(u0 >= t0 ==> u1 >= t1) by (nonlinear_arith)
            requires
                t0 > 0,
                u0 * t1 <= u1 * t0,
        ;
    }
}

} // verus!
