//! The launcher's own state and decisions: which screen to show, what to tell
//! the user and for how long, what a finished login changes, and whether the
//! game may be launched.
//!
//! Time is a count of seconds on a clock of the caller's that never runs
//! backwards.

use vstd::prelude::*;
use crate::account::AccountView;
use crate::config::Params;
use crate::config::ParamsView;
use crate::credentials::Credentials;
use crate::credentials::CredentialsView;
use crate::error::AuthError;
use crate::error::ErrorView;
use crate::gate::launch_outcome;
use crate::gate::BlockReason;
use crate::gate::GateResult;
use crate::gateway::account_request_of;
use crate::gateway::Request;
use crate::gateway::RequestView;
use crate::model::option_view;
use crate::model::result_view;
use crate::login::login;
use crate::login::AuthController;
use crate::login::FlowView;
use crate::login::LoginFlow;

verus! {

/// For how many seconds an error stays on the screen.
pub const BANNER_SECONDS: u64 = 5;

/// The two screens of the launcher.
#[derive(Clone, Copy, Debug, PartialEq, Eq, Structural)]
pub enum Screen {
    /// The form that asks for credentials.
    Login,
    /// The screen from which the game is started.
    Play,
}

/// The state of the launcher.
pub struct Launcher {
    auth: Credentials,
    auth_save: bool,
    auth_con: Option<AuthController>,
    gate: GateResult,
    result: Result<(), AuthError>,
    time: u64,
}

/// The model of a [`Launcher`].
pub struct LauncherView {
    /// The credentials in the login form.
    pub auth: CredentialsView,
    /// Whether credentials that logged in are to be stored.
    pub auth_save: bool,
    /// The session, once there is one.
    pub auth_con: Option<AccountView>,
    /// The decision on the installed build.
    pub gate: GateResult,
    /// How the last operation ended.
    pub result: Result<(), ErrorView>,
    /// When it ended.
    pub time: u64,
}

impl View for Launcher {
    type V = LauncherView;

    closed spec fn view(&self) -> LauncherView {
        LauncherView {
            auth: self.auth@,
            auth_save: self.auth_save,
            auth_con: match self.auth_con {
                Some(controller) => Some(controller@),
                None => None,
            },
            gate: self.gate,
            result: match self.result {
                Ok(_) => Ok(()),
                Err(error) => Err(error@),
            },
            time: self.time,
        }
    }
}

/// The model of the update check at startup: none where none was made.
pub open spec fn check_view(check: Option<Result<GateResult, AuthError>>) -> Option<
    Result<GateResult, ErrorView>,
> {
    match check {
        Some(check) => Some(result_view(check)),
        None => None,
    }
}

/// The decision that the launcher goes by after the update check. Only a
/// check that found another build blocks; one that was not made, or could
/// not be made, does not.
pub open spec fn gate_after(check: Option<Result<GateResult, ErrorView>>) -> GateResult {
    match check {
        Some(Ok(gate)) => gate,
        _ => GateResult::Pass,
    }
}

/// What the launcher has to tell after the update check: that an update is
/// required, or that the check failed, or nothing.
pub open spec fn notice_after(check: Option<Result<GateResult, ErrorView>>) -> Result<(), ErrorView> {
    match check {
        Some(Ok(gate)) => launch_outcome(gate),
        Some(Err(error)) => Err(error),
        None => Ok(()),
    }
}

/// The model of what a finished login hands out: the credentials to store,
/// or the error.
pub open spec fn handed_view(done: Result<Option<Credentials>, AuthError>) -> Result<
    Option<CredentialsView>,
    ErrorView,
> {
    match done {
        Ok(store) => Ok(option_view(store)),
        Err(error) => Err(error@),
    }
}

impl LauncherView {
    /// The launcher as it starts: an empty form, credentials to be stored,
    /// no session, and what the update check gave.
    pub open spec fn started(check: Option<Result<GateResult, ErrorView>>, now: u64) -> LauncherView {
        LauncherView {
            auth: CredentialsView { username: Seq::empty(), password: Seq::empty() },
            auth_save: true,
            auth_con: None,
            gate: gate_after(check),
            result: notice_after(check),
            time: now,
        }
    }

    /// The screen to show: the play screen exactly when there is a session.
    pub open spec fn screen(self) -> Screen {
        if self.auth_con is Some {
            Screen::Play
        } else {
            Screen::Login
        }
    }

    /// The seconds since the last operation ended.
    pub open spec fn elapsed(self, now: u64) -> int {
        if now >= self.time {
            now - self.time
        } else {
            0
        }
    }

    /// The message on the screen: that of the last error, while it is less
    /// than five seconds old.
    pub open spec fn banner(self, now: u64) -> Option<Seq<char>> {
        match self.result {
            Err(error) => if self.elapsed(now) < BANNER_SECONDS {
                Some(error.message)
            } else {
                None
            },
            Ok(_) => None,
        }
    }

    /// The launcher after the stored credentials were looked up: what was
    /// found is in the form.
    pub open spec fn restored(self, stored: Option<CredentialsView>) -> LauncherView {
        match stored {
            Some(credentials) => LauncherView { auth: credentials, ..self },
            None => self,
        }
    }

    /// The launcher after a login succeeded with a session: it holds the
    /// session, and the last error is cleared.
    pub open spec fn logged_in(self, session: AccountView) -> LauncherView {
        LauncherView { auth_con: Some(session), result: Ok(()), ..self }
    }

    /// The launcher after a login ended. A failed login changes nothing.
    pub open spec fn finished(self, outcome: Result<AccountView, ErrorView>) -> LauncherView {
        match outcome {
            Ok(session) => self.logged_in(session),
            Err(_) => self,
        }
    }

    /// The credentials to store after a login succeeded: those of the form,
    /// if storing is wanted.
    pub open spec fn to_store(self) -> Option<CredentialsView> {
        if self.auth_save {
            Some(self.auth)
        } else {
            None
        }
    }

    /// What a login that ended hands out: the credentials to store, or the
    /// error it failed with.
    pub open spec fn handed_out(self, outcome: Result<AccountView, ErrorView>) -> Result<
        Option<CredentialsView>,
        ErrorView,
    > {
        match outcome {
            Ok(_) => Ok(self.to_store()),
            Err(error) => Err(error),
        }
    }

    /// Whether the game may be launched: with a session and a build that is
    /// not blocked.
    pub open spec fn may_launch(self) -> bool {
        self.auth_con is Some && self.gate == GateResult::Pass
    }
}

/// The login that starts when stored credentials were found: none without
/// them.
pub open spec fn restore_start(stored: Option<CredentialsView>, params: ParamsView) -> Option<
    (FlowView, RequestView),
> {
    match stored {
        Some(credentials) => Some(
            (FlowView::AwaitingAccount, account_request_of(credentials, params)),
        ),
        None => None,
    }
}

impl Launcher {
    /// The launcher at startup, with what the update check gave, or `None`
    /// where none was made.
    pub fn new(check: Option<Result<GateResult, AuthError>>, now: u64) -> (launcher: Launcher)
        ensures
            launcher@ == LauncherView::started(check_view(check), now),
    {
        proof {
            reveal_strlit("");
            assert(""@ =~= Seq::<char>::empty());
        }
        let (gate, result) = match check {
            Some(Ok(gate)) => (gate, gate.into_result()),
            Some(Err(error)) => (GateResult::Pass, Err(error)),
            None => (GateResult::Pass, Ok(())),
        };
        Launcher {
            auth: Credentials::new("", ""),
            auth_save: true,
            auth_con: None,
            gate,
            result,
            time: now,
        }
    }

    /// The credentials in the login form.
    pub fn auth(&self) -> (auth: &Credentials)
        ensures
            auth@ == self@.auth,
    {
        &self.auth
    }

    /// Puts credentials into the login form.
    pub fn set_auth(&mut self, credentials: Credentials)
        ensures
            final(self)@ == (LauncherView { auth: credentials@, ..old(self)@ }),
    {
        self.auth = credentials;
    }

    /// Says whether credentials that logged in are to be stored.
    pub fn set_auth_save(&mut self, save: bool)
        ensures
            final(self)@ == (LauncherView { auth_save: save, ..old(self)@ }),
    {
        self.auth_save = save;
    }

    /// The session, once there is one.
    pub fn controller(&self) -> (controller: Option<&AuthController>)
        ensures
            option_view(controller) == self@.auth_con,
    {
        self.auth_con.as_ref()
    }

    /// Restores a session at startup. With stored credentials, they go into
    /// the form and a login with them starts; without, nothing happens.
    pub fn restore(&mut self, stored: Option<Credentials>, params: &Params) -> (start: Option<
        (LoginFlow, Request),
    >)
        ensures
            final(self)@ == old(self)@.restored(option_view(stored)),
            option_view(start) == restore_start(option_view(stored), params@),
    {
        match stored {
            Some(credentials) => {
                self.auth = credentials;
                Some(self.begin_login(params))
            },
            None => None,
        }
    }

    /// Starts a login with the credentials in the form.
    pub fn begin_login(&self, params: &Params) -> (start: (LoginFlow, Request))
        ensures
            start@ == (FlowView::AwaitingAccount, account_request_of(self@.auth, params@)),
    {
        login(self.auth.username(), self.auth.password(), params)
    }

    /// Takes the result of a login. A session is kept, the last error is
    /// cleared, and the credentials to store are handed out if storing is
    /// wanted. A failure is handed back and changes nothing.
    pub fn finish_login(&mut self, outcome: Result<AuthController, AuthError>) -> (done: Result<
        Option<Credentials>,
        AuthError,
    >)
        ensures
            final(self)@ == old(self)@.finished(result_view(outcome)),
            handed_view(done) == old(self)@.handed_out(result_view(outcome)),
    {
        match outcome {
            Ok(controller) => {
                self.result = Ok(());
                self.auth_con = Some(controller);
                if self.auth_save {
                    Ok(Some(self.auth.clone()))
                } else {
                    Ok(None)
                }
            },
            Err(error) => Err(error),
        }
    }

    /// Ends the session.
    pub fn logout(&mut self)
        ensures
            final(self)@ == (LauncherView { auth_con: None, ..old(self)@ }),
    {
        self.auth_con = None;
    }

    /// Records an error, to be shown from now on.
    pub fn report(&mut self, error: AuthError, now: u64)
        ensures
            final(self)@ == (LauncherView { result: Err(error@), time: now, ..old(self)@ }),
    {
        self.result = Err(error);
        self.time = now;
    }

    /// The screen to show.
    pub fn screen(&self) -> (screen: Screen)
        ensures
            screen == self@.screen(),
    {
        if self.auth_con.is_some() {
            Screen::Play
        } else {
            Screen::Login
        }
    }

    /// The message to show at the bottom of the screen, if any.
    pub fn banner(&self, now: u64) -> (banner: Option<String>)
        ensures
            option_view(banner) == self@.banner(now),
    {
        match &self.result {
            Err(error) => {
                let elapsed: u64 = if now >= self.time {
                    now - self.time
                } else {
                    0
                };
                if elapsed < BANNER_SECONDS {
                    Some(error.message())
                } else {
                    None
                }
            },
            Ok(_) => None,
        }
    }

    /// The decision on the installed build.
    pub fn gate(&self) -> (gate: GateResult)
        ensures
            gate == self@.gate,
    {
        self.gate
    }

    /// Whether the game may be launched.
    pub fn may_launch(&self) -> (allowed: bool)
        ensures
            allowed == self@.may_launch(),
    {
        self.auth_con.is_some() && self.gate.is_pass()
    }
}

/// A blocked build does not stand in the way of a login, and a login does not
/// unblock the build: a launch needs both a session and a passing build.
pub proof fn lemma_launch_needs_session_and_gate(launcher: LauncherView, session: AccountView)
    ensures
        launcher.logged_in(session).screen() == Screen::Play,
        launcher.logged_in(session).may_launch() <==> launcher.gate == GateResult::Pass,
        launcher.auth_con is None ==> !launcher.may_launch(),
{
}

/// After startup the launch is blocked exactly when the update check found
/// another build than the installed one, and then the user is told that an
/// update is required. A check that failed blocks nothing.
pub proof fn lemma_only_a_mismatch_blocks(check: Option<Result<GateResult, ErrorView>>, now: u64)
    ensures
        LauncherView::started(check, now).gate != GateResult::Pass <==> check matches Some(
            Ok(GateResult::Blocked(_)),
        ),
        LauncherView::started(check, now).gate != GateResult::Pass ==> LauncherView::started(
            check,
            now,
        ).result == launch_outcome(GateResult::Blocked(BlockReason::UpdateAvailable)),
{
}

} // verus!
