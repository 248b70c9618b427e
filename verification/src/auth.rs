//! The visible state of the device-code login.
//!
//! The login itself (device authorization, polling for the token, storing the
//! session) runs in the background; its reports arrive here as
//! [`AuthOutcome`]s and move the [`AuthPhase`] the interface shows.

use vstd::prelude::*;
use time::OffsetDateTime;
use crate::text::push_str;
use crate::toast::Level;

verus! {

/// The device-authorization details shown while waiting for approval.
#[derive(Debug)]
pub struct PendingLogin {
    /// The short code the user enters at the verification URL.
    pub user_code: String,
    /// The URL the user opens to enter the code.
    pub verification_uri: String,
    /// A URL with the code already in it, when the server offers one.
    pub verification_uri_complete: Option<String>,
}

/// The authentication state the interface shows.
#[derive(Debug)]
pub enum AuthPhase {
    /// No stored session.
    SignedOut,
    /// A device-authorization request is in flight.
    Starting,
    /// Waiting for the user to approve the displayed code.
    AwaitingApproval(PendingLogin),
    /// A session is stored.
    SignedIn {
        /// When the current access token expires, when known.
        expires_at: Option<OffsetDateTime>,
    },
    /// The last login attempt failed.
    Failed(String),
}

/// A report from the background login.
#[derive(Debug)]
pub enum AuthOutcome {
    /// Device authorization succeeded: show the code and keep waiting.
    Pending(PendingLogin),
    /// The user approved and the session was stored.
    Completed {
        /// When the stored session's access token expires.
        expires_at: Option<OffsetDateTime>,
    },
    /// The login failed.
    Failed(String),
}

/// A notice for the operator.
#[derive(Debug, Clone, PartialEq, Eq)]
pub struct Notice {
    /// How it is shown.
    pub level: Level,
    /// What it says.
    pub text: String,
}

/// Whether a phase is a login under way.
pub open spec fn in_progress(phase: AuthPhase) -> bool {
    phase is Starting || phase is AwaitingApproval
}

/// What asking to log in comes to.
#[derive(Debug, Clone, Copy, PartialEq, Eq, Structural)]
pub enum LoginStep {
    /// A session is stored: the operator must sign out first.
    AlreadySignedIn,
    /// A login is already under way: nothing to do.
    UnderWay,
    /// Start a login.
    Start,
}

/// The visible login state.
pub struct AuthState {
    phase: AuthPhase,
}

impl AuthState {
    /// The phase on show.
    pub closed spec fn current(&self) -> AuthPhase {
        self.phase
    }

    /// The state for a stored session (with its token expiry), or signed out
    /// when there is none.
    pub fn from_session(session: Option<Option<OffsetDateTime>>) -> (r: Self)
        ensures
            session is None ==> (r.current() is SignedOut),
            session is Some ==> r.current() == (AuthPhase::SignedIn { expires_at: session->Some_0 }),
    {
        match session {
            Some(expires_at) => AuthState { phase: AuthPhase::SignedIn { expires_at } },
            None => AuthState { phase: AuthPhase::SignedOut },
        }
    }

    /// The phase on show.
    pub fn phase(&self) -> (r: &AuthPhase)
        ensures
            *r == self.current(),
    {
        &self.phase
    }

    /// Whether a login is under way.
    pub fn is_in_progress(&self) -> (r: bool)
        ensures
            r == in_progress(self.current()),
    {
        match &self.phase {
            AuthPhase::Starting => true,
            AuthPhase::AwaitingApproval(_) => true,
            _ => false,
        }
    }

    /// Whether a session is stored.
    pub fn is_signed_in(&self) -> (r: bool)
        ensures
            r == (self.current() is SignedIn),
    {
        match &self.phase {
            AuthPhase::SignedIn { .. } => true,
            _ => false,
        }
    }

    /// What asking to log in comes to now.
    pub fn login_step(&self) -> (r: LoginStep)
        ensures
            self.current() is SignedIn ==> r == LoginStep::AlreadySignedIn,
            in_progress(self.current()) ==> r == LoginStep::UnderWay,
            !(self.current() is SignedIn) && !in_progress(self.current()) ==> r == LoginStep::Start,
    {
        match &self.phase {
            AuthPhase::SignedIn { .. } => LoginStep::AlreadySignedIn,
            AuthPhase::Starting => LoginStep::UnderWay,
            AuthPhase::AwaitingApproval(_) => LoginStep::UnderWay,
            _ => LoginStep::Start,
        }
    }

    /// Begin a login, unless one is under way or a session is stored. Returns
    /// whether the caller should now start the background login.
    pub fn start_login(&mut self) -> (started: bool)
        ensures
            started == (!in_progress(old(self).current()) && !(old(self).current() is SignedIn)),
            started ==> (final(self).current() is Starting),
            !started ==> final(self).current() == old(self).current(),
    {
        if self.is_in_progress() || self.is_signed_in() {
            return false;
        }
        self.phase = AuthPhase::Starting;
        true
    }

    /// Cancel a login under way, back to signed out; any other phase stays.
    pub fn cancel(&mut self)
        ensures
            in_progress(old(self).current()) ==> (final(self).current() is SignedOut),
            !in_progress(old(self).current()) ==> final(self).current() == old(self).current(),
    {
        if self.is_in_progress() {
            self.phase = AuthPhase::SignedOut;
        }
    }

    /// The stored session was cleared.
    pub fn signed_out(&mut self) -> (notice: Notice)
        ensures
            (final(self).current() is SignedOut),
            notice.level == Level::Info,
            notice.text@ == "Signed out."@,
    {
        self.phase = AuthPhase::SignedOut;
        Notice { level: Level::Info, text: "Signed out.".to_owned() }
    }

    /// Fold in a report from the background login, with the notice it calls
    /// for, if any.
    pub fn apply_outcome(&mut self, outcome: AuthOutcome) -> (notice: Option<Notice>)
        ensures
            match outcome {
                AuthOutcome::Pending(pending) => final(self).current()
                    == AuthPhase::AwaitingApproval(pending) && notice is None,
                AuthOutcome::Completed { expires_at } => final(self).current()
                    == (AuthPhase::SignedIn { expires_at }) && notice is Some
                    && notice->Some_0.level == Level::Info && notice->Some_0.text@ == "Signed in."@,
                AuthOutcome::Failed(message) => final(self).current() == AuthPhase::Failed(message)
                    && notice is Some && notice->Some_0.level == Level::Error
                    && notice->Some_0.text@ == "Login failed: "@ + message@,
            },
    {
        match outcome {
            AuthOutcome::Pending(pending) => {
                self.phase = AuthPhase::AwaitingApproval(pending);
                None
            },
            AuthOutcome::Completed { expires_at } => {
                self.phase = AuthPhase::SignedIn { expires_at };
                Some(Notice { level: Level::Info, text: "Signed in.".to_owned() })
            },
            AuthOutcome::Failed(message) => {
                let mut text = String::new();
                push_str(&mut text, "Login failed: ");
                push_str(&mut text, message.as_str());
                self.phase = AuthPhase::Failed(message);
                Some(Notice { level: Level::Error, text })
            },
        }
    }
}

/// The notice when clearing the stored session failed with `error`.
pub fn sign_out_failed(error: &str) -> (notice: Notice)
    ensures
        notice.level == Level::Error,
        notice.text@ == "Sign-out failed: "@ + error@,
{
    let mut text = String::new();
    push_str(&mut text, "Sign-out failed: ");
    push_str(&mut text, error);
    Notice { level: Level::Error, text }
}

/// A login can always be cancelled back to signed out, and a cancelled login
/// can be started again.
pub proof fn lemma_cancel_then_start(phase: AuthPhase)
    requires
        in_progress(phase),
    ensures
        !in_progress(AuthPhase::SignedOut),
        !(AuthPhase::SignedOut is SignedIn),
{
}

} // verus!
