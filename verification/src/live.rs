//! Values that arrive both from a poll and from a live socket, where the newer
//! one must win whichever way it came; and the signed-in operator's identity,
//! re-validated on a cadence.

use vstd::prelude::*;
use crate::clock::now;
use crate::polling::{due, Poller, IDENTITY_REVALIDATE_MS, STATUS_POLL_MS};
use crate::remote::{is_failed_with, Remote};

verus! {

/// A value with the time it describes, as nanoseconds since the Unix epoch.
#[derive(Debug)]
pub struct Stamped<T> {
    /// When the value was true.
    pub stamp: i128,
    /// The value.
    pub value: T,
}

/// The booth status on show, fed by a backup poll and by the live socket.
pub struct StatusView<T> {
    state: Remote<Stamped<T>>,
    poll: Poller,
}

/// Whether `state` shows `update` (fetched at some instant).
pub open spec fn shows<T>(state: Remote<Stamped<T>>, update: Stamped<T>) -> bool {
    state is Ready && state->value == update
}

/// The stamp of the value on show, if any.
pub open spec fn shown_stamp<T>(state: Remote<Stamped<T>>) -> Option<i128> {
    match state {
        Remote::Ready { value, .. } => Some(value.stamp),
        _ => None,
    }
}

/// Whether an update with `stamp` replaces what `state` shows: anything but a
/// value older than the one on show does.
pub open spec fn replaces<T>(state: Remote<Stamped<T>>, stamp: i128) -> bool {
    match shown_stamp(state) {
        Some(current) => stamp >= current,
        None => true,
    }
}

impl<T> StatusView<T> {
    /// The status on show.
    pub closed spec fn remote(&self) -> Remote<Stamped<T>> {
        self.state
    }

    /// The poll's timing.
    pub closed spec fn poller(&self) -> Poller {
        self.poll
    }

    /// Nothing loaded.
    pub fn new() -> (r: Self)
        ensures
            r.remote() is Idle,
            !r.poller().busy(),
            !r.poller().has_run(),
    {
        StatusView { state: Remote::Idle, poll: Poller::new() }
    }

    /// The status on show.
    pub fn state(&self) -> (r: &Remote<Stamped<T>>)
        ensures
            *r == self.remote(),
    {
        &self.state
    }

    /// Whether a poll is in flight.
    pub fn is_refreshing(&self) -> (r: bool)
        ensures
            r == self.poller().busy(),
    {
        self.poll.is_refreshing()
    }

    /// Ask for a poll; returns whether the caller should now make it. A first
    /// poll, or one after a failure, shows `Loading` meanwhile.
    pub fn begin(&mut self) -> (started: bool)
        ensures
            started == !old(self).poller().busy(),
            final(self).poller().busy(),
            final(self).poller().has_run() == old(self).poller().has_run(),
            !started ==> final(self).remote() == old(self).remote(),
            started ==> final(self).remote() == crate::remote::loading_from(old(self).remote()),
    {
        let started = self.poll.begin();
        if started {
            let idle_or_failed = match &self.state {
                Remote::Idle => true,
                Remote::Failed { .. } => true,
                _ => false,
            };
            if idle_or_failed {
                self.state = Remote::Loading;
            }
        }
        started
    }

    /// Whether the focused screen should poll now: never while one is in
    /// flight, at once before the first, then every [`STATUS_POLL_MS`].
    pub fn is_due(&self) -> (r: bool)
        ensures
            exists|since: Option<u128>|
                (since is None <==> !self.poller().has_run()) && r == #[trigger] due(
                    self.poller().busy(),
                    since,
                    STATUS_POLL_MS,
                ),
    {
        let r = self.poll.is_due(STATUS_POLL_MS);
        proof {
            let since = choose|since: Option<u128>|
                (since is None <==> !self.poll.has_run()) && r == #[trigger] due(
                    self.poll.busy(),
                    since,
                    STATUS_POLL_MS,
                );
            assert(r == due(self.poller().busy(), since, STATUS_POLL_MS));
        }
        r
    }

    /// Show `update` unless the status on show is newer.
    pub fn apply_status(&mut self, update: Stamped<T>)
        ensures
            final(self).poller() == old(self).poller(),
            replaces(old(self).remote(), update.stamp) ==> shows(final(self).remote(), update),
            !replaces(old(self).remote(), update.stamp) ==> final(self).remote() == old(
                self,
            ).remote(),
    {
        let newer = match &self.state {
            Remote::Ready { value, .. } => update.stamp >= value.stamp,
            _ => true,
        };
        if newer {
            self.state = Remote::Ready { value: update, fetched_at: now() };
        }
    }

    /// Fold in the result of the poll in flight. A failure is only shown when
    /// no status is on show: a stale error never hides a good value.
    pub fn apply(&mut self, result: Result<Stamped<T>, String>)
        ensures
            !final(self).poller().busy(),
            final(self).poller().has_run(),
            match result {
                Ok(update) => if replaces(old(self).remote(), update.stamp) {
                    shows(final(self).remote(), update)
                } else {
                    final(self).remote() == old(self).remote()
                },
                Err(error) => if old(self).remote() is Ready {
                    final(self).remote() == old(self).remote()
                } else {
                    is_failed_with(final(self).remote(), error@)
                },
            },
    {
        self.poll.finish();
        match result {
            Ok(update) => self.apply_status(update),
            Err(error) => {
                let ready = match &self.state {
                    Remote::Ready { .. } => true,
                    _ => false,
                };
                if !ready {
                    self.state = Remote::Failed { error, at: now() };
                }
            },
        }
    }

    /// The poll ended without a result; allow a new one.
    pub fn abandon(&mut self)
        ensures
            !final(self).poller().busy(),
            final(self).poller().has_run() == old(self).poller().has_run(),
            final(self).remote() == old(self).remote(),
    {
        self.poll.abandon();
    }
}

/// The status on show never goes back in time: whatever arrives, the stamp on
/// show after an update is at least the one before.
pub proof fn lemma_status_never_regresses<T>(
    before: Remote<Stamped<T>>,
    after: Remote<Stamped<T>>,
    update: Stamped<T>,
)
    requires
        before is Ready,
        replaces(before, update.stamp) ==> shows(after, update),
        !replaces(before, update.stamp) ==> after == before,
    ensures
        after is Ready,
        shown_stamp(after)->Some_0 >= shown_stamp(before)->Some_0,
{
}

/// What one identity re-validation found.
#[derive(Debug)]
pub enum IdentityFetch<P> {
    /// The operator is still valid.
    Profile {
        /// The fresh profile.
        profile: P,
        /// Whether the operator is an administrator.
        is_admin: bool,
    },
    /// The session is no longer valid (account deleted or de-authorized).
    Revoked,
    /// A passing failure (network, server): the cached state stays.
    Transient,
}

/// The signed-in operator's identity, as far as it is known.
pub struct Identity<P> {
    profile: Option<P>,
    admin: bool,
    revoked: bool,
    poll: Poller,
}

impl<P> Identity<P> {
    /// The cached profile.
    pub closed spec fn known_profile(&self) -> Option<P> {
        self.profile
    }

    /// Whether the cached profile is an administrator's.
    pub closed spec fn admin_flag(&self) -> bool {
        self.admin
    }

    /// Whether a revocation is waiting to be taken.
    pub closed spec fn revocation_pending(&self) -> bool {
        self.revoked
    }

    /// The re-validation's timing.
    pub closed spec fn poller(&self) -> Poller {
        self.poll
    }

    /// Nothing known yet.
    pub fn new() -> (r: Self)
        ensures
            r.known_profile() is None,
            !r.revocation_pending(),
            !r.poller().busy(),
            !r.poller().has_run(),
    {
        Identity { profile: None, admin: false, revoked: false, poll: Poller::new() }
    }

    /// Whether the operator is a known administrator: `false` until a profile
    /// has been loaded, so administrator actions fail closed meanwhile.
    pub fn is_admin(&self) -> (r: bool)
        ensures
            r == (self.known_profile() is Some && self.admin_flag()),
            r ==> self.known_profile() is Some,
    {
        self.profile.is_some() && self.admin
    }

    /// Whether a profile has been loaded.
    pub fn is_known(&self) -> (r: bool)
        ensures
            r == self.known_profile() is Some,
    {
        self.profile.is_some()
    }

    /// The cached profile.
    pub fn profile(&self) -> (r: Option<&P>)
        ensures
            r is Some == self.known_profile() is Some,
            r is Some ==> *r->Some_0 == self.known_profile()->Some_0,
    {
        match &self.profile {
            Some(p) => Some(p),
            None => None,
        }
    }

    /// Take a pending revocation: `true` once after a re-validation found the
    /// session invalid, `false` after that until it happens again.
    pub fn take_revoked(&mut self) -> (r: bool)
        ensures
            r == old(self).revocation_pending(),
            !final(self).revocation_pending(),
            final(self).known_profile() == old(self).known_profile(),
            final(self).admin_flag() == old(self).admin_flag(),
            final(self).poller() == old(self).poller(),
    {
        let r = self.revoked;
        self.revoked = false;
        r
    }

    /// Forget the cached identity, so that the next sign-in is re-validated
    /// before any administrator action is allowed.
    pub fn reset(&mut self)
        ensures
            final(self).known_profile() is None,
            !final(self).revocation_pending(),
            !final(self).poller().has_run(),
            final(self).poller().busy() == old(self).poller().busy(),
    {
        self.profile = None;
        self.admin = false;
        self.revoked = false;
        self.poll.forget();
    }

    /// Ask for a re-validation; returns whether the caller should now make it.
    pub fn begin(&mut self) -> (started: bool)
        ensures
            started == !old(self).poller().busy(),
            final(self).poller().busy(),
            final(self).poller().has_run() == old(self).poller().has_run(),
            final(self).known_profile() == old(self).known_profile(),
            final(self).admin_flag() == old(self).admin_flag(),
            final(self).revocation_pending() == old(self).revocation_pending(),
    {
        self.poll.begin()
    }

    /// Advance on a tick: while signed in, ask for a re-validation when one is
    /// due (returns whether the caller should now make it); once signed out,
    /// drop a cached identity.
    pub fn tick(&mut self, signed_in: bool) -> (fetch: bool)
        ensures
            fetch ==> signed_in && !old(self).poller().busy() && final(self).poller().busy(),
            signed_in && !old(self).poller().busy() && !old(self).poller().has_run() ==> fetch,
            signed_in ==> final(self).known_profile() == old(self).known_profile()
                && final(self).revocation_pending() == old(self).revocation_pending(),
            !signed_in && old(self).known_profile() is Some ==> final(self).known_profile() is None
                && !final(self).revocation_pending(),
            !signed_in && old(self).known_profile() is None ==> final(self).known_profile() is None
                && final(self).revocation_pending() == old(self).revocation_pending(),
    {
        if signed_in {
            if self.poll.is_due(IDENTITY_REVALIDATE_MS) {
                return self.begin();
            }
        } else if self.profile.is_some() {
            self.reset();
        }
        false
    }

    /// Fold in a re-validation's outcome.
    pub fn apply(&mut self, outcome: IdentityFetch<P>)
        ensures
            !final(self).poller().busy(),
            final(self).poller().has_run(),
            match outcome {
                IdentityFetch::Profile { profile, is_admin } => final(self).known_profile()
                    == Some(profile) && final(self).admin_flag() == is_admin
                    && final(self).revocation_pending() == old(self).revocation_pending(),
                IdentityFetch::Revoked => final(self).known_profile() is None
                    && final(self).revocation_pending(),
                IdentityFetch::Transient => final(self).known_profile() == old(
                    self,
                ).known_profile() && final(self).admin_flag() == old(self).admin_flag()
                    && final(self).revocation_pending() == old(self).revocation_pending(),
            },
    {
        self.poll.finish();
        match outcome {
            IdentityFetch::Profile { profile, is_admin } => {
                self.profile = Some(profile);
                self.admin = is_admin;
            },
            IdentityFetch::Revoked => {
                self.profile = None;
                self.admin = false;
                self.revoked = true;
            },
            IdentityFetch::Transient => {},
        }
    }

    /// The re-validation ended without a result; allow a new one.
    pub fn abandon(&mut self)
        ensures
            !final(self).poller().busy(),
            final(self).poller().has_run() == old(self).poller().has_run(),
            final(self).known_profile() == old(self).known_profile(),
            final(self).admin_flag() == old(self).admin_flag(),
            final(self).revocation_pending() == old(self).revocation_pending(),
    {
        self.poll.abandon();
    }
}

} // verus!
