//! Polling cadence: when a background refresh is due, and how long to wait
//! before reconnecting a dropped live socket.

use vstd::prelude::*;
use std::time::Instant;
use crate::clock::{duration_millis, elapsed, now};

verus! {

/// How often the Status screen polls while focused, in milliseconds.
pub const STATUS_POLL_MS: u128 = 5000;

/// How often the booth panels (System Health, Debug) poll while focused, in
/// milliseconds.
pub const BOOTH_POLL_MS: u128 = 2000;

/// How often the signed-in operator's identity is re-validated, in
/// milliseconds.
pub const IDENTITY_REVALIDATE_MS: u128 = 60000;

/// The first delay before reconnecting the live status socket, in
/// milliseconds.
pub const RECONNECT_INITIAL_MS: u64 = 1000;

/// The longest delay between reconnect attempts, in milliseconds.
pub const RECONNECT_MAX_MS: u64 = 30000;

/// Whether a poll is due: never while one is in flight; always before the
/// first; otherwise once `interval_ms` has passed since the last.
pub open spec fn due(in_flight: bool, since_last_ms: Option<u128>, interval_ms: u128) -> bool {
    !in_flight && match since_last_ms {
        None => true,
        Some(ms) => ms >= interval_ms,
    }
}

/// Whether a poll is due, given how long ago the last one finished.
pub fn poll_due(in_flight: bool, since_last_ms: Option<u128>, interval_ms: u128) -> (r: bool)
    ensures
        r == due(in_flight, since_last_ms, interval_ms),
{
    if in_flight {
        return false;
    }
    match since_last_ms {
        None => true,
        Some(ms) => ms >= interval_ms,
    }
}

/// The delay after `current_ms`: doubled, up to [`RECONNECT_MAX_MS`].
pub open spec fn backoff_after(current_ms: u64) -> u64 {
    if current_ms * 2 <= RECONNECT_MAX_MS {
        (current_ms * 2) as u64
    } else {
        RECONNECT_MAX_MS
    }
}

/// The reconnect delay that follows `current_ms`.
pub fn next_backoff(current_ms: u64) -> (r: u64)
    ensures
        r == backoff_after(current_ms),
{
    if current_ms <= RECONNECT_MAX_MS / 2 {
        current_ms * 2
    } else {
        RECONNECT_MAX_MS
    }
}

/// The reconnect delay never exceeds its ceiling and never shrinks below a
/// delay that is already under it.
pub proof fn lemma_backoff_bounded(current_ms: u64)
    ensures
        backoff_after(current_ms) <= RECONNECT_MAX_MS,
        current_ms <= RECONNECT_MAX_MS ==> current_ms <= backoff_after(current_ms),
{
}

/// The timing state of a polled resource: whether a poll is in flight and
/// when the last one finished.
pub struct Poller {
    in_flight: bool,
    last_refresh: Option<Instant>,
}

impl Poller {
    /// Whether a poll is in flight.
    pub closed spec fn busy(&self) -> bool {
        self.in_flight
    }

    /// Whether a poll has finished.
    pub closed spec fn has_run(&self) -> bool {
        self.last_refresh is Some
    }

    /// No poll yet.
    pub fn new() -> (r: Self)
        ensures
            !r.busy(),
            !r.has_run(),
    {
        Poller { in_flight: false, last_refresh: None }
    }

    /// Whether a poll is in flight.
    pub fn is_refreshing(&self) -> (r: bool)
        ensures
            r == self.busy(),
    {
        self.in_flight
    }

    /// Whether a poll has finished.
    pub fn is_seeded(&self) -> (r: bool)
        ensures
            r == self.has_run(),
    {
        self.last_refresh.is_some()
    }

    /// When the last poll finished.
    pub fn last_refresh(&self) -> (r: Option<Instant>)
        ensures
            r is Some == self.has_run(),
    {
        self.last_refresh
    }

    /// Ask for a poll. Returns whether the caller should now make it; nothing
    /// changes while one is in flight.
    pub fn begin(&mut self) -> (started: bool)
        ensures
            started == !old(self).busy(),
            final(self).busy(),
            final(self).has_run() == old(self).has_run(),
    {
        if self.in_flight {
            return false;
        }
        self.in_flight = true;
        true
    }

    /// The poll in flight finished, now.
    pub fn finish(&mut self)
        ensures
            !final(self).busy(),
            final(self).has_run(),
    {
        self.in_flight = false;
        self.last_refresh = Some(now());
    }

    /// The poll ended without a result; allow a new one.
    pub fn abandon(&mut self)
        ensures
            !final(self).busy(),
            final(self).has_run() == old(self).has_run(),
    {
        self.in_flight = false;
    }

    /// Forget when the last poll ran, so the next one is due at once.
    pub fn forget(&mut self)
        ensures
            final(self).busy() == old(self).busy(),
            !final(self).has_run(),
    {
        self.last_refresh = None;
    }

    /// Whether a poll is due now, `interval_ms` after the last. How long ago
    /// that was is read from the clock, so only this is promised: no poll is
    /// due while one is in flight, and one is always due before the first.
    pub fn is_due(&self, interval_ms: u128) -> (r: bool)
        ensures
            exists|since: Option<u128>|
                (since is None <==> !self.has_run()) && r == #[trigger] due(
                    self.busy(),
                    since,
                    interval_ms,
                ),
    {
        let since = match self.last_refresh {
            None => None,
            Some(at) => Some(duration_millis(elapsed(at))),
        };
        let r = poll_due(self.in_flight, since, interval_ms);
        assert(due(self.busy(), since, interval_ms) == r);
        r
    }
}

/// Whether the Debug panel should poll on this tick: it is always seeded with
/// one poll when first focused, and after that polls on cadence only while
/// live telemetry is off.
pub open spec fn debug_poll_wanted(
    focused: bool,
    seeded: bool,
    in_flight: bool,
    live: bool,
    is_due: bool,
) -> bool {
    focused && ((!seeded && !in_flight) || (seeded && !live && is_due))
}

/// Whether the Debug panel should poll on this tick.
pub fn debug_should_poll(focused: bool, seeded: bool, in_flight: bool, live: bool, is_due: bool) -> (r:
    bool)
    ensures
        r == debug_poll_wanted(focused, seeded, in_flight, live, is_due),
{
    if !focused {
        return false;
    }
    let should_seed = !seeded && !in_flight;
    let should_poll = seeded && !live && is_due;
    should_seed || should_poll
}

} // verus!
