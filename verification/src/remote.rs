//! The load state of data fetched in the background, and the bookkeeping that
//! every data screen shares: at most one request in flight, one load when the
//! screen is first focused, and a list selection that stays on a row.
//!
//! The requests themselves are made elsewhere; these types decide when one is
//! due and fold its result in.

use vstd::prelude::*;
use std::time::Instant;
use crate::clock::now;
use crate::theme::str_eq;

verus! {

/// The load state of a resource.
///
/// A reload after a successful fetch keeps the previous `Ready` value on show;
/// the in-flight flag is tracked separately so the interface can show a subtle
/// "refreshing" mark without blanking the screen.
#[derive(Debug)]
pub enum Remote<T> {
    /// Not yet requested.
    Idle,
    /// A first load is in flight, with no previous value to show.
    Loading,
    /// A value was loaded.
    Ready {
        /// The most recently loaded value.
        value: T,
        /// When the value was fetched.
        fetched_at: Instant,
    },
    /// The most recent load failed.
    Failed {
        /// What went wrong.
        error: String,
        /// When the failure occurred.
        at: Instant,
    },
}

/// What a load request turns the state into: `Idle` and `Failed` show
/// `Loading`, anything else stays on show.
pub open spec fn loading_from<T>(state: Remote<T>) -> Remote<T> {
    match state {
        Remote::Idle => Remote::Loading,
        Remote::Failed { .. } => Remote::Loading,
        _ => state,
    }
}

/// Whether `state` holds `value`, fetched at some instant.
pub open spec fn is_ready_with<T>(state: Remote<T>, value: T) -> bool {
    state is Ready && state->value == value
}

/// Whether `state` holds the failure `error`, at some instant.
pub open spec fn is_failed_with<T>(state: Remote<T>, error: Seq<char>) -> bool {
    state is Failed && state->error@ == error
}

/// The state after a load finished with `result`.
pub open spec fn settled_as<T>(state: Remote<T>, result: Result<T, String>) -> bool {
    match result {
        Ok(value) => is_ready_with(state, value),
        Err(error) => is_failed_with(state, error@),
    }
}

/// The state of a background load: the value on show, whether a request is in
/// flight, and whether a load has ever completed.
pub struct Loader<T> {
    state: Remote<T>,
    in_flight: bool,
    loaded: bool,
}

impl<T> Loader<T> {
    /// The value on show.
    pub closed spec fn remote(&self) -> Remote<T> {
        self.state
    }

    /// Whether a request is in flight.
    pub closed spec fn busy(&self) -> bool {
        self.in_flight
    }

    /// Whether a load has completed (successfully or not).
    pub closed spec fn done_once(&self) -> bool {
        self.loaded
    }

    /// Nothing requested yet.
    pub fn new() -> (r: Self)
        ensures
            r.remote() is Idle,
            !r.busy(),
            !r.done_once(),
    {
        Loader { state: Remote::Idle, in_flight: false, loaded: false }
    }

    /// The value on show.
    pub fn state(&self) -> (r: &Remote<T>)
        ensures
            *r == self.remote(),
    {
        &self.state
    }

    /// Whether a request is in flight.
    pub fn is_refreshing(&self) -> (r: bool)
        ensures
            r == self.busy(),
    {
        self.in_flight
    }

    /// Whether a load has completed.
    pub fn is_loaded(&self) -> (r: bool)
        ensures
            r == self.done_once(),
    {
        self.loaded
    }

    /// Ask for a load. Returns whether the caller should now issue the request:
    /// nothing changes while one is already in flight.
    pub fn begin(&mut self) -> (started: bool)
        ensures
            started == !old(self).busy(),
            !started ==> *final(self) == *old(self),
            started ==> final(self).busy() && final(self).done_once() == old(self).done_once()
                && final(self).remote() == loading_from(old(self).remote()),
    {
        if self.in_flight {
            return false;
        }
        self.in_flight = true;
        let idle_or_failed = match &self.state {
            Remote::Idle => true,
            Remote::Failed { .. } => true,
            _ => false,
        };
        if idle_or_failed {
            self.state = Remote::Loading;
        }
        true
    }

    /// Fold in the result of the request that was in flight.
    pub fn apply(&mut self, result: Result<T, String>)
        ensures
            !final(self).busy(),
            final(self).done_once(),
            settled_as(final(self).remote(), result),
    {
        self.in_flight = false;
        self.loaded = true;
        match result {
            Ok(value) => {
                self.state = Remote::Ready { value, fetched_at: now() };
            },
            Err(error) => {
                self.state = Remote::Failed { error, at: now() };
            },
        }
    }

    /// The request ended without a result; allow a new one.
    pub fn abandon(&mut self)
        ensures
            !final(self).busy(),
            final(self).done_once() == old(self).done_once(),
            final(self).remote() == old(self).remote(),
    {
        self.in_flight = false;
    }

    /// Whether a focused screen should issue its first load now.
    pub fn wants_first_load(&self, focused: bool) -> (r: bool)
        ensures
            r == (focused && !self.done_once() && !self.busy()),
    {
        focused && !self.loaded && !self.in_flight
    }
}

/// The largest index a selection may take in a list of `len` rows: the last
/// row, or the top when the list is empty.
pub open spec fn last_row(len: nat) -> nat {
    if len == 0 {
        0
    } else {
        (len - 1) as nat
    }
}

/// A selection clamped to a list of `len` rows.
pub open spec fn clamp_row(selected: nat, len: nat) -> nat {
    if selected <= last_row(len) {
        selected
    } else {
        last_row(len)
    }
}

/// The rows on show, or the empty sequence when no list is on show.
pub open spec fn rows_of<T>(state: Remote<Vec<T>>) -> Seq<T> {
    match state {
        Remote::Ready { value, .. } => value@,
        _ => Seq::empty(),
    }
}

/// A list loaded in the background, with the selected row.
///
/// Whenever a list is on show the selection points at one of its rows (or at
/// the top of an empty list).
pub struct ListCore<T> {
    loader: Loader<Vec<T>>,
    selected: usize,
}

impl<T> ListCore<T> {
    #[verifier::type_invariant]
    closed spec fn selection_in_bounds(self) -> bool {
        self.loader.state is Ready ==> self.selected <= last_row(self.loader.state->value@.len())
    }

    /// The list's load state.
    pub closed spec fn remote(&self) -> Remote<Vec<T>> {
        self.loader.state
    }

    /// Whether a request is in flight.
    pub closed spec fn busy(&self) -> bool {
        self.loader.in_flight
    }

    /// Whether a load has completed.
    pub closed spec fn done_once(&self) -> bool {
        self.loader.loaded
    }

    /// The selected row's index.
    pub closed spec fn cursor(&self) -> nat {
        self.selected as nat
    }

    /// The rows on show.
    pub open spec fn rows(&self) -> Seq<T> {
        rows_of(self.remote())
    }

    /// Whether a list is on show.
    pub open spec fn shown(&self) -> bool {
        self.remote() is Ready
    }

    /// Nothing requested yet, top row selected.
    pub fn new() -> (r: Self)
        ensures
            r.remote() is Idle,
            !r.busy(),
            !r.done_once(),
            r.cursor() == 0,
    {
        ListCore { loader: Loader::new(), selected: 0 }
    }

    /// The list's load state.
    pub fn state(&self) -> (r: &Remote<Vec<T>>)
        ensures
            *r == self.remote(),
    {
        &self.loader.state
    }

    /// Whether a request is in flight.
    pub fn is_refreshing(&self) -> (r: bool)
        ensures
            r == self.busy(),
    {
        self.loader.in_flight
    }

    /// Whether a load has completed.
    pub fn is_loaded(&self) -> (r: bool)
        ensures
            r == self.done_once(),
    {
        self.loader.loaded
    }

    /// The selected row's index; whenever a list is on show it points at one
    /// of its rows, or at the top of an empty list.
    pub fn selected_index(&self) -> (r: usize)
        ensures
            r == self.cursor(),
            self.shown() ==> r <= last_row(self.rows().len()),
    {
        proof {
            use_type_invariant(self);
        }
        self.selected
    }

    /// The selected row, when a non-empty list is on show.
    pub fn selected_item(&self) -> (r: Option<&T>)
        ensures
            self.shown() && self.rows().len() > 0 ==> r == Some(&self.rows()[self.cursor() as int]),
            !(self.shown() && self.rows().len() > 0) ==> r is None,
    {
        proof {
            use_type_invariant(self);
        }
        match &self.loader.state {
            Remote::Ready { value, .. } => {
                if self.selected < value.len() {
                    Some(&value[self.selected])
                } else {
                    None
                }
            },
            _ => None,
        }
    }

    /// Ask for a load. Returns whether the caller should now issue the request.
    pub fn begin(&mut self) -> (started: bool)
        ensures
            started == !old(self).busy(),
            !started ==> final(self).remote() == old(self).remote() && final(self).busy()
                == old(self).busy(),
            started ==> final(self).busy() && final(self).remote() == loading_from(
                old(self).remote(),
            ),
            final(self).done_once() == old(self).done_once(),
            final(self).cursor() == old(self).cursor(),
    {
        proof {
            use_type_invariant(&*self);
        }
        if self.loader.in_flight {
            return false;
        }
        self.loader.in_flight = true;
        let idle_or_failed = match &self.loader.state {
            Remote::Idle => true,
            Remote::Failed { .. } => true,
            _ => false,
        };
        if idle_or_failed {
            self.loader.state = Remote::Loading;
        }
        true
    }

    /// Fold in a freshly loaded list, keeping the selection on the same index
    /// where the list is long enough and on the last row where it is not.
    pub fn apply(&mut self, result: Result<Vec<T>, String>)
        ensures
            !final(self).busy(),
            final(self).done_once(),
            settled_as(final(self).remote(), result),
            result is Ok ==> final(self).cursor() == clamp_row(
                old(self).cursor(),
                result->Ok_0@.len(),
            ),
            result is Err ==> final(self).cursor() == old(self).cursor(),
    {
        proof {
            use_type_invariant(&*self);
        }
        match result {
            Ok(items) => {
                let last = if items.len() == 0 {
                    0
                } else {
                    items.len() - 1
                };
                let clamped = if self.selected <= last {
                    self.selected
                } else {
                    last
                };
                let ghost expected = items;
                *self = ListCore {
                    loader: Loader {
                        state: Remote::Ready { value: items, fetched_at: now() },
                        in_flight: false,
                        loaded: true,
                    },
                    selected: clamped,
                };
                assert(settled_as(self.loader.state, Ok::<Vec<T>, String>(expected)));
            },
            Err(error) => {
                self.loader.in_flight = false;
                self.loader.loaded = true;
                self.loader.state = Remote::Failed { error, at: now() };
            },
        }
    }

    /// Ask for a further page of a list: like [`begin`](Self::begin), but the
    /// list on show is never replaced by `Loading`.
    pub fn begin_keeping(&mut self) -> (started: bool)
        ensures
            started == !old(self).busy(),
            final(self).busy(),
            final(self).remote() == old(self).remote(),
            final(self).done_once() == old(self).done_once(),
            final(self).cursor() == old(self).cursor(),
    {
        proof {
            use_type_invariant(&*self);
        }
        if self.loader.in_flight {
            return false;
        }
        self.loader.in_flight = true;
        true
    }

    /// Fold in a further page: appended to the list on show, or taken as the
    /// list when none is on show; the selection is clamped to the result.
    pub fn apply_more(&mut self, result: Result<Vec<T>, String>)
        ensures
            !final(self).busy(),
            final(self).done_once(),
            result is Ok ==> final(self).shown() && final(self).rows() == old(self).rows()
                + result->Ok_0@ && final(self).cursor() == clamp_row(
                old(self).cursor(),
                final(self).rows().len(),
            ),
            result is Err ==> settled_as(final(self).remote(), result) && final(self).cursor()
                == old(self).cursor(),
    {
        proof {
            use_type_invariant(&*self);
        }
        match result {
            Ok(items) => {
                let mut items = items;
                let mut taken: Remote<Vec<T>> = Remote::Idle;
                std::mem::swap(&mut taken, &mut self.loader.state);
                let mut rows = match taken {
                    Remote::Ready { value, .. } => value,
                    _ => Vec::new(),
                };
                rows.append(&mut items);
                let last = if rows.len() == 0 {
                    0
                } else {
                    rows.len() - 1
                };
                let clamped = if self.selected <= last {
                    self.selected
                } else {
                    last
                };
                *self = ListCore {
                    loader: Loader {
                        state: Remote::Ready { value: rows, fetched_at: now() },
                        in_flight: false,
                        loaded: true,
                    },
                    selected: clamped,
                };
            },
            Err(error) => {
                self.loader.in_flight = false;
                self.loader.loaded = true;
                self.loader.state = Remote::Failed { error, at: now() };
            },
        }
    }

    /// The request ended without a result; allow a new one.
    pub fn abandon(&mut self)
        ensures
            !final(self).busy(),
            final(self).done_once() == old(self).done_once(),
            final(self).remote() == old(self).remote(),
            final(self).cursor() == old(self).cursor(),
    {
        proof {
            use_type_invariant(&*self);
        }
        self.loader.in_flight = false;
    }

    /// Whether a focused screen should issue its first load now.
    pub fn wants_first_load(&self, focused: bool) -> (r: bool)
        ensures
            r == (focused && !self.done_once() && !self.busy()),
    {
        focused && !self.loader.loaded && !self.loader.in_flight
    }

    /// Move the selection to the next row, if there is one.
    pub fn select_next(&mut self)
        ensures
            final(self).remote() == old(self).remote(),
            final(self).busy() == old(self).busy(),
            final(self).done_once() == old(self).done_once(),
            final(self).cursor() == (if old(self).shown() && old(self).cursor() + 1 < old(
                self,
            ).rows().len() {
                old(self).cursor() + 1
            } else {
                old(self).cursor()
            }),
    {
        proof {
            use_type_invariant(&*self);
        }
        let advance = match &self.loader.state {
            Remote::Ready { value, .. } => self.selected < value.len() && self.selected + 1
                < value.len(),
            _ => false,
        };
        if advance {
            self.selected = self.selected + 1;
        }
    }

    /// Move the selection to the previous row, stopping at the top.
    pub fn select_prev(&mut self)
        ensures
            final(self).remote() == old(self).remote(),
            final(self).busy() == old(self).busy(),
            final(self).done_once() == old(self).done_once(),
            final(self).cursor() == (if old(self).cursor() == 0 {
                0
            } else {
                (old(self).cursor() - 1) as nat
            }),
    {
        proof {
            use_type_invariant(&*self);
        }
        if self.selected > 0 {
            self.selected = self.selected - 1;
        }
    }

    /// Mark the list as needing a load, so that the next focused tick loads it
    /// again (after a change the operator made to it).
    pub fn mark_stale(&mut self)
        ensures
            final(self).remote() == old(self).remote(),
            final(self).busy() == old(self).busy(),
            !final(self).done_once(),
            final(self).cursor() == old(self).cursor(),
    {
        proof {
            use_type_invariant(&*self);
        }
        self.loader.loaded = false;
    }

    /// Put the selection back on the top row.
    pub fn select_top(&mut self)
        ensures
            final(self).remote() == old(self).remote(),
            final(self).busy() == old(self).busy(),
            final(self).done_once() == old(self).done_once(),
            final(self).cursor() == 0,
    {
        self.selected = 0;
    }
}


/// Upper bound on the rows kept while a live tail adds to a list, so a long
/// session cannot grow it without bound.
pub const MAX_LIVE_ROWS: usize = 500;

/// A row that carries the identifier it is told apart by.
#[derive(Debug)]
pub struct Keyed<T> {
    /// The row's identifier.
    pub key: String,
    /// The row itself.
    pub item: T,
}

/// Whether some row of `rows` has the identifier `key`.
pub open spec fn has_key<T>(rows: Seq<Keyed<T>>, key: Seq<char>) -> bool {
    exists|i: int| 0 <= i < rows.len() && #[trigger] rows[i].key@ == key
}

/// Whether no two rows of `rows` share an identifier.
pub open spec fn keys_unique<T>(rows: Seq<Keyed<T>>) -> bool {
    forall|i: int, j: int|
        0 <= i < rows.len() && 0 <= j < rows.len() && i != j ==> #[trigger] rows[i].key@
            != #[trigger] rows[j].key@
}

/// The rows after a live row arrives at a list on show: a row whose identifier
/// is already there is dropped; otherwise it goes on top and the list is cut
/// to [`MAX_LIVE_ROWS`].
pub open spec fn merged_rows<T>(rows: Seq<Keyed<T>>, record: Keyed<T>) -> Seq<Keyed<T>> {
    if has_key(rows, record.key@) {
        rows
    } else {
        let grown = seq![record] + rows;
        if grown.len() <= MAX_LIVE_ROWS {
            grown
        } else {
            grown.subrange(0, MAX_LIVE_ROWS as int)
        }
    }
}

/// The selection after a new row went on top of `len` rows: a selection at the
/// top rides the newest row; any other stays on the row it was on, as far as
/// the list still reaches.
pub open spec fn shifted_row(selected: nat, len: nat) -> nat {
    if selected == 0 {
        0
    } else if selected + 1 <= last_row(len) {
        selected + 1
    } else {
        last_row(len)
    }
}

/// A live row never brings a second row with the same identifier into a list,
/// and a list that held at most [`MAX_LIVE_ROWS`] rows still does.
pub proof fn lemma_merge_keeps_keys_unique<T>(rows: Seq<Keyed<T>>, record: Keyed<T>)
    requires
        keys_unique(rows),
    ensures
        keys_unique(merged_rows(rows, record)),
        rows.len() <= MAX_LIVE_ROWS ==> merged_rows(rows, record).len() <= MAX_LIVE_ROWS,
        has_key(merged_rows(rows, record), record.key@),
{
    let m = merged_rows(rows, record);
    if !has_key(rows, record.key@) {
        let grown = seq![record] + rows;
        assert forall|i: int, j: int|
            0 <= i < grown.len() && 0 <= j < grown.len() && i != j implies #[trigger] grown[i].key@
            != #[trigger] grown[j].key@ by {
            if i == 0 {
                assert(grown[j] == rows[j - 1]);
            } else if j == 0 {
                assert(grown[i] == rows[i - 1]);
            } else {
                assert(grown[i] == rows[i - 1]);
                assert(grown[j] == rows[j - 1]);
            }
        }
        assert(m[0] == record);
    }
}

fn holds_key<T>(rows: &Vec<Keyed<T>>, key: &String) -> (r: bool)
    ensures
        r == has_key(rows@, key@),
{
    let mut i: usize = 0;
    while i < rows.len()
        invariant
            i <= rows@.len(),
            forall|j: int| 0 <= j < i ==> #[trigger] rows@[j].key@ != key@,
        decreases rows@.len() - i,
    {
        if str_eq(rows[i].key.as_str(), key.as_str()) {
            return true;
        }
        i = i + 1;
    }
    false
}

impl<T> ListCore<Keyed<T>> {
    /// Fold one row from a live tail into the list: newest first, without a
    /// second row for an identifier already there, cut to [`MAX_LIVE_ROWS`].
    /// With no list on show the row becomes the list.
    pub fn merge_live(&mut self, record: Keyed<T>)
        ensures
            final(self).busy() == old(self).busy(),
            final(self).shown(),
            old(self).shown() ==> final(self).rows() == merged_rows(old(self).rows(), record),
            old(self).shown() && has_key(old(self).rows(), record.key@) ==> final(self).remote()
                == old(self).remote() && final(self).cursor() == old(self).cursor(),
            old(self).shown() && !has_key(old(self).rows(), record.key@) ==> final(self).cursor()
                == shifted_row(old(self).cursor(), final(self).rows().len()),
            old(self).shown() ==> final(self).done_once() == old(self).done_once(),
            !old(self).shown() ==> final(self).rows() == seq![record] && final(self).cursor() == 0
                && final(self).done_once(),
    {
        proof {
            use_type_invariant(&*self);
        }
        let in_flight = self.loader.in_flight;
        let loaded = self.loader.loaded;
        let selected = self.selected;
        let mut taken: Remote<Vec<Keyed<T>>> = Remote::Idle;
        std::mem::swap(&mut taken, &mut self.loader.state);
        match taken {
            Remote::Ready { value, fetched_at } => {
                let mut value = value;
                if holds_key(&value, &record.key) {
                    *self = ListCore {
                        loader: Loader {
                            state: Remote::Ready { value, fetched_at },
                            in_flight,
                            loaded,
                        },
                        selected,
                    };
                    return;
                }
                let ghost before = value@;
                value.insert(0, record);
                assert(value@ == seq![record] + before);
                value.truncate(MAX_LIVE_ROWS);
                let len = value.len();
                let shifted = if selected == 0 {
                    0
                } else if selected + 1 <= len - 1 {
                    selected + 1
                } else {
                    len - 1
                };
                *self = ListCore {
                    loader: Loader {
                        state: Remote::Ready { value, fetched_at: now() },
                        in_flight,
                        loaded,
                    },
                    selected: shifted,
                };
            },
            _ => {
                let ghost r = record;
                let mut value = Vec::new();
                value.push(record);
                assert(value@ == seq![r]);
                *self = ListCore {
                    loader: Loader {
                        state: Remote::Ready { value, fetched_at: now() },
                        in_flight,
                        loaded: true,
                    },
                    selected: 0,
                };
            },
        }
    }
}


/// A resource that belongs to one item of a list (a session's timeline, a
/// token's usage): the item it was asked for, and its load state.
pub struct Follower<T> {
    subject: Option<String>,
    in_flight: bool,
    state: Remote<T>,
}

/// The view of an optional string.
pub open spec fn opt_text(o: Option<String>) -> Option<Seq<char>> {
    match o {
        Some(s) => Some(s@),
        None => None,
    }
}

impl<T> Follower<T> {
    /// The item the resource was last asked for.
    pub closed spec fn subject_id(&self) -> Option<Seq<char>> {
        opt_text(self.subject)
    }

    /// Whether a request is in flight.
    pub closed spec fn busy(&self) -> bool {
        self.in_flight
    }

    /// The load state.
    pub closed spec fn remote(&self) -> Remote<T> {
        self.state
    }

    /// Nothing asked for.
    pub fn new() -> (r: Self)
        ensures
            r.subject_id() is None,
            !r.busy(),
            r.remote() is Idle,
    {
        Follower { subject: None, in_flight: false, state: Remote::Idle }
    }

    /// The load state.
    pub fn state(&self) -> (r: &Remote<T>)
        ensures
            *r == self.remote(),
    {
        &self.state
    }

    /// Whether a request is in flight.
    pub fn is_loading(&self) -> (r: bool)
        ensures
            r == self.busy(),
    {
        self.in_flight
    }

    /// The load state, when it belongs to `id`.
    pub fn state_for(&self, id: Option<&str>) -> (r: Option<&Remote<T>>)
        ensures
            r is Some == (id is Some && self.subject_id() == Some(id->Some_0@)),
            r is Some ==> *r->Some_0 == self.remote(),
    {
        match (&self.subject, id) {
            (Some(subject), Some(id)) => {
                if str_eq(subject.as_str(), id) {
                    Some(&self.state)
                } else {
                    None
                }
            },
            _ => None,
        }
    }

    /// Ask for the resource of `id`, unless a request is in flight. Returns
    /// whether the caller should now make the request.
    pub fn begin_for(&mut self, id: &str) -> (started: bool)
        ensures
            started == !old(self).busy(),
            !started ==> *final(self) == *old(self),
            started ==> final(self).busy() && final(self).subject_id() == Some(id@)
                && final(self).remote() is Loading,
    {
        if self.in_flight {
            return false;
        }
        self.subject = Some(id.to_owned());
        self.in_flight = true;
        self.state = Remote::Loading;
        true
    }

    /// Keep the resource in step with the selected item: ask for it when an
    /// item is selected that it was not asked for and nothing is in flight.
    /// Returns the item to request, if any.
    pub fn follow(&mut self, selected: Option<&str>) -> (r: Option<String>)
        ensures
            r is Some == (selected is Some && !old(self).busy() && old(self).subject_id() != Some(
                selected->Some_0@,
            )),
            r is None ==> *final(self) == *old(self),
            r is Some ==> r->Some_0@ == selected->Some_0@ && final(self).busy()
                && final(self).subject_id() == Some(selected->Some_0@) && final(self).remote() is Loading,
    {
        let id = match selected {
            Some(id) => id,
            None => return None,
        };
        if self.in_flight {
            return None;
        }
        let same = match &self.subject {
            Some(subject) => str_eq(subject.as_str(), id),
            None => false,
        };
        if same {
            return None;
        }
        self.begin_for(id);
        Some(id.to_owned())
    }

    /// Fold in the result of the request in flight.
    pub fn apply(&mut self, result: Result<T, String>)
        ensures
            !final(self).busy(),
            final(self).subject_id() == old(self).subject_id(),
            settled_as(final(self).remote(), result),
    {
        self.in_flight = false;
        match result {
            Ok(value) => {
                self.state = Remote::Ready { value, fetched_at: now() };
            },
            Err(error) => {
                self.state = Remote::Failed { error, at: now() };
            },
        }
    }

    /// The request ended without a result; allow a new one and keep the state.
    pub fn abandon(&mut self)
        ensures
            !final(self).busy(),
            final(self).subject_id() == old(self).subject_id(),
            final(self).remote() == old(self).remote(),
    {
        self.in_flight = false;
    }

    /// The request ended without a result; show `error` so the pane is not
    /// stuck loading and a reload can retry.
    pub fn abandon_with(&mut self, error: &str)
        ensures
            !final(self).busy(),
            final(self).subject_id() == old(self).subject_id(),
            is_failed_with(final(self).remote(), error@),
    {
        self.in_flight = false;
        self.state = Remote::Failed { error: error.to_owned(), at: now() };
    }
}

} // verus!
