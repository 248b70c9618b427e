//! Paging and filtering of the audit trail.
//!
//! One load on first focus, `r` to reload from the first page, `f` to cycle the
//! action-family filter (which resets paging and reloads), and "load more" to
//! append the next, older page.

use vstd::prelude::*;
use crate::remote::{clamp_row, loading_from, settled_as, ListCore};

verus! {

/// How many entries to request per page.
pub const AUDIT_PAGE_LIMIT: u32 = 50;

/// The number of action filters.
pub const AUDIT_FILTER_COUNT: usize = 7;

/// The action-name prefix that filter `i` asks the server for; `None` is
/// "everything".
pub open spec fn filter_prefix(i: nat) -> Option<Seq<char>> {
    if i == 1 {
        Some("message."@)
    } else if i == 2 {
        Some("message.approve"@)
    } else if i == 3 {
        Some("message.reject"@)
    } else if i == 4 {
        Some("question."@)
    } else if i == 5 {
        Some("apiToken."@)
    } else if i == 6 {
        Some("auth.login"@)
    } else {
        None
    }
}

/// The label of filter `i`.
pub open spec fn filter_name(i: nat) -> Seq<char> {
    if i == 1 {
        "messages"@
    } else if i == 2 {
        "approvals"@
    } else if i == 3 {
        "rejections"@
    } else if i == 4 {
        "questions"@
    } else if i == 5 {
        "API tokens"@
    } else if i == 6 {
        "sign-in"@
    } else {
        "all actions"@
    }
}

/// The action-name prefix of filter `i`.
pub fn filter_action(i: usize) -> (r: Option<&'static str>)
    ensures
        match r {
            Some(p) => filter_prefix(i as nat) == Some(p@),
            None => filter_prefix(i as nat) is None,
        },
{
    if i == 1 {
        Some("message.")
    } else if i == 2 {
        Some("message.approve")
    } else if i == 3 {
        Some("message.reject")
    } else if i == 4 {
        Some("question.")
    } else if i == 5 {
        Some("apiToken.")
    } else if i == 6 {
        Some("auth.login")
    } else {
        None
    }
}

/// The label of filter `i`.
pub fn filter_text(i: usize) -> (r: &'static str)
    ensures
        r@ == filter_name(i as nat),
{
    if i == 1 {
        "messages"
    } else if i == 2 {
        "approvals"
    } else if i == 3 {
        "rejections"
    } else if i == 4 {
        "questions"
    } else if i == 5 {
        "API tokens"
    } else if i == 6 {
        "sign-in"
    } else {
        "all actions"
    }
}

/// A page the caller should now request.
#[derive(Debug)]
pub struct PageRequest {
    /// The action-name prefix to filter on, if any.
    pub action: Option<&'static str>,
    /// Where to continue from, for a further page.
    pub cursor: Option<String>,
    /// How many entries to ask for.
    pub limit: u32,
}

/// Whether `req` asks for filter `filter` from `cursor`.
pub open spec fn asks_for(req: PageRequest, filter: nat, cursor: Option<Seq<char>>) -> bool {
    &&& req.limit == AUDIT_PAGE_LIMIT
    &&& match req.action {
        Some(p) => filter_prefix(filter) == Some(p@),
        None => filter_prefix(filter) is None,
    }
    &&& match req.cursor {
        Some(c) => cursor == Some(c@),
        None => cursor is None,
    }
}

/// The view of an optional string.
pub open spec fn opt_view(o: Option<String>) -> Option<Seq<char>> {
    match o {
        Some(s) => Some(s@),
        None => None,
    }
}

/// The audit trail's paging state over a list of entries.
pub struct AuditPager<T> {
    list: ListCore<T>,
    filter: usize,
    next_cursor: Option<String>,
    loading_more: bool,
}

impl<T> AuditPager<T> {
    /// The entries.
    pub closed spec fn entries(&self) -> ListCore<T> {
        self.list
    }

    /// The active filter's index.
    pub closed spec fn filter_index(&self) -> nat {
        (self.filter % AUDIT_FILTER_COUNT) as nat
    }

    /// Where the next, older page starts, if there is one.
    pub closed spec fn cursor(&self) -> Option<Seq<char>> {
        opt_view(self.next_cursor)
    }

    /// Whether the request in flight is for a further page.
    pub closed spec fn more_in_flight(&self) -> bool {
        self.loading_more
    }

    /// Nothing loaded, every action shown.
    pub fn new() -> (r: Self)
        ensures
            r.entries().remote() is Idle,
            !r.entries().busy(),
            !r.entries().done_once(),
            r.entries().cursor() == 0,
            r.filter_index() == 0,
            r.cursor() is None,
            !r.more_in_flight(),
    {
        AuditPager { list: ListCore::new(), filter: 0, next_cursor: None, loading_more: false }
    }

    /// The entries and their selection.
    pub fn list(&self) -> (r: &ListCore<T>)
        ensures
            *r == self.entries(),
    {
        &self.list
    }

    /// The label of the active filter.
    pub fn filter_label(&self) -> (r: &'static str)
        ensures
            r@ == filter_name(self.filter_index()),
    {
        filter_text(self.filter % AUDIT_FILTER_COUNT)
    }

    /// Whether older entries remain beyond those loaded.
    pub fn has_more(&self) -> (r: bool)
        ensures
            r == self.cursor() is Some,
    {
        self.next_cursor.is_some()
    }

    fn load(&mut self, more: bool) -> (r: Option<PageRequest>)
        ensures
            r is Some == !old(self).entries().busy(),
            final(self).filter_index() == old(self).filter_index(),
            final(self).cursor() == old(self).cursor(),
            final(self).entries().cursor() == old(self).entries().cursor(),
            final(self).entries().done_once() == old(self).entries().done_once(),
            r is None ==> final(self).entries().remote() == old(self).entries().remote()
                && final(self).more_in_flight() == old(self).more_in_flight()
                && final(self).entries().busy() == old(self).entries().busy(),
            r is Some ==> {
                &&& final(self).entries().busy()
                &&& final(self).more_in_flight() == more
                &&& final(self).entries().remote() == (if more {
                    old(self).entries().remote()
                } else {
                    loading_from(old(self).entries().remote())
                })
                &&& asks_for(
                    r->Some_0,
                    old(self).filter_index(),
                    if more {
                        old(self).cursor()
                    } else {
                        None
                    },
                )
            },
    {
        let started = if more {
            self.list.begin_keeping()
        } else {
            self.list.begin()
        };
        if !started {
            return None;
        }
        self.loading_more = more;
        let cursor = if more {
            match &self.next_cursor {
                Some(c) => Some(c.clone()),
                None => None,
            }
        } else {
            None
        };
        Some(PageRequest { action: filter_action(self.filter % AUDIT_FILTER_COUNT), cursor, limit: AUDIT_PAGE_LIMIT })
    }

    /// Reload from the first page, keeping the filter. Returns the page to
    /// request, or `None` while a request is in flight.
    pub fn refresh(&mut self) -> (r: Option<PageRequest>)
        ensures
            r is Some == !old(self).entries().busy(),
            final(self).filter_index() == old(self).filter_index(),
            final(self).cursor() is None,
            final(self).entries().cursor() == old(self).entries().cursor(),
            r is Some ==> final(self).entries().busy() && !final(self).more_in_flight()
                && final(self).entries().remote() == loading_from(old(self).entries().remote())
                && asks_for(r->Some_0, old(self).filter_index(), None),
            r is None ==> final(self).entries().remote() == old(self).entries().remote(),
    {
        self.next_cursor = None;
        self.load(false)
    }

    /// Move to the next filter, back to the top row, and reload from the first
    /// page.
    pub fn cycle_filter(&mut self) -> (r: Option<PageRequest>)
        ensures
            final(self).filter_index() == (old(self).filter_index() + 1) % (
            AUDIT_FILTER_COUNT as nat),
            final(self).cursor() is None,
            final(self).entries().cursor() == 0,
            r is Some == !old(self).entries().busy(),
            r is Some ==> final(self).entries().busy() && asks_for(
                r->Some_0,
                final(self).filter_index(),
                None,
            ),
    {
        self.filter = (self.filter % AUDIT_FILTER_COUNT + 1) % AUDIT_FILTER_COUNT;
        self.list.select_top();
        self.refresh()
    }

    /// Ask for the next, older page, if there is one.
    pub fn load_more(&mut self) -> (r: Option<PageRequest>)
        ensures
            r is Some == (old(self).cursor() is Some && !old(self).entries().busy()),
            final(self).filter_index() == old(self).filter_index(),
            final(self).cursor() == old(self).cursor(),
            final(self).entries().remote() == old(self).entries().remote(),
            final(self).entries().cursor() == old(self).entries().cursor(),
            r is Some ==> final(self).entries().busy() && final(self).more_in_flight()
                && asks_for(r->Some_0, old(self).filter_index(), old(self).cursor()),
    {
        if self.next_cursor.is_some() {
            self.load(true)
        } else {
            None
        }
    }

    /// Fold in a loaded page and the cursor of the page after it: a first page
    /// replaces the list, a further page is appended to it.
    pub fn apply(&mut self, result: Result<(Vec<T>, Option<String>), String>)
        ensures
            !final(self).entries().busy(),
            !final(self).more_in_flight(),
            final(self).entries().done_once(),
            final(self).filter_index() == old(self).filter_index(),
            match result {
                Ok((items, next)) => {
                    &&& final(self).cursor() == opt_view(next)
                    &&& final(self).entries().shown()
                    &&& final(self).entries().rows() == (if old(self).more_in_flight() {
                        old(self).entries().rows() + items@
                    } else {
                        items@
                    })
                    &&& final(self).entries().cursor() == clamp_row(
                        old(self).entries().cursor(),
                        final(self).entries().rows().len(),
                    )
                },
                Err(error) => {
                    &&& final(self).cursor() == old(self).cursor()
                    &&& settled_as(final(self).entries().remote(), Err::<Vec<T>, String>(error))
                },
            },
    {
        let more = self.loading_more;
        self.loading_more = false;
        match result {
            Ok((items, next)) => {
                self.next_cursor = next;
                if more {
                    self.list.apply_more(Ok(items));
                } else {
                    self.list.apply(Ok(items));
                }
            },
            Err(error) => {
                self.list.apply(Err(error));
            },
        }
    }

    /// The request ended without a result; allow a new one.
    pub fn abandon(&mut self)
        ensures
            !final(self).entries().busy(),
            final(self).entries().remote() == old(self).entries().remote(),
            final(self).entries().cursor() == old(self).entries().cursor(),
            final(self).filter_index() == old(self).filter_index(),
            final(self).cursor() == old(self).cursor(),
    {
        self.list.abandon();
    }

    /// Move the selection down, if there is a next row.
    pub fn select_next(&mut self)
        ensures
            final(self).entries().remote() == old(self).entries().remote(),
            final(self).entries().cursor() == (if old(self).entries().shown() && old(
                self,
            ).entries().cursor() + 1 < old(self).entries().rows().len() {
                old(self).entries().cursor() + 1
            } else {
                old(self).entries().cursor()
            }),
    {
        self.list.select_next();
    }

    /// Move the selection up, stopping at the top.
    pub fn select_prev(&mut self)
        ensures
            final(self).entries().remote() == old(self).entries().remote(),
            final(self).entries().cursor() == (if old(self).entries().cursor() == 0 {
                0
            } else {
                (old(self).entries().cursor() - 1) as nat
            }),
    {
        self.list.select_prev();
    }
}

/// Cycling the filter visits every filter and comes back to the first after
/// one lap.
pub proof fn lemma_filter_cycle_lap(i: nat)
    requires
        i < AUDIT_FILTER_COUNT,
    ensures
        (i + 1) % (AUDIT_FILTER_COUNT as nat) < AUDIT_FILTER_COUNT,
        i + 1 == AUDIT_FILTER_COUNT ==> (i + 1) % (AUDIT_FILTER_COUNT as nat) == 0,
{
}


/// Each audit filter asks for the actions its label names: `messages` for
/// every message action, `approvals` for message approvals, `rejections` for
/// message rejections, `questions` for question actions, `API tokens` for
/// token actions, `sign-in` for logins, and `all actions` for everything.
pub proof fn lemma_filter_label_matches_request(i: nat)
    ensures
        filter_name(i) == "messages"@ ==> filter_prefix(i) == Some("message."@),
        filter_name(i) == "approvals"@ ==> filter_prefix(i) == Some("message.approve"@),
        filter_name(i) == "rejections"@ ==> filter_prefix(i) == Some("message.reject"@),
        filter_name(i) == "questions"@ ==> filter_prefix(i) == Some("question."@),
        filter_name(i) == "API tokens"@ ==> filter_prefix(i) == Some("apiToken."@),
        filter_name(i) == "sign-in"@ ==> filter_prefix(i) == Some("auth.login"@),
        filter_name(i) == "all actions"@ ==> filter_prefix(i) is None,
{
    reveal_strlit("messages");
    reveal_strlit("approvals");
    reveal_strlit("rejections");
    reveal_strlit("questions");
    reveal_strlit("API tokens");
    reveal_strlit("sign-in");
    reveal_strlit("all actions");
    let n = filter_name(i);
    assert(n.len() > 0);
    if i == 2 {
        assert(n[0] == 'a' && n.len() == 9);
    } else if i == 4 {
        assert(n[0] == 'q' && n.len() == 9);
    } else if i == 3 {
        assert(n[0] == 'r' && n.len() == 10);
    } else if i == 5 {
        assert(n[0] == 'A' && n.len() == 10);
    }
}


/// The audit filters are all different: no two have the same label or ask
/// for the same actions.
pub proof fn lemma_filters_distinct(i: nat, j: nat)
    requires
        i < AUDIT_FILTER_COUNT,
        j < AUDIT_FILTER_COUNT,
        i != j,
    ensures
        filter_name(i) != filter_name(j),
        filter_prefix(i) != filter_prefix(j),
{
    reveal_strlit("messages");
    reveal_strlit("approvals");
    reveal_strlit("rejections");
    reveal_strlit("questions");
    reveal_strlit("API tokens");
    reveal_strlit("sign-in");
    reveal_strlit("all actions");
    reveal_strlit("message.");
    reveal_strlit("message.approve");
    reveal_strlit("message.reject");
    reveal_strlit("question.");
    reveal_strlit("apiToken.");
    reveal_strlit("auth.login");
    let a = filter_name(i);
    let b = filter_name(j);
    if a.len() == b.len() {
        assert(a[0] != b[0]);
    }
    if filter_prefix(i) is Some && filter_prefix(j) is Some {
        let x = filter_prefix(i)->0;
        let y = filter_prefix(j)->0;
        if x.len() == y.len() {
            assert(x[0] != y[0] || x[8] != y[8]);
        }
    }
}

} // verus!
