//! Transient on-screen notifications.

use vstd::prelude::*;
use vstd::std_specs::iter::IteratorSpec;

use crate::clock::{duration_millis, elapsed, now, whole_millis_of};

verus! {

/// How long a toast remains visible, in milliseconds.
pub const TTL_MS: u64 = 4000;

/// Severity of a toast, controlling its color.
#[derive(Debug, Clone, Copy, PartialEq, Eq, Structural)]
pub enum Level {
    /// Informational.
    Info,
    /// Warning.
    Warn,
    /// Error.
    Error,
}

/// A single notification with an expiry time.
#[derive(Debug)]
pub struct Toast {
    /// Severity level.
    pub level: Level,
    /// Message text.
    pub text: String,
    /// When the toast should disappear, in milliseconds on the queue's clock.
    expires: u64,
}

impl Toast {
    /// When the toast disappears, in milliseconds on its queue's clock.
    pub closed spec fn expiry(self) -> nat {
        self.expires as nat
    }

    /// The toast's severity.
    pub closed spec fn severity(self) -> Level {
        self.level
    }

    /// The toast's text.
    pub closed spec fn message(self) -> Seq<char> {
        self.text@
    }
}

/// A queue of active toasts, oldest first, timed by a monotonic clock that
/// starts when the queue is made.
#[derive(Debug)]
pub struct Toasts {
    items: Vec<Toast>,
    origin: std::time::Instant,
}

/// Whether `after` is `before` with one toast added at the end: of `level`,
/// saying `text`, shown at `now` (so expiring `TTL_MS` later).
pub open spec fn pushed(before: Seq<Toast>, after: Seq<Toast>, level: Level, text: Seq<char>, now: nat) -> bool {
    &&& after.len() == before.len() + 1
    &&& after.drop_last() == before
    &&& after.last().severity() == level
    &&& after.last().message() == text
    &&& after.last().expiry() == expiry_after(now)
}

/// Two queues that held the same toasts and had the same toast pushed at
/// the same instant (by `push`, `push_at`, `info`, `warn` or `error` with the
/// matching level) hold the same toasts again: the same level, text and
/// expiry, in the same order.
pub proof fn lemma_same_push_same_queue(
    before: Seq<Toast>,
    a: Seq<Toast>,
    b: Seq<Toast>,
    level: Level,
    text: Seq<char>,
    now: nat,
)
    requires
        pushed(before, a, level, text, now),
        pushed(before, b, level, text, now),
    ensures
        a.len() == b.len(),
        forall|i: int|
            0 <= i < a.len() ==> (#[trigger] a[i]).severity() == b[i].severity() && a[i].message()
                == b[i].message() && a[i].expiry() == b[i].expiry(),
{
    assert forall|i: int| 0 <= i < a.len() implies (#[trigger] a[i]).severity() == b[i].severity()
        && a[i].message() == b[i].message() && a[i].expiry() == b[i].expiry() by {
        if i < a.len() - 1 {
            assert(a[i] == a.drop_last()[i]);
            assert(b[i] == b.drop_last()[i]);
        }
    }
}

/// The expiry of a toast shown at `now`: `TTL_MS` later, saturating.
pub open spec fn expiry_after(now: nat) -> nat {
    if now + TTL_MS > u64::MAX {
        u64::MAX as nat
    } else {
        (now + TTL_MS) as nat
    }
}

/// The queue's clock reading for an elapsed duration `d`: its whole
/// milliseconds, saturating at `u64::MAX`.
pub open spec fn clock_reading(d: std::time::Duration) -> nat {
    if whole_millis_of(d) <= u64::MAX as u128 {
        whole_millis_of(d) as nat
    } else {
        u64::MAX as nat
    }
}

/// The toasts of `items` still visible at `now`, in order.
pub open spec fn still_visible(items: Seq<Toast>, now: nat) -> Seq<Toast> {
    items.filter(|t: Toast| t.expiry() > now)
}

impl Toasts {
    /// The active toasts, oldest first.
    pub closed spec fn entries(self) -> Seq<Toast> {
        self.items@
    }

    /// Milliseconds on this queue's clock: the whole milliseconds of the time
    /// elapsed since the queue was made, saturating at `u64::MAX`. How much
    /// time has elapsed is read from the clock, so the contract holds for
    /// some elapsed duration.
    fn clock_ms(&self) -> (r: u64)
        ensures
            exists|d: std::time::Duration| r == #[trigger] clock_reading(d),
    {
        let d = elapsed(self.origin);
        let ms = duration_millis(d);
        let r = if ms > u64::MAX as u128 {
            u64::MAX
        } else {
            ms as u64
        };
        assert(r == clock_reading(d));
        r
    }

    /// Push a toast shown at `now_ms` on the queue's clock.
    pub fn push_at(&mut self, level: Level, text: &str, now_ms: u64)
        ensures
            pushed(old(self).entries(), final(self).entries(), level, text@, now_ms as nat),
    {
        let expires = if now_ms > u64::MAX - TTL_MS {
            u64::MAX
        } else {
            now_ms + TTL_MS
        };
        self.items.push(Toast { level, text: text.to_owned(), expires });
        assert(self.items@.drop_last() =~= old(self).items@);
    }

    /// Push a toast with the given level and text.
    pub fn push(&mut self, level: Level, text: &str)
        ensures
            exists|d: std::time::Duration|
                pushed(old(self).entries(), final(self).entries(), level, text@, #[trigger] clock_reading(d)),
    {
        let now_ms = self.clock_ms();
        self.push_at(level, text, now_ms);
    }

    /// Push an informational toast.
    pub fn info(&mut self, text: &str)
        ensures
            exists|d: std::time::Duration|
                pushed(old(self).entries(), final(self).entries(), Level::Info, text@, #[trigger] clock_reading(d)),
    {
        self.push(Level::Info, text);
    }

    /// Push a warning toast.
    pub fn warn(&mut self, text: &str)
        ensures
            exists|d: std::time::Duration|
                pushed(old(self).entries(), final(self).entries(), Level::Warn, text@, #[trigger] clock_reading(d)),
    {
        self.push(Level::Warn, text);
    }

    /// Push an error toast.
    pub fn error(&mut self, text: &str)
        ensures
            exists|d: std::time::Duration|
                pushed(old(self).entries(), final(self).entries(), Level::Error, text@, #[trigger] clock_reading(d)),
    {
        self.push(Level::Error, text);
    }

    /// Drop the toasts whose lifetime has elapsed at `now_ms` on the queue's
    /// clock, keeping the rest in order.
    pub fn prune_at(&mut self, now_ms: u64)
        ensures
            final(self).entries() == still_visible(old(self).entries(), now_ms as nat),
    {
        let mut kept: Vec<Toast> = Vec::new();
        let mut rest: Vec<Toast> = Vec::new();
        std::mem::swap(&mut rest, &mut self.items);
        let ghost all = rest@;
        let n = rest.len();
        let mut i: usize = 0;
        while i < n
            invariant
                n == all.len(),
                i <= n,
                rest@ == all.skip(i as int),
                kept@ == still_visible(all.take(i as int), now_ms as nat),
            decreases n - i,
        {
            let toast = rest.remove(0);
            assert(toast == all[i as int]);
            assert(all.take(i + 1).drop_last() =~= all.take(i as int));
            proof {
                reveal(Seq::filter);
            }
            if toast.expires > now_ms {
                kept.push(toast);
            }
            assert(rest@ =~= all.skip(i + 1));
            i = i + 1;
        }
        assert(all.take(n as int) =~= all);
        self.items = kept;
    }

    /// Drop any toasts whose lifetime has elapsed.
    pub fn prune(&mut self)
        ensures
            exists|d: std::time::Duration|
                final(self).entries() == still_visible(old(self).entries(), #[trigger] clock_reading(d)),
    {
        let now_ms = self.clock_ms();
        self.prune_at(now_ms);
    }

    /// Whether there are any active toasts.
    pub fn is_empty(&self) -> (r: bool)
        ensures
            r == (self.entries().len() == 0),
    {
        self.items.len() == 0
    }

    /// Iterate over active toasts, oldest first.
    pub fn iter(&self) -> (r: std::slice::Iter<'_, Toast>)
        ensures
            IteratorSpec::remaining(&r) == self.entries().map_values(|t: Toast| &t),
    {
        let slice = self.items.as_slice();
        let r = slice.iter();
        assert(slice@.as_ref() =~= self.items@.map_values(|t: Toast| &t));
        r
    }
}

impl Default for Toasts {
    /// An empty queue whose clock starts now.
    fn default() -> (r: Self)
        ensures
            r.entries() == Seq::<Toast>::empty(),
    {
        Toasts { items: Vec::new(), origin: now() }
    }
}

/// Where the toasts still visible at `now` sat in `items`.
pub open spec fn kept_positions(items: Seq<Toast>, now: nat) -> Seq<int>
    decreases items.len(),
{
    if items.len() == 0 {
        Seq::empty()
    } else {
        let earlier = kept_positions(items.drop_last(), now);
        if items.last().expiry() > now {
            earlier.push(items.len() - 1)
        } else {
            earlier
        }
    }
}

/// Pruning keeps the surviving toasts in the order they were added: the
/// `k`-th survivor is the toast at an increasing position of the queue.
pub proof fn lemma_prune_keeps_order(items: Seq<Toast>, now: nat)
    ensures
        kept_positions(items, now).len() == still_visible(items, now).len(),
        forall|k: int|
            0 <= k < kept_positions(items, now).len() ==> 0 <= #[trigger] kept_positions(
                items,
                now,
            )[k] < items.len() && still_visible(items, now)[k] == items[kept_positions(
                items,
                now,
            )[k]],
        forall|k: int, l: int|
            0 <= k < l < kept_positions(items, now).len() ==> #[trigger] kept_positions(
                items,
                now,
            )[k] < #[trigger] kept_positions(items, now)[l],
    decreases items.len(),
{
    if items.len() > 0 {
        let rest = items.drop_last();
        lemma_prune_keeps_order(rest, now);
        let f = |x: Toast| x.expiry() > now;
        rest.lemma_filter_push(items.last(), f);
        assert(rest.push(items.last()) =~= items);
        let p = kept_positions(rest, now);
        assert forall|k: int| 0 <= k < p.len() implies 0 <= #[trigger] p[k] < rest.len() by {}
    }
}

/// `pos` picks `sub` out of `all` at increasing positions.
pub open spec fn picks(pos: Seq<int>, sub: Seq<Toast>, all: Seq<Toast>) -> bool {
    &&& pos.len() == sub.len()
    &&& forall|k: int| 0 <= k < pos.len() ==> 0 <= #[trigger] pos[k] < all.len() && sub[k] == all[pos[k]]
    &&& forall|k: int, l: int| 0 <= k < l < pos.len() ==> #[trigger] pos[k] < #[trigger] pos[l]
}

/// `sub` is a selection of `all` that keeps its order.
pub open spec fn in_order_within(sub: Seq<Toast>, all: Seq<Toast>) -> bool {
    exists|pos: Seq<int>| picks(pos, sub, all)
}

/// Whatever mix of pushes and prunes a queue goes through, it holds the
/// toasts pushed into it, some dropped, in the order they were pushed: if
/// the queue holds such a selection of the toasts pushed so far, it still
/// does after one more push (which appends, as `push` and its variants do)
/// and after a prune at any instant (which keeps `still_visible`, as
/// `prune` and `prune_at` do). An empty queue holds such a selection of no
/// toasts.
pub proof fn lemma_queue_keeps_push_order(queue: Seq<Toast>, pushed_so_far: Seq<Toast>, next: Toast, now: nat)
    requires
        in_order_within(queue, pushed_so_far),
    ensures
        in_order_within(Seq::<Toast>::empty(), Seq::<Toast>::empty()),
        in_order_within(queue.push(next), pushed_so_far.push(next)),
        in_order_within(still_visible(queue, now), pushed_so_far),
{
    assert(picks(Seq::<int>::empty(), Seq::<Toast>::empty(), Seq::<Toast>::empty()));
    let pos = choose|pos: Seq<int>| picks(pos, queue, pushed_so_far);
    let grown = pos.push(pushed_so_far.len() as int);
    assert(picks(grown, queue.push(next), pushed_so_far.push(next))) by {
        assert forall|k: int| 0 <= k < grown.len() implies 0 <= #[trigger] grown[k] < pushed_so_far.push(
            next,
        ).len() && queue.push(next)[k] == pushed_so_far.push(next)[grown[k]] by {
            if k < pos.len() {
                assert(grown[k] == pos[k]);
            }
        }
        assert forall|k: int, l: int| 0 <= k < l < grown.len() implies #[trigger] grown[k]
            < #[trigger] grown[l] by {
            if l < pos.len() {
                assert(grown[k] == pos[k] && grown[l] == pos[l]);
            } else {
                assert(grown[k] == pos[k]);
            }
        }
    }
    lemma_prune_keeps_order(queue, now);
    let kept = kept_positions(queue, now);
    let composed = kept.map_values(|i: int| pos[i]);
    assert(picks(composed, still_visible(queue, now), pushed_so_far)) by {
        assert forall|k: int| 0 <= k < composed.len() implies 0 <= #[trigger] composed[k]
            < pushed_so_far.len() && still_visible(queue, now)[k] == pushed_so_far[composed[k]] by {
            assert(0 <= kept[k] < queue.len());
            assert(composed[k] == pos[kept[k]]);
        }
        assert forall|k: int, l: int| 0 <= k < l < composed.len() implies #[trigger] composed[k]
            < #[trigger] composed[l] by {
            assert(kept[k] < kept[l]);
            assert(0 <= kept[k] < queue.len() && 0 <= kept[l] < queue.len());
            assert(pos[kept[k]] < pos[kept[l]]);
        }
    }
}

/// A toast pushed at time `t` survives a prune at time `u` exactly when `u`
/// falls before its expiry `TTL_MS` later, and pruning never reorders or
/// invents toasts: what stays is an in-order selection of what was there.
pub proof fn lemma_prune_keeps_fresh(items: Seq<Toast>, pushed: Toast, t: nat, u: nat)
    requires
        pushed.expiry() == expiry_after(t),
        t + TTL_MS <= u64::MAX,
    ensures
        still_visible(items.push(pushed), u).contains(pushed) <== u < t + TTL_MS,
        u >= t + TTL_MS ==> still_visible(items.push(pushed), u) == still_visible(items, u),
        still_visible(items, u).len() <= items.len(),
        forall|i: int|
            0 <= i < still_visible(items, u).len() ==> items.contains(
                #[trigger] still_visible(items, u)[i],
            ),
{
    let f = |x: Toast| x.expiry() > u;
    items.lemma_filter_push(pushed, f);
    if u < t + TTL_MS {
        assert(still_visible(items.push(pushed), u).last() == pushed);
    }
    items.lemma_filter_len(f);
    assert forall|i: int|
        0 <= i < still_visible(items, u).len() implies items.contains(
        #[trigger] still_visible(items, u)[i],
    ) by {
        items.lemma_filter_contains_rev(f, still_visible(items, u)[i]);
    }
}

} // verus!
