//! The booth Debug panel's bookkeeping: the log-level filter, the summary of
//! a polling round's failures, and folding live telemetry into the cached
//! snapshots; and the Statistics screen's aggregation window.

use vstd::prelude::*;
use std::time::Instant;
use crate::clock::now;
use crate::text::push_str;
use crate::theme::str_eq;

verus! {

/// The most log lines kept (and requested per poll).
pub const LOG_LIMIT: usize = 200;

/// The tracing levels the filter cycles through, most severe first.
pub open spec fn log_levels() -> Seq<Seq<char>> {
    seq!["error"@, "warn"@, "info"@, "debug"@, "trace"@]
}

/// The level after `current`: the next one in [`log_levels`], wrapping
/// around, or the first when `current` is not a known level.
pub open spec fn level_after(current: Seq<char>) -> Seq<char> {
    if exists|i: int| 0 <= i < 5 && log_levels()[i] == current {
        let i = choose|i: int| 0 <= i < 5 && log_levels()[i] == current;
        log_levels()[(i + 1) % 5]
    } else {
        log_levels()[0]
    }
}

proof fn lemma_levels_distinct(j: int, k: int)
    requires
        0 <= j < 5,
        0 <= k < 5,
        j != k,
    ensures
        log_levels()[j] != log_levels()[k],
{
    reveal_strlit("error");
    reveal_strlit("warn");
    reveal_strlit("info");
    reveal_strlit("debug");
    reveal_strlit("trace");
    let firsts = seq!['e', 'w', 'i', 'd', 't'];
    assert forall|m: int| 0 <= m < 5 implies log_levels()[m][0] == firsts[m] by {}
    assert(firsts[j] != firsts[k]);
}

fn level_at(i: usize) -> (r: &'static str)
    requires
        i < 5,
    ensures
        r@ == log_levels()[i as int],
{
    if i == 0 {
        "error"
    } else if i == 1 {
        "warn"
    } else if i == 2 {
        "info"
    } else if i == 3 {
        "debug"
    } else {
        "trace"
    }
}

/// The log level that follows `current` in the filter's cycle.
pub fn next_log_level(current: &str) -> (r: &'static str)
    ensures
        r@ == level_after(current@),
{
    proof {
        reveal_strlit("error");
        reveal_strlit("warn");
        reveal_strlit("info");
        reveal_strlit("debug");
        reveal_strlit("trace");
    }
    let mut i: usize = 0;
    while i < 5
        invariant
            i <= 5,
            forall|j: int| 0 <= j < i ==> log_levels()[j] != current@,
        decreases 5 - i,
    {
        if str_eq(level_at(i), current) {
            proof {
                assert forall|j: int| 0 <= j < 5 && log_levels()[j] == current@ implies j
                    == i by {
                    if j != i {
                        lemma_levels_distinct(j, i as int);
                    }
                }
            }
            return level_at((i + 1) % 5);
        }
        i = i + 1;
    }
    level_at(0)
}

/// Five steps of the level filter come back to where they started.
pub proof fn lemma_log_level_cycle(i: int)
    requires
        0 <= i < 5,
    ensures
        level_after(level_after(level_after(level_after(level_after(log_levels()[i])))))
            == log_levels()[i],
{
    reveal_strlit("error");
    reveal_strlit("warn");
    reveal_strlit("info");
    reveal_strlit("debug");
    reveal_strlit("trace");
    assert forall|k: int, j: int|
        0 <= k < 5 && 0 <= j < 5 && log_levels()[j] == log_levels()[k] implies j == k by {
        if j != k {
            lemma_levels_distinct(j, k);
        }
    }
    assert forall|k: int| 0 <= k < 5 implies level_after(log_levels()[k]) == log_levels()[(k + 1)
        % 5] by {
        assert(log_levels()[k] == log_levels()[k]);
    }
}

/// One endpoint's part of a polling round: its name and, when it failed, the
/// error.
pub struct PollPart {
    /// The endpoint's name (`state`, `gpio` …).
    pub name: &'static str,
    /// The error, when the request failed.
    pub error: Option<String>,
}

/// The summary entries for the failed parts, in order.
pub open spec fn failures(parts: Seq<PollPart>) -> Seq<Seq<char>>
    decreases parts.len(),
{
    if parts.len() == 0 {
        Seq::empty()
    } else {
        let rest = failures(parts.drop_last());
        match parts.last().error {
            Some(e) => rest.push(parts.last().name@ + ": "@ + e@),
            None => rest,
        }
    }
}

/// Entries joined with `"; "`.
pub open spec fn joined_with_semicolons(entries: Seq<Seq<char>>) -> Seq<char>
    decreases entries.len(),
{
    if entries.len() == 0 {
        Seq::empty()
    } else if entries.len() == 1 {
        entries[0]
    } else {
        joined_with_semicolons(entries.drop_last()) + "; "@ + entries.last()
    }
}

/// The failures of a polling round, as one line for the status footer: each
/// failed endpoint as `name: error`, joined with `"; "`; `None` when every
/// endpoint answered.
pub fn poll_error_summary(parts: &Vec<PollPart>) -> (r: Option<String>)
    ensures
        failures(parts@).len() == 0 ==> r is None,
        failures(parts@).len() > 0 ==> (r matches Some(s) && s@ == joined_with_semicolons(
            failures(parts@),
        )),
{
    let mut out = String::new();
    let mut count: usize = 0;
    let mut i: usize = 0;
    while i < parts.len()
        invariant
            i <= parts@.len(),
            count == failures(parts@.take(i as int)).len(),
            count <= i,
            out@ == joined_with_semicolons(failures(parts@.take(i as int))),
        decreases parts@.len() - i,
    {
        assert(parts@.take(i + 1).drop_last() =~= parts@.take(i as int));
        match &parts[i].error {
            Some(e) => {
                if count > 0 {
                    push_str(&mut out, "; ");
                }
                push_str(&mut out, parts[i].name);
                push_str(&mut out, ": ");
                push_str(&mut out, e.as_str());
                let ghost entry = parts@[i as int].name@ + ": "@ + e@;
                let ghost rest = failures(parts@.take(i as int));
                assert(failures(parts@.take(i + 1)) == rest.push(entry));
                assert(rest.push(entry).drop_last() =~= rest);
                assert(rest.push(entry).last() == entry);
                if count == 0 {
                    assert(out@ =~= entry);
                } else {
                    assert(out@ =~= joined_with_semicolons(failures(parts@.take(i as int))) + "; "@
                        + entry);
                }
                count = count + 1;
            },
            None => {},
        }
        i = i + 1;
    }
    assert(parts@.take(parts@.len() as int) =~= parts@);
    if count == 0 {
        None
    } else {
        Some(out)
    }
}

/// One polling round of the booth's debug server, each endpoint's answer on
/// its own.
pub struct DebugRound<S, G, A, L, C> {
    /// The state machine snapshot.
    pub state: Result<S, String>,
    /// The GPIO snapshot.
    pub gpio: Result<G, String>,
    /// The audio meter snapshot.
    pub audio: Result<A, String>,
    /// The recent log lines.
    pub logs: Result<Vec<L>, String>,
    /// The redacted configuration.
    pub config: Result<C, String>,
}

/// The Debug panel's cached snapshots and the outcome of the last polling
/// round.
pub struct DebugPanels<S, G, A, L, C> {
    /// The last state snapshot received.
    pub state: Option<S>,
    /// The last GPIO snapshot received.
    pub gpio: Option<G>,
    /// The last audio meter snapshot received.
    pub audio: Option<A>,
    /// The last log lines received, newest first.
    pub logs: Vec<L>,
    /// The last configuration received.
    pub config: Option<C>,
    /// When a round last succeeded on every endpoint.
    pub last_ok: Option<Instant>,
    /// The failures of the last round that had any, and when it finished.
    pub last_error: Option<(String, Instant)>,
}

/// `name: error` when `r` failed, nothing otherwise.
pub open spec fn failure_entry<T>(name: Seq<char>, r: Result<T, String>) -> Seq<Seq<char>> {
    match r {
        Ok(_) => Seq::empty(),
        Err(e) => seq![name + ": "@ + e@],
    }
}

/// A round's failures in endpoint order: state, gpio, audio, logs, config.
pub open spec fn round_failures<S, G, A, L, C>(r: DebugRound<S, G, A, L, C>) -> Seq<Seq<char>> {
    failure_entry("state"@, r.state) + failure_entry("gpio"@, r.gpio) + failure_entry(
        "audio"@,
        r.audio,
    ) + failure_entry("logs"@, r.logs) + failure_entry("config"@, r.config)
}

/// The value `r` brings to a panel that held `kept`: the new one when the
/// endpoint answered, the old one when it failed.
pub open spec fn refreshed<T>(kept: T, r: Result<T, String>) -> T {
    match r {
        Ok(v) => v,
        Err(_) => kept,
    }
}

fn note_failure<T>(parts: &mut Vec<PollPart>, name: &'static str, r: &Result<T, String>)
    ensures
        failures(final(parts)@) == failures(old(parts)@) + failure_entry(name@, *r),
{
    match r {
        Ok(_) => {},
        Err(e) => {
            parts.push(PollPart { name, error: Some(e.clone()) });
            assert(failures(parts@) =~= failures(old(parts)@) + failure_entry(name@, *r)) by {
                assert(parts@.drop_last() =~= old(parts)@);
            }
        },
    }
    assert(failures(parts@) =~= failures(old(parts)@) + failure_entry(name@, *r));
}

impl<S, G, A, L, C> DebugPanels<S, G, A, L, C> {
    /// Empty panels: nothing received yet, no round finished.
    pub fn new() -> (r: Self)
        ensures
            r.state is None,
            r.gpio is None,
            r.audio is None,
            r.logs@.len() == 0,
            r.config is None,
            r.last_ok is None,
            r.last_error is None,
    {
        DebugPanels {
            state: None,
            gpio: None,
            audio: None,
            logs: Vec::new(),
            config: None,
            last_ok: None,
            last_error: None,
        }
    }

    /// Fold in a polling round: each endpoint that answered replaces its
    /// panel, each that failed leaves its panel as it was. A round with no
    /// failure clears the error and stamps `last_ok`; one with failures keeps
    /// `last_ok` and records them, as `name: error` joined with `"; "`. The
    /// stamps are clock readings.
    pub fn apply(&mut self, round: DebugRound<S, G, A, L, C>)
        ensures
            final(self).state == refreshed(old(self).state, match round.state {
                Ok(v) => Ok(Some(v)),
                Err(e) => Err(e),
            }),
            final(self).gpio == refreshed(old(self).gpio, match round.gpio {
                Ok(v) => Ok(Some(v)),
                Err(e) => Err(e),
            }),
            final(self).audio == refreshed(old(self).audio, match round.audio {
                Ok(v) => Ok(Some(v)),
                Err(e) => Err(e),
            }),
            final(self).logs@ == refreshed(old(self).logs, round.logs)@,
            final(self).config == refreshed(old(self).config, match round.config {
                Ok(v) => Ok(Some(v)),
                Err(e) => Err(e),
            }),
            round_failures(round).len() == 0 ==> final(self).last_ok is Some
                && final(self).last_error is None,
            round_failures(round).len() > 0 ==> final(self).last_ok == old(self).last_ok
                && (final(self).last_error matches Some((s, _)) && s@ == joined_with_semicolons(
                round_failures(round),
            )),
    {
        let ghost r = round;
        let mut parts: Vec<PollPart> = Vec::new();
        note_failure(&mut parts, "state", &round.state);
        note_failure(&mut parts, "gpio", &round.gpio);
        note_failure(&mut parts, "audio", &round.audio);
        note_failure(&mut parts, "logs", &round.logs);
        note_failure(&mut parts, "config", &round.config);
        assert(failures(Seq::<PollPart>::empty()) =~= Seq::<Seq<char>>::empty());
        assert(failures(parts@) =~= round_failures(r));
        match round.state {
            Ok(v) => self.state = Some(v),
            Err(_) => {},
        }
        match round.gpio {
            Ok(v) => self.gpio = Some(v),
            Err(_) => {},
        }
        match round.audio {
            Ok(v) => self.audio = Some(v),
            Err(_) => {},
        }
        match round.logs {
            Ok(v) => self.logs = v,
            Err(_) => {},
        }
        match round.config {
            Ok(v) => self.config = Some(v),
            Err(_) => {},
        }
        let at = now();
        match poll_error_summary(&parts) {
            None => {
                self.last_ok = Some(at);
                self.last_error = None;
            },
            Some(summary) => {
                self.last_error = Some((summary, at));
            },
        }
    }
}

/// Put `item` on top of `items` and keep at most `cap` of them.
pub fn prepend_capped<T>(items: &mut Vec<T>, item: T, cap: usize)
    ensures
        final(items)@ == (if old(items)@.len() + 1 <= cap {
            seq![item] + old(items)@
        } else {
            (seq![item] + old(items)@).take(cap as int)
        }),
{
    let ghost before = items@;
    let ghost it = item;
    items.insert(0, item);
    assert(items@ =~= seq![it] + before);
    items.truncate(cap);
    assert(old(items)@.len() + 1 > cap ==> items@ =~= (seq![it] + before).take(cap as int));
}

/// The record id to resume live telemetry after, when reconnecting: the one
/// after the last record seen.
pub fn replay_from(last_record_id: Option<u64>) -> (r: Option<u64>)
    ensures
        r == (match last_record_id {
            Some(id) => Some(if id == u64::MAX {
                u64::MAX
            } else {
                (id + 1) as u64
            }),
            None => None,
        }),
{
    match last_record_id {
        Some(id) => Some(id.saturating_add(1)),
        None => None,
    }
}

/// One GPIO pin as the Debug panel shows it.
#[derive(Debug, Clone, PartialEq, Eq)]
pub struct GpioPin<L> {
    /// What the pin does (`hook`, `pulse` …).
    pub role: String,
    /// The raw level.
    pub level: L,
    /// The debounced level.
    pub debounced_state: L,
    /// When the last edge happened, on the booth's monotonic clock.
    pub last_edge_monotonic_ns: u64,
    /// The telemetry record that reported it.
    pub last_event_id: u64,
}

/// Whether pin `p` has the role `role` and shows an edge to `level` at `at_ns`
/// from record `record_id`.
pub open spec fn pin_shows<L>(p: GpioPin<L>, role: Seq<char>, level: L, at_ns: u64, record_id: u64) -> bool {
    p.role@ == role && p.level == level && p.debounced_state == level && p.last_edge_monotonic_ns
        == at_ns && p.last_event_id == record_id
}

/// Fold a live GPIO edge into the cached pins: the first pin with the edge's
/// role takes the new level, time and record; with no such pin a new one is
/// added at the end.
pub fn apply_gpio_edge<L: Copy>(
    pins: &mut Vec<GpioPin<L>>,
    role: &str,
    level: L,
    at_ns: u64,
    record_id: u64,
)
    ensures
        (exists|i: int| 0 <= i < old(pins)@.len() && #[trigger] old(pins)@[i].role@ == role@)
            ==> {
            let k = choose|k: int|
                0 <= k < old(pins)@.len() && old(pins)@[k].role@ == role@ && forall|j: int|
                    0 <= j < k ==> #[trigger] old(pins)@[j].role@ != role@;
            &&& final(pins)@.len() == old(pins)@.len()
            &&& pin_shows(final(pins)@[k], role@, level, at_ns, record_id)
            &&& forall|j: int| 0 <= j < old(pins)@.len() && j != k ==> final(pins)@[j] == old(pins)@[j]
        },
        !(exists|i: int| 0 <= i < old(pins)@.len() && #[trigger] old(pins)@[i].role@ == role@)
            ==> final(pins)@.len() == old(pins)@.len() + 1 && final(pins)@.take(
            old(pins)@.len() as int,
        ) == old(pins)@ && pin_shows(final(pins)@.last(), role@, level, at_ns, record_id),
{
    let mut i: usize = 0;
    while i < pins.len()
        invariant
            i <= pins@.len(),
            pins@ == old(pins)@,
            forall|j: int| 0 <= j < i ==> #[trigger] pins@[j].role@ != role@,
        decreases pins@.len() - i,
    {
        if str_eq(pins[i].role.as_str(), role) {
            let ghost k = choose|k: int|
                0 <= k < old(pins)@.len() && old(pins)@[k].role@ == role@ && forall|j: int|
                    0 <= j < k ==> #[trigger] old(pins)@[j].role@ != role@;
            assert(k == i) by {
                if k < i {
                    assert(pins@[k].role@ != role@);
                } else if k > i {
                    assert(old(pins)@[i as int].role@ == role@);
                }
            }
            let updated = GpioPin {
                role: role.to_owned(),
                level,
                debounced_state: level,
                last_edge_monotonic_ns: at_ns,
                last_event_id: record_id,
            };
            pins.set(i, updated);
            return;
        }
        i = i + 1;
    }
    pins.push(
        GpioPin {
            role: role.to_owned(),
            level,
            debounced_state: level,
            last_edge_monotonic_ns: at_ns,
            last_event_id: record_id,
        },
    );
}

/// The Statistics screen's aggregation window.
#[derive(Debug, Clone, Copy, PartialEq, Eq, Structural)]
pub enum StatsWindow {
    /// The last 24 hours.
    Day,
    /// The last 7 days.
    Week,
    /// The last 30 days.
    Month,
    /// All time.
    All,
}

/// The window after `w` in the cycle day → week → month → all → day.
pub open spec fn window_after(w: StatsWindow) -> StatsWindow {
    match w {
        StatsWindow::Day => StatsWindow::Week,
        StatsWindow::Week => StatsWindow::Month,
        StatsWindow::Month => StatsWindow::All,
        StatsWindow::All => StatsWindow::Day,
    }
}

/// The label of a window.
pub open spec fn window_label(w: StatsWindow) -> Seq<char> {
    match w {
        StatsWindow::Day => "Last 24 hours"@,
        StatsWindow::Week => "Last 7 days"@,
        StatsWindow::Month => "Last 30 days"@,
        StatsWindow::All => "All time"@,
    }
}

impl StatsWindow {
    /// The window shown first: the 7-day window the server also defaults to.
    pub fn initial() -> (r: StatsWindow)
        ensures
            r == StatsWindow::Week,
    {
        StatsWindow::Week
    }

    /// The next window in the cycle.
    pub fn next(self) -> (r: StatsWindow)
        ensures
            r == window_after(self),
    {
        match self {
            StatsWindow::Day => StatsWindow::Week,
            StatsWindow::Week => StatsWindow::Month,
            StatsWindow::Month => StatsWindow::All,
            StatsWindow::All => StatsWindow::Day,
        }
    }

    /// A human-readable label.
    pub fn label(self) -> (r: &'static str)
        ensures
            r@ == window_label(self),
    {
        match self {
            StatsWindow::Day => "Last 24 hours",
            StatsWindow::Week => "Last 7 days",
            StatsWindow::Month => "Last 30 days",
            StatsWindow::All => "All time",
        }
    }
}

/// Four window changes come back to the window they started from, passing
/// every window on the way.
pub proof fn lemma_window_cycle(w: StatsWindow)
    ensures
        window_after(window_after(window_after(window_after(w)))) == w,
        w != window_after(w),
        w != window_after(window_after(w)),
        w != window_after(window_after(window_after(w))),
{
}

} // verus!
