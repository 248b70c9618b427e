//! The Statistics dashboard: the body of the Statistics screen, built from an
//! overview's values.

use vstd::prelude::*;
use crate::bodies::{hint, kv, owned, push_line, styled, text_line, two_spans};
use crate::booth::{window_label, StatsWindow};
use crate::chrome::{blank, line_model, lines_model, one, Emphasis, Line, Tone};
use crate::format::{
    age_text, ago, day_name, day_of_week_label, humanize_key, humanized_char, percent,
    percent_text, sparkline, sparkline_text, truncate, truncated,
};
use crate::remote::Remote;
use crate::screens::{title_text, Screen};
use crate::text::{decimal, decimal_string, push_char, push_decimal, push_decimal_padded, push_str, zero_padded};

verus! {

/// How many top questions the dashboard lists.
pub const TOP_QUESTIONS_SHOWN: usize = 5;

/// The widest a top question's prompt is shown, in characters.
pub const PROMPT_WIDTH: usize = 60;

/// A statistics overview as the dashboard reads it. Times and the two
/// floating-point figures come already formatted.
pub struct StatsView {
    /// The aggregation window.
    pub window: StatsWindow,
    /// The time range covered, as text.
    pub range: String,
    /// When the booth was last active, as text, if known.
    pub activity: Option<String>,
    /// Calls in the window.
    pub calls_total: u64,
    /// Calls completed.
    pub calls_completed: u64,
    /// Calls still in progress.
    pub calls_in_progress: u64,
    /// The average call length, as text, if known.
    pub average_call: Option<String>,
    /// The longest call, as text, if known.
    pub longest_call: Option<String>,
    /// Calls per outcome, in key order.
    pub outcomes: Vec<(String, u64)>,
    /// Messages in the window.
    pub messages_total: u64,
    /// The average message length, as text, if known.
    pub average_message: Option<String>,
    /// Messages per status, in key order.
    pub messages_by_status: Vec<(String, u64)>,
    /// Question playbacks.
    pub playbacks: u64,
    /// Handset pickups.
    pub pickups: u64,
    /// Handset hangups.
    pub hangups: u64,
    /// How often each digit was dialled, in key order.
    pub digits: Vec<(String, u64)>,
    /// Uploads that succeeded.
    pub uploads_succeeded: u64,
    /// Uploads that failed.
    pub uploads_failed: u64,
    /// The upload failure rate, as text, if known.
    pub failure_rate: Option<String>,
    /// The busiest hour of the day (UTC), if known.
    pub busiest_hour: Option<u8>,
    /// The busiest day of the week (`0` = Sunday), if known.
    pub busiest_day: Option<u8>,
    /// Calls per hour of the day, as `(hour, calls)` buckets.
    pub hourly: Vec<(u8, u64)>,
    /// The most answered questions: message count and prompt.
    pub top_questions: Vec<(u64, String)>,
    /// Per-booth rows: booth id, calls, and messages when known.
    pub booths: Vec<(String, u64, Option<u64>)>,
    /// How long ago the overview was fetched, as text.
    pub fetched: String,
    /// When the server generated the overview, as text.
    pub generated: String,
}

/// `n` spaces.
pub open spec fn spaces(n: nat) -> Seq<char> {
    Seq::new(n, |i: int| ' ')
}

/// `t` padded with spaces on the right to `w` characters.
pub open spec fn pad_right(t: Seq<char>, w: nat) -> Seq<char> {
    if t.len() < w {
        t + spaces((w - t.len()) as nat)
    } else {
        t
    }
}

/// `t` padded with spaces on the left to `w` characters.
pub open spec fn pad_left(t: Seq<char>, w: nat) -> Seq<char> {
    if t.len() < w {
        spaces((w - t.len()) as nat) + t
    } else {
        t
    }
}

/// A subsection heading.
pub open spec fn subhead(title: Seq<char>) -> Seq<(Seq<char>, Tone, Emphasis)> {
    one(title, Tone::Accent, Emphasis::Normal)
}

/// A dim, indented `key` (separators as spaces, padded) and its count.
pub open spec fn count_line(e: (String, u64)) -> Seq<(Seq<char>, Tone, Emphasis)> {
    seq![
        ("  "@ + pad_right(e.0@.map_values(|c: char| humanized_char(c)), 11), Tone::Dim, Emphasis::Normal),
        (decimal(e.1 as nat), Tone::Plain, Emphasis::Normal),
    ]
}

/// A count line for each entry.
pub open spec fn count_lines(m: Seq<(String, u64)>) -> Seq<Seq<(Seq<char>, Tone, Emphasis)>> {
    m.map_values(|e: (String, u64)| count_line(e))
}

/// The dialled digits as `digit:count`, separated by two spaces.
pub open spec fn digits_text(d: Seq<(String, u64)>) -> Seq<char>
    decreases d.len(),
{
    if d.len() == 0 {
        Seq::empty()
    } else if d.len() == 1 {
        d[0].0@ + ":"@ + decimal(d[0].1 as nat)
    } else {
        digits_text(d.drop_last()) + "  "@ + d.last().0@ + ":"@ + decimal(d.last().1 as nat)
    }
}

/// A labelled line when `o` holds text.
pub open spec fn opt_kv(label: Seq<char>, o: Option<String>) -> Seq<Seq<(Seq<char>, Tone, Emphasis)>> {
    match o {
        Some(t) => seq![kv(label, t@)],
        None => Seq::empty(),
    }
}

/// `lines` when `shown`, nothing otherwise.
pub open spec fn when(shown: bool, lines: Seq<Seq<(Seq<char>, Tone, Emphasis)>>) -> Seq<
    Seq<(Seq<char>, Tone, Emphasis)>,
> {
    if shown {
        lines
    } else {
        Seq::empty()
    }
}

/// Calls per hour of the day: the buckets laid over 24 zeros in order, a
/// later bucket for the same hour replacing an earlier one, and buckets for
/// hours past 23 ignored.
pub open spec fn hours_of(buckets: Seq<(u8, u64)>) -> Seq<u64>
    decreases buckets.len(),
{
    if buckets.len() == 0 {
        Seq::new(24, |i: int| 0u64)
    } else {
        let earlier = hours_of(buckets.drop_last());
        let (hour, calls) = buckets.last();
        if hour < 24 {
            earlier.update(hour as int, calls)
        } else {
            earlier
        }
    }
}

/// The text of the busiest hour.
pub open spec fn busy_hour_text(h: Option<u8>) -> Seq<char> {
    match h {
        Some(h) => zero_padded(decimal(h as nat), 2) + ":00 UTC"@,
        None => "—"@,
    }
}

/// The text of the busiest day.
pub open spec fn busy_day_text(d: Option<u8>) -> Seq<char> {
    match d {
        Some(d) => day_name(d),
        None => "—"@,
    }
}

/// A top-question line: the message count right-aligned, then the prompt.
pub open spec fn top_line(q: (u64, String)) -> Seq<(Seq<char>, Tone, Emphasis)> {
    seq![
        (pad_left(decimal(q.0 as nat), 4) + "  "@, Tone::Accent, Emphasis::Normal),
        (truncated(q.1@, PROMPT_WIDTH as nat), Tone::Plain, Emphasis::Normal),
    ]
}

/// A booth line: its id, its calls, and its messages when known.
pub open spec fn booth_line(b: (String, u64, Option<u64>)) -> Seq<(Seq<char>, Tone, Emphasis)> {
    seq![
        (b.0@ + "  "@, Tone::Dim, Emphasis::Normal),
        (
            decimal(b.1 as nat) + " calls"@ + match b.2 {
                Some(n) => ", "@ + decimal(n as nat) + " msgs"@,
                None => Seq::empty(),
            },
            Tone::Plain,
            Emphasis::Normal,
        ),
    ]
}

/// The dashboard's head: title, window, range and last activity.
pub open spec fn head_model(v: StatsView) -> Seq<Seq<(Seq<char>, Tone, Emphasis)>> {
    seq![
        one(title_text(Screen::Stats), Tone::Accent, Emphasis::Bold),
        blank(),
        kv("Window:    "@, window_label(v.window)),
        kv("Range:     "@, v.range@),
    ] + opt_kv("Activity:  "@, v.activity)
}

/// The Calls and Messages sections.
pub open spec fn calls_model(v: StatsView) -> Seq<Seq<(Seq<char>, Tone, Emphasis)>> {
    seq![
        blank(),
        subhead("Calls"@),
        kv("Total:     "@, decimal(v.calls_total as nat)),
        kv(
            "Completed: "@,
            decimal(v.calls_completed as nat) + " ("@ + percent_text(v.calls_completed, v.calls_total)
                + ")"@,
        ),
    ] + when(v.calls_in_progress > 0, seq![kv("In flight: "@, decimal(v.calls_in_progress as nat))])
        + opt_kv("Avg call:  "@, v.average_call) + opt_kv("Longest:   "@, v.longest_call)
        + count_lines(v.outcomes@) + seq![
        blank(),
        subhead("Messages"@),
        kv("Total:     "@, decimal(v.messages_total as nat)),
    ] + opt_kv("Avg len:   "@, v.average_message) + count_lines(v.messages_by_status@)
}

/// The Activity, Uploads and When sections.
pub open spec fn activity_model(v: StatsView) -> Seq<Seq<(Seq<char>, Tone, Emphasis)>> {
    seq![
        blank(),
        subhead("Activity"@),
        kv("Playbacks: "@, decimal(v.playbacks as nat)),
        kv("Pickups:   "@, decimal(v.pickups as nat)),
        kv("Hangups:   "@, decimal(v.hangups as nat)),
    ] + when(v.digits@.len() > 0, seq![kv("Digits:    "@, digits_text(v.digits@))]) + seq![
        blank(),
        subhead("Uploads"@),
        kv("Succeeded: "@, decimal(v.uploads_succeeded as nat)),
        kv("Failed:    "@, decimal(v.uploads_failed as nat)),
    ] + opt_kv("Fail rate: "@, v.failure_rate) + seq![
        blank(),
        subhead("When"@),
        kv("Busy hour: "@, busy_hour_text(v.busiest_hour)),
        kv("Busy day:  "@, busy_day_text(v.busiest_day)),
    ] + when(
        v.hourly@.len() > 0,
        seq![
            kv("Calls/hr:  "@, sparkline_text(hours_of(v.hourly@))),
            hint("(per hour, 00–23 UTC; leftmost = midnight)"@),
        ],
    )
}

/// The Top questions and Booths sections, and the closing note.
pub open spec fn tail_model(v: StatsView, refreshing: bool) -> Seq<Seq<(Seq<char>, Tone, Emphasis)>> {
    when(
        v.top_questions@.len() > 0,
        seq![blank(), subhead("Top questions"@)] + v.top_questions@.take(
            if v.top_questions@.len() < TOP_QUESTIONS_SHOWN {
                v.top_questions@.len() as int
            } else {
                TOP_QUESTIONS_SHOWN as int
            },
        ).map_values(|q: (u64, String)| top_line(q)),
    ) + when(
        v.booths@.len() > 0,
        seq![blank(), subhead("Booths"@)] + v.booths@.map_values(
            |b: (String, u64, Option<u64>)| booth_line(b),
        ),
    ) + seq![
        blank(),
        if refreshing {
            hint("Refreshing…"@)
        } else {
            hint("Fetched "@ + v.fetched@ + " · generated "@ + v.generated@ + "."@)
        },
    ]
}

/// The whole dashboard for a loaded overview.
pub open spec fn stats_model(v: StatsView, refreshing: bool) -> Seq<Seq<(Seq<char>, Tone, Emphasis)>> {
    head_model(v) + calls_model(v) + activity_model(v) + tail_model(v, refreshing)
}

fn push_opt_kv(lines: &mut Vec<Line>, label: &str, o: &Option<String>)
    ensures
        lines_model(final(lines)@) == lines_model(old(lines)@) + opt_kv(label@, *o),
{
    let ghost start = lines_model(lines@);
    match o {
        Some(t) => push_line(
            lines,
            two_spans(label, Tone::Dim, Emphasis::Normal, t.as_str(), Tone::Plain, Emphasis::Normal),
        ),
        None => {},
    }
    assert(lines_model(lines@) =~= start + opt_kv(label@, *o));
}

fn push_kv_number(lines: &mut Vec<Line>, label: &str, n: u64)
    ensures
        lines_model(final(lines)@) == lines_model(old(lines)@).push(kv(label@, decimal(n as nat))),
{
    push_line(
        lines,
        two_spans(label, Tone::Dim, Emphasis::Normal, decimal_string(n).as_str(), Tone::Plain, Emphasis::Normal),
    );
}

fn push_sub(lines: &mut Vec<Line>, title: &str)
    ensures
        lines_model(final(lines)@) == lines_model(old(lines)@).push(blank()).push(subhead(title@)),
{
    push_line(lines, styled(String::new(), Tone::Plain, Emphasis::Normal));
    push_line(lines, text_line(title, Tone::Accent, Emphasis::Normal));
}

fn push_spaces(out: &mut String, n: usize)
    ensures
        final(out)@ == old(out)@ + spaces(n as nat),
{
    let ghost start = out@;
    let mut k: usize = 0;
    while k < n
        invariant
            k <= n,
            out@ == start + spaces(k as nat),
        decreases n - k,
    {
        push_char(out, ' ');
        assert(spaces((k + 1) as nat) =~= spaces(k as nat).push(' '));
        k = k + 1;
    }
}

pub(crate) fn padded_right(t: &str, w: usize) -> (r: String)
    ensures
        r@ == pad_right(t@, w as nat),
{
    let mut out = String::new();
    push_str(&mut out, t);
    let len = t.unicode_len();
    if len < w {
        push_spaces(&mut out, w - len);
    }
    out
}

fn padded_left(t: &str, w: usize) -> (r: String)
    ensures
        r@ == pad_left(t@, w as nat),
{
    let mut out = String::new();
    let len = t.unicode_len();
    if len < w {
        push_spaces(&mut out, w - len);
    }
    push_str(&mut out, t);
    out
}

fn push_count_lines(lines: &mut Vec<Line>, m: &Vec<(String, u64)>)
    ensures
        lines_model(final(lines)@) == lines_model(old(lines)@) + count_lines(m@),
{
    let ghost start = lines_model(lines@);
    let mut i: usize = 0;
    while i < m.len()
        invariant
            i <= m@.len(),
            lines_model(lines@) == start + count_lines(m@.take(i as int)),
        decreases m@.len() - i,
    {
        let key = humanize_key(m[i].0.as_str());
        let mut label = String::new();
        push_str(&mut label, "  ");
        push_str(&mut label, padded_right(key.as_str(), 11).as_str());
        push_line(
            lines,
            two_spans(
                label.as_str(),
                Tone::Dim,
                Emphasis::Normal,
                decimal_string(m[i].1).as_str(),
                Tone::Plain,
                Emphasis::Normal,
            ),
        );
        assert(m@.take(i + 1) =~= m@.take(i as int).push(m@[i as int]));
        assert(count_lines(m@.take(i + 1)) =~= count_lines(m@.take(i as int)).push(
            count_line(m@[i as int]),
        ));
        i = i + 1;
    }
    assert(m@.take(m@.len() as int) =~= m@);
}

fn digits_string(d: &Vec<(String, u64)>) -> (r: String)
    ensures
        r@ == digits_text(d@),
{
    let mut out = String::new();
    let mut i: usize = 0;
    while i < d.len()
        invariant
            i <= d@.len(),
            out@ == digits_text(d@.take(i as int)),
        decreases d@.len() - i,
    {
        let ghost before = d@.take(i as int);
        assert(d@.take(i + 1).drop_last() =~= before);
        if i > 0 {
            push_str(&mut out, "  ");
        }
        push_str(&mut out, d[i].0.as_str());
        push_str(&mut out, ":");
        push_decimal(&mut out, d[i].1);
        if i == 0 {
            assert(out@ =~= digits_text(d@.take(1)));
        } else {
            assert(out@ =~= digits_text(d@.take(i + 1)));
        }
        i = i + 1;
    }
    assert(d@.take(d@.len() as int) =~= d@);
    out
}

fn hour_counts(buckets: &Vec<(u8, u64)>) -> (r: Vec<u64>)
    ensures
        r@ == hours_of(buckets@),
{
    let mut by_hour: Vec<u64> = Vec::new();
    let mut h: usize = 0;
    while h < 24
        invariant
            h <= 24,
            by_hour@ == Seq::new(h as nat, |i: int| 0u64),
        decreases 24 - h,
    {
        by_hour.push(0);
        assert(Seq::new((h + 1) as nat, |i: int| 0u64) =~= Seq::new(h as nat, |i: int| 0u64).push(0));
        h = h + 1;
    }
    assert(buckets@.take(0) =~= Seq::<(u8, u64)>::empty());
    let mut i: usize = 0;
    while i < buckets.len()
        invariant
            i <= buckets@.len(),
            by_hour@ == hours_of(buckets@.take(i as int)),
            by_hour@.len() == 24,
        decreases buckets@.len() - i,
    {
        assert(buckets@.take(i + 1).drop_last() =~= buckets@.take(i as int));
        let (hour, calls) = buckets[i];
        if hour < 24 {
            by_hour.set(hour as usize, calls);
        }
        i = i + 1;
    }
    assert(buckets@.take(buckets@.len() as int) =~= buckets@);
    by_hour
}

fn push_top_questions(lines: &mut Vec<Line>, top: &Vec<(u64, String)>)
    ensures
        lines_model(final(lines)@) == lines_model(old(lines)@) + top@.take(
            if top@.len() < TOP_QUESTIONS_SHOWN {
                top@.len() as int
            } else {
                TOP_QUESTIONS_SHOWN as int
            },
        ).map_values(|q: (u64, String)| top_line(q)),
{
    let ghost start = lines_model(lines@);
    let n = if top.len() < TOP_QUESTIONS_SHOWN {
        top.len()
    } else {
        TOP_QUESTIONS_SHOWN
    };
    let mut i: usize = 0;
    while i < n
        invariant
            n <= top@.len(),
            i <= n,
            lines_model(lines@) == start + top@.take(i as int).map_values(
                |q: (u64, String)| top_line(q),
            ),
        decreases n - i,
    {
        let mut count = padded_left(decimal_string(top[i].0).as_str(), 4);
        push_str(&mut count, "  ");
        let prompt = truncate(top[i].1.as_str(), PROMPT_WIDTH);
        push_line(
            lines,
            two_spans(count.as_str(), Tone::Accent, Emphasis::Normal, prompt.as_str(), Tone::Plain, Emphasis::Normal),
        );
        assert(top@.take(i + 1) =~= top@.take(i as int).push(top@[i as int]));
        assert(top@.take(i + 1).map_values(|q: (u64, String)| top_line(q)) =~= top@.take(
            i as int,
        ).map_values(|q: (u64, String)| top_line(q)).push(top_line(top@[i as int])));
        i = i + 1;
    }
}

fn push_booths(lines: &mut Vec<Line>, booths: &Vec<(String, u64, Option<u64>)>)
    ensures
        lines_model(final(lines)@) == lines_model(old(lines)@) + booths@.map_values(
            |b: (String, u64, Option<u64>)| booth_line(b),
        ),
{
    let ghost start = lines_model(lines@);
    let mut i: usize = 0;
    while i < booths.len()
        invariant
            i <= booths@.len(),
            lines_model(lines@) == start + booths@.take(i as int).map_values(
                |b: (String, u64, Option<u64>)| booth_line(b),
            ),
        decreases booths@.len() - i,
    {
        let mut id = String::new();
        push_str(&mut id, booths[i].0.as_str());
        push_str(&mut id, "  ");
        let mut counts = decimal_string(booths[i].1);
        push_str(&mut counts, " calls");
        match booths[i].2 {
            Some(n) => {
                push_str(&mut counts, ", ");
                push_decimal(&mut counts, n);
                push_str(&mut counts, " msgs");
            },
            None => {},
        }
        assert(counts@ =~= booth_line(booths@[i as int])[1].0);
        assert(id@ =~= booth_line(booths@[i as int])[0].0);
        let line = two_spans(id.as_str(), Tone::Dim, Emphasis::Normal, counts.as_str(), Tone::Plain, Emphasis::Normal);
        assert(line_model(line) =~= booth_line(booths@[i as int]));
        push_line(lines, line);
        assert(booths@.take(i + 1) =~= booths@.take(i as int).push(booths@[i as int]));
        assert(booths@.take(i + 1).map_values(|b: (String, u64, Option<u64>)| booth_line(b))
            =~= booths@.take(i as int).map_values(|b: (String, u64, Option<u64>)| booth_line(b)).push(
            booth_line(booths@[i as int]),
        ));
        i = i + 1;
    }
    assert(booths@.take(booths@.len() as int) =~= booths@);
}

fn push_head(lines: &mut Vec<Line>, v: &StatsView)
    ensures
        lines_model(final(lines)@) == lines_model(old(lines)@) + head_model(*v),
{
    let ghost start = lines_model(lines@);
    push_line(lines, text_line(Screen::Stats.title(), Tone::Accent, Emphasis::Bold));
    push_line(lines, styled(String::new(), Tone::Plain, Emphasis::Normal));
    push_line(lines, two_spans("Window:    ", Tone::Dim, Emphasis::Normal, v.window.label(), Tone::Plain, Emphasis::Normal));
    push_line(lines, two_spans("Range:     ", Tone::Dim, Emphasis::Normal, v.range.as_str(), Tone::Plain, Emphasis::Normal));
    push_opt_kv(lines, "Activity:  ", &v.activity);
    assert(lines_model(lines@) =~= start + head_model(*v));
}

fn push_calls(lines: &mut Vec<Line>, v: &StatsView)
    ensures
        lines_model(final(lines)@) == lines_model(old(lines)@) + calls_model(*v),
{
    let ghost start = lines_model(lines@);
    push_sub(lines, "Calls");
    push_kv_number(lines, "Total:     ", v.calls_total);
    let mut completed = decimal_string(v.calls_completed);
    push_str(&mut completed, " (");
    push_str(&mut completed, percent(v.calls_completed, v.calls_total).as_str());
    push_str(&mut completed, ")");
    push_line(lines, two_spans("Completed: ", Tone::Dim, Emphasis::Normal, completed.as_str(), Tone::Plain, Emphasis::Normal));
    let ghost a = lines_model(lines@);
    if v.calls_in_progress > 0 {
        push_kv_number(lines, "In flight: ", v.calls_in_progress);
    }
    let ghost b = lines_model(lines@);
    push_opt_kv(lines, "Avg call:  ", &v.average_call);
    push_opt_kv(lines, "Longest:   ", &v.longest_call);
    push_count_lines(lines, &v.outcomes);
    push_sub(lines, "Messages");
    push_kv_number(lines, "Total:     ", v.messages_total);
    push_opt_kv(lines, "Avg len:   ", &v.average_message);
    push_count_lines(lines, &v.messages_by_status);
    assert(lines_model(lines@) =~= start + calls_model(*v));
}

fn push_activity(lines: &mut Vec<Line>, v: &StatsView)
    ensures
        lines_model(final(lines)@) == lines_model(old(lines)@) + activity_model(*v),
{
    let ghost start = lines_model(lines@);
    push_sub(lines, "Activity");
    push_kv_number(lines, "Playbacks: ", v.playbacks);
    push_kv_number(lines, "Pickups:   ", v.pickups);
    push_kv_number(lines, "Hangups:   ", v.hangups);
    if v.digits.len() > 0 {
        push_line(lines, two_spans("Digits:    ", Tone::Dim, Emphasis::Normal, digits_string(&v.digits).as_str(), Tone::Plain, Emphasis::Normal));
    }
    push_sub(lines, "Uploads");
    push_kv_number(lines, "Succeeded: ", v.uploads_succeeded);
    push_kv_number(lines, "Failed:    ", v.uploads_failed);
    push_opt_kv(lines, "Fail rate: ", &v.failure_rate);
    push_sub(lines, "When");
    let mut hour = String::new();
    match v.busiest_hour {
        Some(h) => {
            push_decimal_padded(&mut hour, h as u64, 2);
            push_str(&mut hour, ":00 UTC");
        },
        None => push_str(&mut hour, "—"),
    }
    push_line(lines, two_spans("Busy hour: ", Tone::Dim, Emphasis::Normal, hour.as_str(), Tone::Plain, Emphasis::Normal));
    let day = match v.busiest_day {
        Some(d) => day_of_week_label(d),
        None => "—",
    };
    push_line(lines, two_spans("Busy day:  ", Tone::Dim, Emphasis::Normal, day, Tone::Plain, Emphasis::Normal));
    if v.hourly.len() > 0 {
        let counts = hour_counts(&v.hourly);
        push_line(lines, two_spans("Calls/hr:  ", Tone::Dim, Emphasis::Normal, sparkline(counts.as_slice()).as_str(), Tone::Plain, Emphasis::Normal));
        push_line(lines, text_line("(per hour, 00–23 UTC; leftmost = midnight)", Tone::Dim, Emphasis::Italic));
    }
    assert(lines_model(lines@) =~= start + activity_model(*v));
}

fn push_tail(lines: &mut Vec<Line>, v: &StatsView, refreshing: bool)
    ensures
        lines_model(final(lines)@) == lines_model(old(lines)@) + tail_model(*v, refreshing),
{
    let ghost start = lines_model(lines@);
    if v.top_questions.len() > 0 {
        push_sub(lines, "Top questions");
        push_top_questions(lines, &v.top_questions);
    }
    let ghost a = lines_model(lines@);
    if v.booths.len() > 0 {
        push_sub(lines, "Booths");
        push_booths(lines, &v.booths);
    }
    let ghost b = lines_model(lines@);
    push_line(lines, styled(String::new(), Tone::Plain, Emphasis::Normal));
    if refreshing {
        push_line(lines, text_line("Refreshing…", Tone::Dim, Emphasis::Italic));
    } else {
        let mut note = String::new();
        push_str(&mut note, "Fetched ");
        push_str(&mut note, v.fetched.as_str());
        push_str(&mut note, " · generated ");
        push_str(&mut note, v.generated.as_str());
        push_str(&mut note, ".");
        push_line(lines, styled(note, Tone::Dim, Emphasis::Italic));
    }
    assert(lines_model(lines@) =~= start + tail_model(*v, refreshing));
}

/// The Statistics dashboard for a loaded overview: window, range and last
/// activity; calls with completion rate, outcomes and lengths; messages by
/// status; pickups, hangups and dialled digits; uploads; the busiest hour and
/// day with a per-hour sparkline; the top five questions; the booths; and
/// when it was fetched (or that a reload is under way).
pub fn stats_lines(view: &StatsView, refreshing: bool) -> (r: Vec<Line>)
    ensures
        lines_model(r@) == stats_model(*view, refreshing),
{
    let mut lines: Vec<Line> = Vec::new();
    let ghost g0 = lines_model(lines@);
    push_head(&mut lines, view);
    push_calls(&mut lines, view);
    push_activity(&mut lines, view);
    push_tail(&mut lines, view, refreshing);
    assert(g0 =~= Seq::empty());
    assert(lines_model(lines@) =~= stats_model(*view, refreshing));
    lines
}

/// The Statistics body while no overview is on show, given how long ago a
/// failure happened (in whole seconds).
pub open spec fn stats_pending_model<T>(window: StatsWindow, state: Remote<T>, secs: nat) -> Seq<
    Seq<(Seq<char>, Tone, Emphasis)>,
> {
    seq![
        one(title_text(Screen::Stats), Tone::Accent, Emphasis::Bold),
        blank(),
        kv("Window:    "@, window_label(window)),
        blank(),
    ] + match state {
        Remote::Failed { error, .. } => seq![
            one("Failed to load statistics: "@ + error@, Tone::Error, Emphasis::Normal),
            hint("Last attempt "@ + age_text(secs) + "."@),
            hint("Press r to retry."@),
        ],
        _ => seq![hint("Loading statistics…"@)],
    }
}

/// The Statistics body while no overview is on show: the window, and either
/// the loading note or the failure with how long ago it happened. How long
/// ago is read from the clock, so the contract holds for some number of
/// seconds.
pub fn stats_pending_lines<T>(window: StatsWindow, state: &Remote<T>) -> (r: Vec<Line>)
    ensures
        exists|secs: nat| lines_model(r@) == #[trigger] stats_pending_model(window, *state, secs),
{
    let mut lines: Vec<Line> = Vec::new();
    let ghost g0 = lines_model(lines@);
    push_line(&mut lines, text_line(Screen::Stats.title(), Tone::Accent, Emphasis::Bold));
    push_line(&mut lines, styled(String::new(), Tone::Plain, Emphasis::Normal));
    push_line(&mut lines, two_spans("Window:    ", Tone::Dim, Emphasis::Normal, window.label(), Tone::Plain, Emphasis::Normal));
    push_line(&mut lines, styled(String::new(), Tone::Plain, Emphasis::Normal));
    assert(g0 =~= Seq::empty());
    let ghost mut secs: nat = 0;
    match state {
        Remote::Failed { error, at } => {
            let mut first = owned("Failed to load statistics: ");
            push_str(&mut first, error.as_str());
            push_line(&mut lines, styled(first, Tone::Error, Emphasis::Normal));
            let age = ago(*at);
            proof {
                secs = choose|s: nat| age@ == age_text(s);
            }
            let mut note = owned("Last attempt ");
            push_str(&mut note, age.as_str());
            push_str(&mut note, ".");
            push_line(&mut lines, styled(note, Tone::Dim, Emphasis::Italic));
            push_line(&mut lines, text_line("Press r to retry.", Tone::Dim, Emphasis::Italic));
        },
        _ => {
            push_line(&mut lines, text_line("Loading statistics…", Tone::Dim, Emphasis::Italic));
        },
    }
    assert(lines_model(lines@) =~= stats_pending_model(window, *state, secs));
    lines
}

} // verus!
