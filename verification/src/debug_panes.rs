//! The text of the Debug screen's panels: the booth's state machine, its
//! GPIO pins, its logs, its redacted configuration, and the footer.

use vstd::prelude::*;
use crate::bodies::{hint, kv, labelled, mode_label, mode_name, owned, push_line, styled, text_line, two_spans, RuntimeMode};
use crate::booth::GpioPin;
use crate::chrome::{blank, line_model, lines_model, one, span_model, Emphasis, Line, Span, Tone};
use crate::details::push_kv;
use crate::format::{age_text, ago, bool_label, clock_text, flag_text, short_ts_str, truncate, truncated};
use crate::stats::{pad_right, padded_right};
use crate::text::{decimal, decimal_string, push_str};
use crate::theme::str_eq;

verus! {

/// What the Debug screen says when no booth is configured.
pub open spec fn unconfigured_model() -> Seq<Seq<(Seq<char>, Tone, Emphasis)>> {
    seq![
        one("Debug"@, Tone::Accent, Emphasis::Bold),
        blank(),
        one("No booth is configured, so there is no debug server to reach."@, Tone::Plain, Emphasis::Normal),
        blank(),
        hint("Add a [[booths]] entry (id + debug-base-url, optional debug-token) to config.toml."@),
    ]
}

/// Guidance shown on the Debug screen when no booth is configured.
pub fn debug_unconfigured_lines() -> (r: Vec<Line>)
    ensures
        lines_model(r@) == unconfigured_model(),
{
    let mut lines: Vec<Line> = Vec::new();
    let ghost g0 = lines_model(lines@);
    assert(g0 =~= Seq::empty());
    push_line(&mut lines, text_line("Debug", Tone::Accent, Emphasis::Bold));
    push_line(&mut lines, styled(String::new(), Tone::Plain, Emphasis::Normal));
    push_line(
        &mut lines,
        text_line("No booth is configured, so there is no debug server to reach.", Tone::Plain, Emphasis::Normal),
    );
    push_line(&mut lines, styled(String::new(), Tone::Plain, Emphasis::Normal));
    push_line(
        &mut lines,
        text_line(
            "Add a [[booths]] entry (id + debug-base-url, optional debug-token) to config.toml.",
            Tone::Dim,
            Emphasis::Italic,
        ),
    );
    assert(lines_model(lines@) =~= unconfigured_model());
    lines
}

/// The Debug screen before a first successful poll, given how long ago a
/// failure happened (in whole seconds): the failure and what to check, or
/// that the booth is being polled.
pub open spec fn pending_model(label: Seq<char>, failed: Option<Seq<char>>, secs: nat) -> Seq<
    Seq<(Seq<char>, Tone, Emphasis)>,
> {
    seq![one("Debug"@, Tone::Accent, Emphasis::Bold), blank()] + match failed {
        Some(e) => seq![
            one("Failed to reach booth debug server: "@ + e, Tone::Error, Emphasis::Normal),
            hint("Last attempt "@ + age_text(secs) + "."@),
            hint("Press r to retry. Check the booth URL/token and Tailscale reachability."@),
        ],
        None => seq![hint("Polling "@ + label + " for debug snapshots…"@)],
    }
}

/// The error text of a failure, if any.
pub open spec fn error_of(e: Option<(String, std::time::Instant)>) -> Option<Seq<char>> {
    match e {
        Some((t, _)) => Some(t@),
        None => None,
    }
}

/// The Debug screen before a first successful poll. How long ago is read
/// from the clock, so the contract holds for some number of seconds.
pub fn debug_pending_lines(label: &str, last_error: &Option<(String, std::time::Instant)>) -> (r: Vec<Line>)
    ensures
        exists|secs: nat| lines_model(r@) == #[trigger] pending_model(label@, error_of(*last_error), secs),
{
    let mut lines: Vec<Line> = Vec::new();
    let ghost g0 = lines_model(lines@);
    assert(g0 =~= Seq::empty());
    push_line(&mut lines, text_line("Debug", Tone::Accent, Emphasis::Bold));
    push_line(&mut lines, styled(String::new(), Tone::Plain, Emphasis::Normal));
    let ghost mut secs: nat = 0;
    match last_error {
        Some((error, at)) => {
            let mut first = owned("Failed to reach booth debug server: ");
            push_str(&mut first, error.as_str());
            push_line(&mut lines, styled(first, Tone::Error, Emphasis::Normal));
            let age = ago(*at);
            proof {
                secs = choose|s: nat| age@ == age_text(s);
            }
            let mut note = owned("Last attempt ");
            push_str(&mut note, age.as_str());
            push_str(&mut note, ".");
            push_line(&mut lines, styled(note, Tone::Dim, Emphasis::Italic));
            push_line(
                &mut lines,
                text_line(
                    "Press r to retry. Check the booth URL/token and Tailscale reachability.",
                    Tone::Dim,
                    Emphasis::Italic,
                ),
            );
        },
        None => {
            let mut note = owned("Polling ");
            push_str(&mut note, label);
            push_str(&mut note, " for debug snapshots…");
            push_line(&mut lines, styled(note, Tone::Dim, Emphasis::Italic));
        },
    }
    assert(lines_model(lines@) =~= pending_model(label@, error_of(*last_error), secs));
    lines
}

/// The booth's state machine as the State panel reads it.
pub struct DebugStateView {
    /// The state's name.
    pub state: String,
    /// When it was last updated, as the booth wrote it.
    pub updated_at: String,
    /// The question in play, if any.
    pub question: Option<String>,
    /// The message in play, if any.
    pub message: Option<String>,
    /// The last error, if any.
    pub error: Option<String>,
}

/// The colour of a state's name: errors in the error colour, idle dimmed,
/// anything else in the success colour.
pub open spec fn state_name_tone(state: Seq<char>) -> Tone {
    if state == "error"@ {
        Tone::Error
    } else if state == "idle"@ {
        Tone::Dim
    } else {
        Tone::Good
    }
}

/// The colour of a state's name.
pub fn debug_state_color(state: &str) -> (r: Tone)
    ensures
        r == state_name_tone(state@),
{
    if str_eq(state, "error") {
        Tone::Error
    } else if str_eq(state, "idle") {
        Tone::Dim
    } else {
        Tone::Good
    }
}

/// A labelled line when `o` holds text.
pub open spec fn opt_row(label: Seq<char>, o: Option<String>) -> Seq<Seq<(Seq<char>, Tone, Emphasis)>> {
    match o {
        Some(t) => seq![kv(label, t@)],
        None => Seq::empty(),
    }
}

/// The State panel: the state's name in its colour, when it was updated,
/// the question and message in play and the last error; or a note that no
/// state was reported.
pub open spec fn state_panel_model(s: Option<DebugStateView>) -> Seq<Seq<(Seq<char>, Tone, Emphasis)>> {
    match s {
        None => seq![hint("No state reported."@)],
        Some(s) => seq![
            seq![("State:    "@, Tone::Dim, Emphasis::Normal), (s.state@, state_name_tone(s.state@), Emphasis::Bold)],
            kv("Updated:  "@, s.updated_at@),
        ] + opt_row("Question: "@, s.question) + opt_row("Message:  "@, s.message) + match s.error {
            Some(e) => seq![labelled("Error:    "@, e@, Tone::Error)],
            None => Seq::empty(),
        },
    }
}

/// The State panel's lines.
pub fn debug_state_lines(state: Option<&DebugStateView>) -> (r: Vec<Line>)
    ensures
        lines_model(r@) == state_panel_model(crate::details::selected(state)),
{
    let mut lines: Vec<Line> = Vec::new();
    let ghost g0 = lines_model(lines@);
    assert(g0 =~= Seq::empty());
    match state {
        None => push_line(&mut lines, text_line("No state reported.", Tone::Dim, Emphasis::Italic)),
        Some(s) => {
            push_line(
                &mut lines,
                two_spans(
                    "State:    ",
                    Tone::Dim,
                    Emphasis::Normal,
                    s.state.as_str(),
                    debug_state_color(s.state.as_str()),
                    Emphasis::Bold,
                ),
            );
            push_kv(&mut lines, "Updated:  ", s.updated_at.as_str());
            let ghost a = lines_model(lines@);
            match &s.question {
                Some(q) => push_kv(&mut lines, "Question: ", q.as_str()),
                None => {},
            }
            let ghost b = lines_model(lines@);
            match &s.message {
                Some(m) => push_kv(&mut lines, "Message:  ", m.as_str()),
                None => {},
            }
            let ghost c = lines_model(lines@);
            match &s.error {
                Some(e) => push_line(
                    &mut lines,
                    two_spans("Error:    ", Tone::Dim, Emphasis::Normal, e.as_str(), Tone::Error, Emphasis::Normal),
                ),
                None => {},
            }
        },
    }
    assert(lines_model(lines@) =~= state_panel_model(crate::details::selected(state)));
    lines
}

/// A GPIO pin row: its role (cut to thirteen characters and padded), its
/// level, and the telemetry record that last reported it.
pub open spec fn pin_row(p: GpioPin<bool>) -> Seq<(Seq<char>, Tone, Emphasis)> {
    seq![
        (pad_right(truncated(p.role@, 13), 13) + " "@, Tone::Dim, Emphasis::Normal),
        if p.level {
            ("HIGH"@, Tone::Good, Emphasis::Normal)
        } else {
            ("LOW "@, Tone::Dim, Emphasis::Normal)
        },
        ("  #"@ + decimal(p.last_event_id as nat), Tone::Dim, Emphasis::Normal),
    ]
}

/// One GPIO pin row.
pub fn gpio_pin_line(p: &GpioPin<bool>) -> (r: Line)
    ensures
        line_model(r) == pin_row(*p),
{
    let mut role = padded_right(truncate(p.role.as_str(), 13).as_str(), 13);
    push_str(&mut role, " ");
    let (level, tone) = if p.level {
        ("HIGH", Tone::Good)
    } else {
        ("LOW ", Tone::Dim)
    };
    let mut id = owned("  #");
    push_str(&mut id, decimal_string(p.last_event_id).as_str());
    let mut spans: Vec<Span> = Vec::new();
    spans.push(Span { text: role, tone: Tone::Dim, emphasis: Emphasis::Normal });
    spans.push(Span { text: owned(level), tone, emphasis: Emphasis::Normal });
    spans.push(Span { text: id, tone: Tone::Dim, emphasis: Emphasis::Normal });
    let r = Line { spans };
    assert(line_model(r) =~= pin_row(*p));
    r
}

/// The GPIO panel: a row per pin, or a note that none were reported or that
/// no snapshot arrived.
pub open spec fn gpio_panel_model(pins: Option<Seq<GpioPin<bool>>>) -> Seq<Seq<(Seq<char>, Tone, Emphasis)>> {
    match pins {
        Some(ps) => if ps.len() > 0 {
            ps.map_values(|p: GpioPin<bool>| pin_row(p))
        } else {
            seq![hint("No GPIO pins reported."@)]
        },
        None => seq![hint("No GPIO snapshot."@)],
    }
}

/// The GPIO panel's lines.
pub fn debug_gpio_lines(pins: Option<&Vec<GpioPin<bool>>>) -> (r: Vec<Line>)
    ensures
        lines_model(r@) == gpio_panel_model(match pins {
            Some(v) => Some(v@),
            None => None,
        }),
{
    let mut lines: Vec<Line> = Vec::new();
    let ghost g0 = lines_model(lines@);
    assert(g0 =~= Seq::empty());
    match pins {
        None => push_line(&mut lines, text_line("No GPIO snapshot.", Tone::Dim, Emphasis::Italic)),
        Some(v) => {
            if v.len() == 0 {
                push_line(&mut lines, text_line("No GPIO pins reported.", Tone::Dim, Emphasis::Italic));
            } else {
                let mut i: usize = 0;
                while i < v.len()
                    invariant
                        i <= v@.len(),
                        lines_model(lines@) == v@.take(i as int).map_values(|p: GpioPin<bool>| pin_row(p)),
                    decreases v@.len() - i,
                {
                    push_line(&mut lines, gpio_pin_line(&v[i]));
                    assert(v@.take(i + 1) =~= v@.take(i as int).push(v@[i as int]));
                    assert(v@.take(i + 1).map_values(|p: GpioPin<bool>| pin_row(p)) =~= v@.take(
                        i as int,
                    ).map_values(|p: GpioPin<bool>| pin_row(p)).push(pin_row(v@[i as int])));
                    i = i + 1;
                }
                assert(v@.take(v@.len() as int) =~= v@);
            }
        },
    }
    lines
}


/// What `str::to_uppercase` gives for a text.
pub uninterp spec fn uppercase_of(s: Seq<char>) -> Seq<char>;

/// `s` in upper case (`str::to_uppercase`); the result is named by
/// [`uppercase_of`].
#[verifier::external_body]
fn to_upper(s: &str) -> (r: String)
    ensures
        r@ == uppercase_of(s@),
{
    s.to_uppercase()
}

/// A log line as the Logs panel reads it.
pub struct LogView {
    /// When it was logged, as the booth wrote it.
    pub ts: String,
    /// Its level.
    pub level: String,
    /// Its message.
    pub message: String,
}

/// The colour of a log level: errors and warnings in their colours, debug
/// and trace dimmed, anything else in the success colour.
pub open spec fn level_tone(level: Seq<char>) -> Tone {
    if level == "error"@ {
        Tone::Error
    } else if level == "warn"@ {
        Tone::Warn
    } else if level == "debug"@ || level == "trace"@ {
        Tone::Dim
    } else {
        Tone::Good
    }
}

/// The colour of a log level.
pub fn log_level_color(level: &str) -> (r: Tone)
    ensures
        r == level_tone(level@),
{
    if str_eq(level, "error") {
        Tone::Error
    } else if str_eq(level, "warn") {
        Tone::Warn
    } else if str_eq(level, "debug") || str_eq(level, "trace") {
        Tone::Dim
    } else {
        Tone::Good
    }
}

/// A log row: its clock time, its level in capitals (padded to five) in its
/// colour, and its message cut to eighty characters.
pub open spec fn log_row(e: LogView) -> Seq<(Seq<char>, Tone, Emphasis)> {
    seq![
        (clock_text(e.ts@) + " "@, Tone::Dim, Emphasis::Normal),
        (pad_right(uppercase_of(e.level@), 5) + " "@, level_tone(e.level@), Emphasis::Normal),
        (truncated(e.message@, 80), Tone::Plain, Emphasis::Normal),
    ]
}

/// One log row.
pub fn log_line(e: &LogView) -> (r: Line)
    ensures
        line_model(r) == log_row(*e),
{
    let mut when = short_ts_str(e.ts.as_str());
    push_str(&mut when, " ");
    let mut level = padded_right(to_upper(e.level.as_str()).as_str(), 5);
    push_str(&mut level, " ");
    let mut spans: Vec<Span> = Vec::new();
    spans.push(Span { text: when, tone: Tone::Dim, emphasis: Emphasis::Normal });
    spans.push(Span { text: level, tone: log_level_color(e.level.as_str()), emphasis: Emphasis::Normal });
    spans.push(Span { text: truncate(e.message.as_str(), 80), tone: Tone::Plain, emphasis: Emphasis::Normal });
    let r = Line { spans };
    assert(line_model(r) =~= log_row(*e));
    r
}

/// The Logs panel: the log lines oldest first (they are kept newest first),
/// or a note that there are none.
pub open spec fn logs_panel_model(logs: Seq<LogView>) -> Seq<Seq<(Seq<char>, Tone, Emphasis)>> {
    if logs.len() == 0 {
        seq![hint("No log lines."@)]
    } else {
        Seq::new(logs.len(), |i: int| log_row(logs[logs.len() - 1 - i]))
    }
}

/// The Logs panel's lines.
pub fn debug_logs_lines(logs: &Vec<LogView>) -> (r: Vec<Line>)
    ensures
        lines_model(r@) == logs_panel_model(logs@),
{
    let mut lines: Vec<Line> = Vec::new();
    let ghost g0 = lines_model(lines@);
    assert(g0 =~= Seq::empty());
    if logs.len() == 0 {
        push_line(&mut lines, text_line("No log lines.", Tone::Dim, Emphasis::Italic));
        return lines;
    }
    let n = logs.len();
    let mut k: usize = 0;
    while k < n
        invariant
            n == logs@.len(),
            k <= n,
            lines_model(lines@) == Seq::new(k as nat, |i: int| log_row(logs@[n - 1 - i])),
        decreases n - k,
    {
        push_line(&mut lines, log_line(&logs[n - 1 - k]));
        assert(Seq::new((k + 1) as nat, |i: int| log_row(logs@[n - 1 - i])) =~= Seq::new(
            k as nat,
            |i: int| log_row(logs@[n - 1 - i]),
        ).push(log_row(logs@[n - 1 - k])));
        k = k + 1;
    }
    lines
}

/// The booth's redacted configuration as the Config panel reads it.
pub struct DebugConfigView {
    /// Which hardware the booth runs on.
    pub runtime_mode: RuntimeMode,
    /// Whether the simulate controls are allowed.
    pub allow_controls: bool,
    /// Whether the Tailscale listener is on.
    pub tailscale_enabled: bool,
    /// Whether the LAN listener is on.
    pub lan_enabled: bool,
    /// How many telemetry records the ring buffer holds.
    pub ring_buffer_capacity: u64,
    /// The operator API the booth talks to, if set.
    pub operator_base_url: Option<String>,
    /// The booth's operator token, redacted.
    pub operator_token: String,
}

/// The Config panel: mode and controls, listeners, the operator API and
/// token; then the pinned certificate fingerprint.
pub open spec fn config_panel_model(c: Option<DebugConfigView>, pinned: Option<Seq<char>>) -> Seq<
    Seq<(Seq<char>, Tone, Emphasis)>,
> {
    let body = match c {
        None => seq![hint("No config reported."@)],
        Some(c) => seq![
            seq![
                ("Mode: "@, Tone::Dim, Emphasis::Normal),
                (mode_name(c.runtime_mode), Tone::Plain, Emphasis::Normal),
                ("   Controls: "@, Tone::Dim, Emphasis::Normal),
                if c.allow_controls {
                    ("allowed"@, Tone::Warn, Emphasis::Normal)
                } else {
                    ("blocked"@, Tone::Dim, Emphasis::Normal)
                },
            ],
            kv(
                "Listeners: "@,
                "tailscale "@ + flag_text(c.tailscale_enabled) + " · lan "@ + flag_text(c.lan_enabled)
                    + " · ring "@ + decimal(c.ring_buffer_capacity as nat),
            ),
        ] + opt_row("Operator: "@, c.operator_base_url) + seq![kv("Op token: "@, c.operator_token@)],
    };
    body + seq![
        kv(
            "Cert fp:  "@,
            match pinned {
                Some(p) => p,
                None => "not pinned"@,
            },
        ),
    ]
}

/// The Config panel's lines.
pub fn debug_config_lines(config: Option<&DebugConfigView>, pinned: Option<&str>) -> (r: Vec<Line>)
    ensures
        lines_model(r@) == config_panel_model(
            crate::details::selected(config),
            match pinned {
                Some(p) => Some(p@),
                None => None,
            },
        ),
{
    let mut lines: Vec<Line> = Vec::new();
    let ghost g0 = lines_model(lines@);
    assert(g0 =~= Seq::empty());
    match config {
        None => push_line(&mut lines, text_line("No config reported.", Tone::Dim, Emphasis::Italic)),
        Some(c) => {
            let (controls, tone) = if c.allow_controls {
                ("allowed", Tone::Warn)
            } else {
                ("blocked", Tone::Dim)
            };
            let mut spans: Vec<Span> = Vec::new();
            spans.push(Span { text: owned("Mode: "), tone: Tone::Dim, emphasis: Emphasis::Normal });
            spans.push(Span { text: owned(mode_label(c.runtime_mode)), tone: Tone::Plain, emphasis: Emphasis::Normal });
            spans.push(Span { text: owned("   Controls: "), tone: Tone::Dim, emphasis: Emphasis::Normal });
            spans.push(Span { text: owned(controls), tone, emphasis: Emphasis::Normal });
            let first = Line { spans };
            assert(line_model(first) =~= config_panel_model(Some(*c), None)[0]);
            push_line(&mut lines, first);
            let mut listeners = owned("tailscale ");
            push_str(&mut listeners, bool_label(c.tailscale_enabled));
            push_str(&mut listeners, " · lan ");
            push_str(&mut listeners, bool_label(c.lan_enabled));
            push_str(&mut listeners, " · ring ");
            push_str(&mut listeners, decimal_string(c.ring_buffer_capacity).as_str());
            push_kv(&mut lines, "Listeners: ", listeners.as_str());
            let ghost a = lines_model(lines@);
            match &c.operator_base_url {
                Some(u) => push_kv(&mut lines, "Operator: ", u.as_str()),
                None => {},
            }
            push_kv(&mut lines, "Op token: ", c.operator_token.as_str());
        },
    }
    let ghost before = lines_model(lines@);
    let fingerprint = match pinned {
        Some(p) => p,
        None => "not pinned",
    };
    push_kv(&mut lines, "Cert fp:  ", fingerprint);
    assert(lines_model(lines@) =~= config_panel_model(
        crate::details::selected(config),
        match pinned {
            Some(p) => Some(p@),
            None => None,
        },
    ));
    lines
}

/// What the Debug footer shows.
pub struct DebugFooter {
    /// The log level filter.
    pub log_level: String,
    /// Whether live telemetry is on.
    pub live: bool,
    /// When a round last succeeded on every endpoint, if ever.
    pub last_ok: Option<std::time::Instant>,
    /// Whether a poll is in flight.
    pub refreshing: bool,
    /// Whether the booth allows the simulate controls.
    pub controls_allowed: bool,
    /// The failures of the last round that had any.
    pub last_error: Option<String>,
    /// Why live telemetry stopped, if it did.
    pub live_error: Option<String>,
}

/// The Debug footer, given how long ago the last good poll was (when there
/// was one): the level; with live telemetry on, a live marker and its keys;
/// otherwise when it was last polled and the refresh keys (or that a poll is
/// in flight); then whether controls are allowed, the last error and the
/// live error.
pub open spec fn footer_model(f: DebugFooter, polled: Option<nat>) -> Seq<(Seq<char>, Tone, Emphasis)> {
    let polled_part = match polled {
        Some(secs) => seq![(" · polled "@ + age_text(secs), Tone::Dim, Emphasis::Normal)],
        None => Seq::empty(),
    };
    let refresh_part = if f.refreshing {
        seq![(" · refreshing…"@, Tone::Warn, Emphasis::Normal)]
    } else {
        seq![(" · auto every 2s · r refresh · f live · v level"@, Tone::Dim, Emphasis::Normal)]
    };
    let mode_part = if f.live {
        seq![(" · ● LIVE"@, Tone::Good, Emphasis::Bold), (" · f stop · v level"@, Tone::Dim, Emphasis::Normal)]
    } else {
        polled_part + refresh_part
    };
    let controls_part = if f.controls_allowed {
        seq![(" · controls allowed"@, Tone::Warn, Emphasis::Normal)]
    } else {
        Seq::empty()
    };
    let error_part = match f.last_error {
        Some(e) => seq![(" · last error: "@ + e@, Tone::Error, Emphasis::Normal)],
        None => Seq::empty(),
    };
    let live_part = match f.live_error {
        Some(e) => seq![(" · live: "@ + e@, Tone::Error, Emphasis::Normal)],
        None => Seq::empty(),
    };
    seq![("level "@ + f.log_level@, Tone::Dim, Emphasis::Normal)] + mode_part + controls_part + error_part
        + live_part
}

/// The Debug footer when the last good poll, if any, was `secs` seconds ago.
pub open spec fn footer_at(f: DebugFooter, secs: nat) -> Seq<(Seq<char>, Tone, Emphasis)> {
    footer_model(f, if f.last_ok is Some { Some(secs) } else { None })
}

fn push_span(spans: &mut Vec<Span>, text: String, tone: Tone, emphasis: Emphasis)
    ensures
        final(spans)@.map_values(|s: Span| span_model(s)) == old(spans)@.map_values(|s: Span| span_model(s)).push(
            (text@, tone, emphasis),
        ),
{
    let ghost before = spans@;
    let ghost t = text@;
    spans.push(Span { text, tone, emphasis });
    assert(spans@.map_values(|s: Span| span_model(s)) =~= before.map_values(|s: Span| span_model(s)).push(
        (t, tone, emphasis),
    ));
}

/// The Debug footer line. How long ago the last good poll was is read from
/// the clock, so the contract holds for some number of seconds.
pub fn debug_footer_line(f: &DebugFooter) -> (r: Line)
    ensures
        exists|secs: nat| line_model(r) == #[trigger] footer_at(*f, secs),
{
    let mut spans: Vec<Span> = Vec::new();
    let mut level = owned("level ");
    push_str(&mut level, f.log_level.as_str());
    push_span(&mut spans, level, Tone::Dim, Emphasis::Normal);
    let ghost mut secs: nat = 0;
    if f.live {
        push_span(&mut spans, owned(" · ● LIVE"), Tone::Good, Emphasis::Bold);
        push_span(&mut spans, owned(" · f stop · v level"), Tone::Dim, Emphasis::Normal);
    } else {
        match f.last_ok {
            Some(at) => {
                let age = ago(at);
                proof {
                    secs = choose|s: nat| age@ == age_text(s);
                }
                let mut polled = owned(" · polled ");
                push_str(&mut polled, age.as_str());
                push_span(&mut spans, polled, Tone::Dim, Emphasis::Normal);
            },
            None => {},
        }
        if f.refreshing {
            push_span(&mut spans, owned(" · refreshing…"), Tone::Warn, Emphasis::Normal);
        } else {
            push_span(&mut spans, owned(" · auto every 2s · r refresh · f live · v level"), Tone::Dim, Emphasis::Normal);
        }
    }
    if f.controls_allowed {
        push_span(&mut spans, owned(" · controls allowed"), Tone::Warn, Emphasis::Normal);
    }
    match &f.last_error {
        Some(e) => {
            let mut t = owned(" · last error: ");
            push_str(&mut t, e.as_str());
            push_span(&mut spans, t, Tone::Error, Emphasis::Normal);
        },
        None => {},
    }
    match &f.live_error {
        Some(e) => {
            let mut t = owned(" · live: ");
            push_str(&mut t, e.as_str());
            push_span(&mut spans, t, Tone::Error, Emphasis::Normal);
        },
        None => {},
    }
    let r = Line { spans };
    assert(line_model(r) =~= footer_at(*f, secs));
    r
}

} // verus!
