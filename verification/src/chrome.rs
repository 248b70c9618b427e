//! The text of the interface's overlays, as styled lines: the screen palette,
//! the account section, the sign-in gate, and the modal dialogs. Laying the
//! lines out on the terminal is left to the caller.

use vstd::prelude::*;
use crate::auth::{in_progress, AuthPhase};
use crate::icons::Icons;
use crate::modal::Modal;
use crate::nav::may_open;
use crate::screens::{nav_char, title_text, Screen};
use crate::format::{duration_text, format_duration};
use crate::text::{push_char, push_str};

verus! {

/// The colour role of a piece of text, resolved against the theme.
#[derive(Debug, Clone, Copy, PartialEq, Eq, Structural)]
pub enum Tone {
    /// The terminal's own colour.
    Plain,
    /// Body text.
    Fg,
    /// Secondary text.
    Dim,
    /// Highlights.
    Accent,
    /// Success.
    Good,
    /// Warnings.
    Warn,
    /// Errors.
    Error,
}

/// How a piece of text is set.
#[derive(Debug, Clone, Copy, PartialEq, Eq, Structural)]
pub enum Emphasis {
    /// Upright, normal weight.
    Normal,
    /// Bold.
    Bold,
    /// Italic.
    Italic,
    /// Faint and italic, for what cannot be chosen.
    FaintItalic,
}

/// A piece of text with its style.
#[derive(Debug, Clone, PartialEq, Eq)]
pub struct Span {
    /// The text.
    pub text: String,
    /// Its colour role.
    pub tone: Tone,
    /// How it is set.
    pub emphasis: Emphasis,
}

/// One line of styled text.
#[derive(Debug, Clone, PartialEq, Eq)]
pub struct Line {
    /// The pieces, left to right.
    pub spans: Vec<Span>,
}

/// A span as plain values.
pub open spec fn span_model(s: Span) -> (Seq<char>, Tone, Emphasis) {
    (s.text@, s.tone, s.emphasis)
}

/// A line as plain values.
pub open spec fn line_model(l: Line) -> Seq<(Seq<char>, Tone, Emphasis)> {
    l.spans@.map_values(|s: Span| span_model(s))
}

/// Lines as plain values.
pub open spec fn lines_model(ls: Seq<Line>) -> Seq<Seq<(Seq<char>, Tone, Emphasis)>> {
    ls.map_values(|l: Line| line_model(l))
}

/// An empty line.
pub open spec fn blank() -> Seq<(Seq<char>, Tone, Emphasis)> {
    seq![(Seq::<char>::empty(), Tone::Plain, Emphasis::Normal)]
}

/// A line of one piece.
pub open spec fn one(text: Seq<char>, tone: Tone, emphasis: Emphasis) -> Seq<
    (Seq<char>, Tone, Emphasis),
> {
    seq![(text, tone, emphasis)]
}

/// A line of two pieces.
pub open spec fn two(
    a: (Seq<char>, Tone, Emphasis),
    b: (Seq<char>, Tone, Emphasis),
) -> Seq<(Seq<char>, Tone, Emphasis)> {
    seq![a, b]
}

fn span(text: &str, tone: Tone, emphasis: Emphasis) -> (r: Span)
    ensures
        span_model(r) == (text@, tone, emphasis),
{
    Span { text: text.to_owned(), tone, emphasis }
}

fn joined(a: &str, b: &str, tone: Tone, emphasis: Emphasis) -> (r: Span)
    ensures
        span_model(r) == (a@ + b@, tone, emphasis),
{
    let mut text = String::new();
    push_str(&mut text, a);
    push_str(&mut text, b);
    Span { text, tone, emphasis }
}

fn line_of(spans: Vec<Span>) -> (r: Line)
    ensures
        line_model(r) == spans@.map_values(|s: Span| span_model(s)),
{
    Line { spans }
}

fn single(s: Span) -> (r: Line)
    ensures
        line_model(r) == seq![span_model(s)],
{
    let ghost g = s;
    let mut v = Vec::new();
    v.push(s);
    assert(v@.map_values(|s: Span| span_model(s)) =~= seq![span_model(g)]);
    Line { spans: v }
}

fn pair(a: Span, b: Span) -> (r: Line)
    ensures
        line_model(r) == seq![span_model(a), span_model(b)],
{
    let ghost (ga, gb) = (a, b);
    let mut v = Vec::new();
    v.push(a);
    v.push(b);
    assert(v@.map_values(|s: Span| span_model(s)) =~= seq![span_model(ga), span_model(gb)]);
    Line { spans: v }
}

fn triple(a: Span, b: Span, c: Span) -> (r: Line)
    ensures
        line_model(r) == seq![span_model(a), span_model(b), span_model(c)],
{
    let ghost (ga, gb, gc) = (a, b, c);
    let mut v = Vec::new();
    v.push(a);
    v.push(b);
    v.push(c);
    assert(v@.map_values(|s: Span| span_model(s)) =~= seq![
        span_model(ga),
        span_model(gb),
        span_model(gc),
    ]);
    Line { spans: v }
}

fn empty_line() -> (r: Line)
    ensures
        line_model(r) == blank(),
{
    let s = String::new();
    single(Span { text: s, tone: Tone::Plain, emphasis: Emphasis::Normal })
}

fn push_line(lines: &mut Vec<Line>, line: Line)
    ensures
        lines_model(final(lines)@) == lines_model(old(lines)@).push(line_model(line)),
{
    let ghost before = lines@;
    let ghost l = line;
    lines.push(line);
    assert(lines_model(lines@) =~= lines_model(before).push(line_model(l)));
}

/// The account section's lines for a login phase.
pub open spec fn account_model(phase: AuthPhase, icons: Icons) -> Seq<
    Seq<(Seq<char>, Tone, Emphasis)>,
> {
    match phase {
        AuthPhase::SignedOut => seq![
            two(
                ("  "@ + icons.signed_out_text(), Tone::Dim, Emphasis::Normal),
                ("Signed out"@, Tone::Dim, Emphasis::Normal),
            ),
        ],
        AuthPhase::Starting => seq![
            two(
                ("  "@ + icons.awaiting_text(), Tone::Warn, Emphasis::Normal),
                ("Starting login…"@, Tone::Warn, Emphasis::Normal),
            ),
        ],
        AuthPhase::AwaitingApproval(pending) => seq![
            two(
                ("  "@ + icons.awaiting_text(), Tone::Warn, Emphasis::Normal),
                ("Awaiting approval"@, Tone::Warn, Emphasis::Normal),
            ),
            two(
                ("  Visit: "@, Tone::Dim, Emphasis::Normal),
                (pending.verification_uri@, Tone::Plain, Emphasis::Normal),
            ),
            two(
                ("  Code:  "@, Tone::Dim, Emphasis::Normal),
                (pending.user_code@, Tone::Accent, Emphasis::Bold),
            ),
        ],
        AuthPhase::SignedIn { .. } => seq![
            two(
                ("  "@ + icons.signed_in_text(), Tone::Good, Emphasis::Normal),
                ("Signed in"@, Tone::Good, Emphasis::Normal),
            ),
        ],
        AuthPhase::Failed(message) => seq![
            two(
                ("  "@ + icons.error_text(), Tone::Error, Emphasis::Normal),
                ("Login failed"@, Tone::Error, Emphasis::Normal),
            ),
            two(
                ("  Reason: "@, Tone::Dim, Emphasis::Normal),
                (message@, Tone::Plain, Emphasis::Normal),
            ),
        ],
    }
}

/// Append the account section for `phase`: the login state, and while a login
/// waits for approval the URL to visit and the code to enter.
pub fn push_account_lines(lines: &mut Vec<Line>, phase: &AuthPhase, icons: Icons)
    ensures
        lines_model(final(lines)@) == lines_model(old(lines)@) + account_model(*phase, icons),
{
    let ghost start = lines_model(lines@);
    match phase {
        AuthPhase::SignedOut => {
            push_line(
                lines,
                pair(
                    joined("  ", icons.signed_out(), Tone::Dim, Emphasis::Normal),
                    span("Signed out", Tone::Dim, Emphasis::Normal),
                ),
            );
        },
        AuthPhase::Starting => {
            push_line(
                lines,
                pair(
                    joined("  ", icons.awaiting(), Tone::Warn, Emphasis::Normal),
                    span("Starting login…", Tone::Warn, Emphasis::Normal),
                ),
            );
        },
        AuthPhase::AwaitingApproval(pending) => {
            push_line(
                lines,
                pair(
                    joined("  ", icons.awaiting(), Tone::Warn, Emphasis::Normal),
                    span("Awaiting approval", Tone::Warn, Emphasis::Normal),
                ),
            );
            push_line(
                lines,
                pair(
                    span("  Visit: ", Tone::Dim, Emphasis::Normal),
                    span(pending.verification_uri.as_str(), Tone::Plain, Emphasis::Normal),
                ),
            );
            push_line(
                lines,
                pair(
                    span("  Code:  ", Tone::Dim, Emphasis::Normal),
                    span(pending.user_code.as_str(), Tone::Accent, Emphasis::Bold),
                ),
            );
        },
        AuthPhase::SignedIn { .. } => {
            push_line(
                lines,
                pair(
                    joined("  ", icons.signed_in(), Tone::Good, Emphasis::Normal),
                    span("Signed in", Tone::Good, Emphasis::Normal),
                ),
            );
        },
        AuthPhase::Failed(message) => {
            push_line(
                lines,
                pair(
                    joined("  ", icons.error(), Tone::Error, Emphasis::Normal),
                    span("Login failed", Tone::Error, Emphasis::Normal),
                ),
            );
            push_line(
                lines,
                pair(
                    span("  Reason: ", Tone::Dim, Emphasis::Normal),
                    span(message.as_str(), Tone::Plain, Emphasis::Normal),
                ),
            );
        },
    }
    assert(lines_model(lines@) =~= start + account_model(*phase, icons));
}

/// The sign-in gate's lines.
pub open spec fn gate_model(phase: AuthPhase, icons: Icons) -> Seq<
    Seq<(Seq<char>, Tone, Emphasis)>,
> {
    seq![
        one(icons.brand_text() + "tb-operator"@, Tone::Accent, Emphasis::Bold),
        blank(),
        one("Sign in to the operator API to continue."@, Tone::Fg, Emphasis::Normal),
        blank(),
    ] + account_model(phase, icons) + seq![
        blank(),
        one(
            if in_progress(phase) {
                "Esc cancel login · q quit"@
            } else {
                "L log in · q quit"@
            },
            Tone::Dim,
            Emphasis::Normal,
        ),
    ]
}

/// The lines of the sign-in gate shown before an operator session exists:
/// the login instructions, and the device code while a login is under way.
pub fn login_gate_lines(phase: &AuthPhase, icons: Icons) -> (r: Vec<Line>)
    ensures
        lines_model(r@) == gate_model(*phase, icons),
{
    let mut lines: Vec<Line> = Vec::new();
    let ghost g0 = lines_model(lines@);
    push_line(&mut lines, single(joined(icons.brand(), "tb-operator", Tone::Accent, Emphasis::Bold)));
    push_line(&mut lines, empty_line());
    push_line(
        &mut lines,
        single(span("Sign in to the operator API to continue.", Tone::Fg, Emphasis::Normal)),
    );
    push_line(&mut lines, empty_line());
    let ghost g1 = lines_model(lines@);
    push_account_lines(&mut lines, phase, icons);
    let ghost g2 = lines_model(lines@);
    push_line(&mut lines, empty_line());
    let in_progress_now = match phase {
        AuthPhase::Starting => true,
        AuthPhase::AwaitingApproval(_) => true,
        _ => false,
    };
    let hint = if in_progress_now {
        "Esc cancel login · q quit"
    } else {
        "L log in · q quit"
    };
    push_line(&mut lines, single(span(hint, Tone::Dim, Emphasis::Normal)));
    assert(g0 =~= Seq::empty());
    assert(lines_model(lines@) =~= gate_model(*phase, icons));
    lines
}

/// The marker before a palette row: `›` on the focused screen.
pub open spec fn marker_text(focused: bool) -> Seq<char> {
    if focused {
        "  › "@
    } else {
        "    "@
    }
}

/// A palette row for `screen`: locked (dim, marked "(admin)") when the
/// operator may not open it, highlighted when it is focused.
pub open spec fn row_model(screen: Screen, current: Screen, is_admin: bool, icons: Icons) -> Seq<
    (Seq<char>, Tone, Emphasis),
> {
    let locked = !may_open(screen, is_admin);
    seq![
        (marker_text(screen == current), Tone::Accent, Emphasis::Normal),
        (
            seq![nav_char(screen), ' '],
            if locked {
                Tone::Dim
            } else {
                Tone::Accent
            },
            if locked {
                Emphasis::Normal
            } else {
                Emphasis::Bold
            },
        ),
        (
            icons.tab_text(screen) + title_text(screen) + if locked {
                " (admin)"@
            } else {
                Seq::<char>::empty()
            },
            if locked {
                Tone::Dim
            } else if screen == current {
                Tone::Accent
            } else {
                Tone::Fg
            },
            if locked {
                Emphasis::FaintItalic
            } else if screen == current {
                Emphasis::Bold
            } else {
                Emphasis::Normal
            },
        ),
    ]
}

/// A group of palette rows under a heading.
pub open spec fn group_model(
    title: Seq<char>,
    screens: Seq<Screen>,
    current: Screen,
    is_admin: bool,
    icons: Icons,
) -> Seq<Seq<(Seq<char>, Tone, Emphasis)>> {
    seq![one("  "@ + title, Tone::Dim, Emphasis::Bold)] + screens.map_values(
        |s: Screen| row_model(s, current, is_admin, icons),
    )
}

fn screen_row(screen: Screen, current: Screen, is_admin: bool, icons: Icons) -> (r: Line)
    ensures
        line_model(r) == row_model(screen, current, is_admin, icons),
{
    let locked = screen.is_admin_only() && !is_admin;
    let marker = if screen == current {
        "  › "
    } else {
        "    "
    };
    let mut key = String::new();
    push_char(&mut key, screen.nav_key());
    push_char(&mut key, ' ');
    let mut label = String::new();
    push_str(&mut label, icons.tab(screen));
    push_str(&mut label, screen.title());
    if locked {
        push_str(&mut label, " (admin)");
    }
    let ghost want = row_model(screen, current, is_admin, icons);
    let (key_tone, key_emphasis) = if locked {
        (Tone::Dim, Emphasis::Normal)
    } else {
        (Tone::Accent, Emphasis::Bold)
    };
    let (label_tone, label_emphasis) = if locked {
        (Tone::Dim, Emphasis::FaintItalic)
    } else if screen == current {
        (Tone::Accent, Emphasis::Bold)
    } else {
        (Tone::Fg, Emphasis::Normal)
    };
    let r = triple(
        span(marker, Tone::Accent, Emphasis::Normal),
        Span { text: key, tone: key_tone, emphasis: key_emphasis },
        Span { text: label, tone: label_tone, emphasis: label_emphasis },
    );
    assert(seq![nav_char(screen)].push(' ') =~= seq![nav_char(screen), ' ']);
    if !locked {
        assert(icons.tab_text(screen) + title_text(screen) =~= icons.tab_text(screen)
            + title_text(screen) + Seq::<char>::empty());
    }
    assert(line_model(r) =~= want);
    r
}

fn push_group(
    lines: &mut Vec<Line>,
    title: &str,
    screens: &[Screen],
    current: Screen,
    is_admin: bool,
    icons: Icons,
)
    ensures
        lines_model(final(lines)@) == lines_model(old(lines)@) + group_model(
            title@,
            screens@,
            current,
            is_admin,
            icons,
        ),
{
    let ghost start = lines_model(lines@);
    push_line(lines, single(joined("  ", title, Tone::Dim, Emphasis::Bold)));
    let ghost head = lines_model(lines@);
    let mut i: usize = 0;
    while i < screens.len()
        invariant
            i <= screens@.len(),
            head == start.push(one("  "@ + title@, Tone::Dim, Emphasis::Bold)),
            lines_model(lines@) == head + screens@.subrange(0, i as int).map_values(
                |s: Screen| row_model(s, current, is_admin, icons),
            ),
        decreases screens@.len() - i,
    {
        let ghost before = lines_model(lines@);
        push_line(lines, screen_row(screens[i], current, is_admin, icons));
        assert(screens@.subrange(0, i + 1) =~= screens@.subrange(0, i as int).push(screens@[i as int]));
        assert(screens@.subrange(0, i + 1).map_values(
            |s: Screen| row_model(s, current, is_admin, icons),
        ) =~= screens@.subrange(0, i as int).map_values(
            |s: Screen| row_model(s, current, is_admin, icons),
        ).push(row_model(screens@[i as int], current, is_admin, icons)));
        i = i + 1;
    }
    assert(screens@.subrange(0, screens@.len() as int) =~= screens@);
    assert(lines_model(lines@) =~= start + group_model(title@, screens@, current, is_admin, icons));
}

/// The screens of the palette's "Operator" group.
pub open spec fn operator_group() -> Seq<Screen> {
    seq![
        Screen::Status,
        Screen::Messages,
        Screen::Questions,
        Screen::Events,
        Screen::Sessions,
        Screen::Stats,
    ]
}

/// The screens of the palette's "System" group.
pub open spec fn system_group() -> Seq<Screen> {
    seq![Screen::LiveSystem, Screen::SystemHealth, Screen::Debug]
}

/// The screens of the palette's "Admin" group.
pub open spec fn admin_group() -> Seq<Screen> {
    seq![Screen::Tokens, Screen::Settings, Screen::About]
}

/// A palette line for an action other than a screen.
pub open spec fn action_model(key: Seq<char>, desc: Seq<char>) -> Seq<(Seq<char>, Tone, Emphasis)> {
    seq![
        ("    "@, Tone::Dim, Emphasis::Normal),
        (key + " "@, Tone::Accent, Emphasis::Bold),
        (desc, Tone::Fg, Emphasis::Normal),
    ]
}

/// The screen palette's lines.
pub open spec fn palette_model(current: Screen, is_admin: bool, phase: AuthPhase, icons: Icons) -> Seq<
    Seq<(Seq<char>, Tone, Emphasis)>,
> {
    seq![one("Go to screen"@, Tone::Accent, Emphasis::Bold)] + group_model(
        "Operator"@,
        operator_group(),
        current,
        is_admin,
        icons,
    ) + group_model("System"@, system_group(), current, is_admin, icons) + group_model(
        "Admin"@,
        admin_group(),
        current,
        is_admin,
        icons,
    ) + seq![blank(), one("Account"@, Tone::Accent, Emphasis::Bold)] + account_model(
        phase,
        icons,
    ) + seq![
        action_model("L"@, "Log in (Authentik device code)"@),
        action_model("O"@, "Sign out"@),
        blank(),
        one(
            "Tab/Shift-Tab still cycle screens. Esc or ? closes this palette."@,
            Tone::Dim,
            Emphasis::Italic,
        ),
    ]
}

fn action_line(key: &str, desc: &str) -> (r: Line)
    ensures
        line_model(r) == action_model(key@, desc@),
{
    triple(
        span("    ", Tone::Dim, Emphasis::Normal),
        joined(key, " ", Tone::Accent, Emphasis::Bold),
        span(desc, Tone::Fg, Emphasis::Normal),
    )
}

/// The lines of the `?` screen palette: the screens in three groups, locked
/// where the operator may not open them, then the account section with the
/// login and sign-out keys.
pub fn palette_lines(current: Screen, is_admin: bool, phase: &AuthPhase, icons: Icons) -> (r: Vec<
    Line,
>)
    ensures
        lines_model(r@) == palette_model(current, is_admin, *phase, icons),
{
    let mut lines: Vec<Line> = Vec::new();
    let ghost g0 = lines_model(lines@);
    push_line(&mut lines, single(span("Go to screen", Tone::Accent, Emphasis::Bold)));
    let operator = [
        Screen::Status,
        Screen::Messages,
        Screen::Questions,
        Screen::Events,
        Screen::Sessions,
        Screen::Stats,
    ];
    let system = [Screen::LiveSystem, Screen::SystemHealth, Screen::Debug];
    let admin = [Screen::Tokens, Screen::Settings, Screen::About];
    assert(operator@ =~= operator_group());
    assert(system@ =~= system_group());
    assert(admin@ =~= admin_group());
    push_group(&mut lines, "Operator", &operator, current, is_admin, icons);
    push_group(&mut lines, "System", &system, current, is_admin, icons);
    push_group(&mut lines, "Admin", &admin, current, is_admin, icons);
    let ghost g1 = lines_model(lines@);
    push_line(&mut lines, empty_line());
    push_line(&mut lines, single(span("Account", Tone::Accent, Emphasis::Bold)));
    let ghost g2 = lines_model(lines@);
    push_account_lines(&mut lines, phase, icons);
    let ghost g3 = lines_model(lines@);
    push_line(&mut lines, action_line("L", "Log in (Authentik device code)"));
    push_line(&mut lines, action_line("O", "Sign out"));
    push_line(&mut lines, empty_line());
    push_line(
        &mut lines,
        single(
            span(
                "Tab/Shift-Tab still cycle screens. Esc or ? closes this palette.",
                Tone::Dim,
                Emphasis::Italic,
            ),
        ),
    );
    assert(g0 =~= Seq::empty());
    assert(lines_model(lines@) =~= palette_model(current, is_admin, *phase, icons));
    lines
}

/// A modal's title and lines.
pub open spec fn modal_model(modal: Modal) -> (Seq<char>, Seq<Seq<(Seq<char>, Tone, Emphasis)>>) {
    match modal {
        Modal::Confirm(m) => (
            m.title@,
            seq![
                one(m.body@, Tone::Fg, Emphasis::Normal),
                blank(),
                one("y confirm   n/Esc cancel"@, Tone::Dim, Emphasis::Normal),
            ],
        ),
        Modal::Prompt(m) => (
            m.title_text(),
            seq![
                one(m.label_text() + ":"@, Tone::Dim, Emphasis::Normal),
                one(modal.input_text() + "█"@, Tone::Fg, Emphasis::Normal),
                blank(),
                one("Enter submit   Esc cancel"@, Tone::Dim, Emphasis::Normal),
            ],
        ),
    }
}

/// The title and lines of a modal: a confirmation's question and its keys, or
/// a prompt's label, the text typed so far with a cursor, and its keys.
pub fn modal_lines(modal: &Modal) -> (r: (String, Vec<Line>))
    ensures
        r.0@ == modal_model(*modal).0,
        lines_model(r.1@) == modal_model(*modal).1,
{
    let mut lines: Vec<Line> = Vec::new();
    let ghost g0 = lines_model(lines@);
    let mut title = String::new();
    match modal {
        Modal::Confirm(m) => {
            push_str(&mut title, m.title.as_str());
            push_line(&mut lines, single(span(m.body.as_str(), Tone::Fg, Emphasis::Normal)));
            push_line(&mut lines, empty_line());
            push_line(
                &mut lines,
                single(span("y confirm   n/Esc cancel", Tone::Dim, Emphasis::Normal)),
            );
        },
        Modal::Prompt(m) => {
            push_str(&mut title, m.title_str());
            push_line(&mut lines, single(joined(m.label_str(), ":", Tone::Dim, Emphasis::Normal)));
            push_line(&mut lines, single(joined(modal.input(), "█", Tone::Fg, Emphasis::Normal)));
            push_line(&mut lines, empty_line());
            push_line(
                &mut lines,
                single(span("Enter submit   Esc cancel", Tone::Dim, Emphasis::Normal)),
            );
        },
    }
    assert(g0 =~= Seq::empty());
    assert(lines_model(lines@) =~= modal_model(*modal).1);
    (title, lines)
}


/// Where the audio player stands.
#[derive(Debug, Clone, Copy, PartialEq, Eq, Structural)]
pub enum PlaybackStatus {
    /// Nothing loaded.
    Idle,
    /// Playing.
    Playing,
    /// Paused.
    Paused,
    /// Played to the end.
    Ended,
}

/// What the audio player reports about the track it holds.
#[derive(Debug, Clone, PartialEq, Eq)]
pub struct PlaybackSnapshot {
    /// Where the player stands.
    pub status: PlaybackStatus,
    /// The position in the track, in milliseconds.
    pub position_ms: i64,
    /// The track's length in milliseconds, when known.
    pub total_ms: Option<i64>,
    /// The last playback error, if any.
    pub error: Option<String>,
}

/// The badge text and tone for a player status.
pub open spec fn status_badge(status: PlaybackStatus) -> (Seq<char>, Tone) {
    match status {
        PlaybackStatus::Idle => ("[idle]"@, Tone::Dim),
        PlaybackStatus::Playing => ("[playing]"@, Tone::Good),
        PlaybackStatus::Paused => ("[paused]"@, Tone::Warn),
        PlaybackStatus::Ended => ("[ended]"@, Tone::Dim),
    }
}

/// The position shown for a track: the position, and the length after a
/// slash when it is known.
pub open spec fn progress_text(position_ms: i64, total_ms: Option<i64>) -> Seq<char> {
    match total_ms {
        Some(total) => duration_text(position_ms as int) + " / "@ + duration_text(total as int),
        None => duration_text(position_ms as int),
    }
}

/// The hint under an idle player.
pub open spec fn play_hint() -> Seq<(Seq<char>, Tone, Emphasis)> {
    one("Press p to play the selected audio."@, Tone::Dim, Emphasis::Italic)
}

/// The playback lines under the Messages and Questions detail panes.
pub open spec fn playback_model(
    available: bool,
    reason: Option<Seq<char>>,
    loading: bool,
    snapshot: Option<PlaybackSnapshot>,
) -> Seq<Seq<(Seq<char>, Tone, Emphasis)>> {
    let head = seq![one("Playback"@, Tone::Accent, Emphasis::Normal)];
    if !available {
        head.push(
            one(
                "Unavailable: "@ + match reason {
                    Some(r) => r,
                    None => "audio output is unavailable"@,
                },
                Tone::Dim,
                Emphasis::Italic,
            ),
        )
    } else if loading {
        head.push(one("Loading audio…"@, Tone::Dim, Emphasis::Italic))
    } else {
        match snapshot {
            None => head.push(play_hint()),
            Some(snap) => {
                let status_line = seq![
                    ("Status:   "@, Tone::Dim, Emphasis::Normal),
                    (status_badge(snap.status).0, status_badge(snap.status).1, Emphasis::Bold),
                    ("  "@, Tone::Plain, Emphasis::Normal),
                    (progress_text(snap.position_ms, snap.total_ms), Tone::Fg, Emphasis::Normal),
                ];
                let with_error = match snap.error {
                    Some(e) => head.push(status_line).push(
                        one("Error: "@ + e@, Tone::Error, Emphasis::Normal),
                    ),
                    None => head.push(status_line),
                };
                if snap.status == PlaybackStatus::Idle || snap.status == PlaybackStatus::Ended {
                    with_error.push(play_hint())
                } else {
                    with_error
                }
            },
        }
    }
}

fn badge_for(status: PlaybackStatus) -> (r: Span)
    ensures
        span_model(r) == (status_badge(status).0, status_badge(status).1, Emphasis::Bold),
{
    match status {
        PlaybackStatus::Idle => span("[idle]", Tone::Dim, Emphasis::Bold),
        PlaybackStatus::Playing => span("[playing]", Tone::Good, Emphasis::Bold),
        PlaybackStatus::Paused => span("[paused]", Tone::Warn, Emphasis::Bold),
        PlaybackStatus::Ended => span("[ended]", Tone::Dim, Emphasis::Bold),
    }
}

/// The playback lines: why audio is unavailable, that it is loading, or the
/// player's status with the position (and length) of the track, its last
/// error, and a hint to press `p` when nothing is playing.
pub fn playback_lines(
    available: bool,
    reason: Option<&str>,
    loading: bool,
    snapshot: Option<&PlaybackSnapshot>,
) -> (r: Vec<Line>)
    ensures
        lines_model(r@) == playback_model(
            available,
            match reason {
                Some(t) => Some(t@),
                None => None,
            },
            loading,
            match snapshot {
                Some(s) => Some(*s),
                None => None,
            },
        ),
{
    let mut lines: Vec<Line> = Vec::new();
    let ghost g0 = lines_model(lines@);
    push_line(&mut lines, single(span("Playback", Tone::Accent, Emphasis::Normal)));
    assert(g0 =~= Seq::empty());
    if !available {
        let why = match reason {
            Some(t) => t,
            None => "audio output is unavailable",
        };
        push_line(&mut lines, single(joined("Unavailable: ", why, Tone::Dim, Emphasis::Italic)));
        return lines;
    }
    if loading {
        push_line(&mut lines, single(span("Loading audio…", Tone::Dim, Emphasis::Italic)));
        return lines;
    }
    let snap = match snapshot {
        Some(snap) => snap,
        None => {
            push_line(
                &mut lines,
                single(span("Press p to play the selected audio.", Tone::Dim, Emphasis::Italic)),
            );
            return lines;
        },
    };
    let mut progress = format_duration(snap.position_ms);
    match snap.total_ms {
        Some(total) => {
            push_str(&mut progress, " / ");
            push_str(&mut progress, format_duration(total).as_str());
        },
        None => {},
    }
    let ghost status_line = seq![
        ("Status:   "@, Tone::Dim, Emphasis::Normal),
        (status_badge(snap.status).0, status_badge(snap.status).1, Emphasis::Bold),
        ("  "@, Tone::Plain, Emphasis::Normal),
        (progress_text(snap.position_ms, snap.total_ms), Tone::Fg, Emphasis::Normal),
    ];
    let a = span("Status:   ", Tone::Dim, Emphasis::Normal);
    let b = badge_for(snap.status);
    let c = span("  ", Tone::Plain, Emphasis::Normal);
    let d = Span { text: progress, tone: Tone::Fg, emphasis: Emphasis::Normal };
    let ghost (ga, gb, gc, gd) = (a, b, c, d);
    let mut spans = Vec::new();
    spans.push(a);
    spans.push(b);
    spans.push(c);
    spans.push(d);
    assert(spans@.map_values(|s: Span| span_model(s)) =~= status_line);
    push_line(&mut lines, line_of(spans));
    match &snap.error {
        Some(e) => {
            push_line(&mut lines, single(joined("Error: ", e.as_str(), Tone::Error, Emphasis::Normal)));
        },
        None => {},
    }
    if snap.status == PlaybackStatus::Idle || snap.status == PlaybackStatus::Ended {
        push_line(
            &mut lines,
            single(span("Press p to play the selected audio.", Tone::Dim, Emphasis::Italic)),
        );
    }
    lines
}

} // verus!
