//! The body text of the list screens while no list is on show: loading, an
//! empty list, or a failure with its reason.

use vstd::prelude::*;
use crate::chrome::{blank, line_model, lines_model, one, Emphasis, Line, Span, Tone};
use crate::auth::AuthPhase;
use crate::format::{age_text, ago, expiry_stamp_text, format_expiry, format_ts, timestamp_text};
use crate::live::Stamped;
use crate::screens::description_text;
use crate::text::{decimal, decimal_string};
use crate::remote::Remote;
use crate::screens::{title_text, Screen};
use crate::text::push_str;

verus! {

/// The screens that show a list.
#[derive(Debug, Clone, Copy, PartialEq, Eq, Structural)]
pub enum ListScreen {
    /// Voicemail messages.
    Messages,
    /// Question prompts.
    Questions,
    /// Call sessions.
    Sessions,
    /// The event log.
    Events,
    /// API tokens.
    Tokens,
}

/// The screen a list belongs to.
pub open spec fn list_screen(s: ListScreen) -> Screen {
    match s {
        ListScreen::Messages => Screen::Messages,
        ListScreen::Questions => Screen::Questions,
        ListScreen::Sessions => Screen::Sessions,
        ListScreen::Events => Screen::Events,
        ListScreen::Tokens => Screen::Tokens,
    }
}

/// What the list holds, in the plural.
pub open spec fn noun(s: ListScreen) -> Seq<char> {
    match s {
        ListScreen::Messages => "messages"@,
        ListScreen::Questions => "questions"@,
        ListScreen::Sessions => "sessions"@,
        ListScreen::Events => "events"@,
        ListScreen::Tokens => "tokens"@,
    }
}

/// The note for an empty list.
pub open spec fn empty_note(s: ListScreen) -> Seq<char> {
    match s {
        ListScreen::Messages => "No messages."@,
        ListScreen::Questions => "No questions."@,
        ListScreen::Sessions => "No sessions."@,
        ListScreen::Events => "No events."@,
        ListScreen::Tokens => "No API tokens."@,
    }
}

/// The hint under an empty list.
pub open spec fn empty_hint(s: ListScreen) -> Seq<char> {
    match s {
        ListScreen::Tokens => "Press n to create one; r to reload."@,
        _ => "Press r to reload."@,
    }
}

/// The body lines while no list is on show, given how long ago a failure
/// happened (in whole seconds).
pub open spec fn status_model<T>(s: ListScreen, state: Remote<Vec<T>>, failed_secs: nat) -> Seq<
    Seq<(Seq<char>, Tone, Emphasis)>,
> {
    let head = seq![one(title_text(list_screen(s)), Tone::Accent, Emphasis::Bold), blank()];
    match state {
        Remote::Ready { .. } => head + seq![
            one(empty_note(s), Tone::Dim, Emphasis::Italic),
            one(empty_hint(s), Tone::Dim, Emphasis::Italic),
        ],
        Remote::Failed { error, .. } => head + seq![
            one(
                "Failed to load "@ + noun(s) + " "@ + age_text(failed_secs) + "."@,
                Tone::Error,
                Emphasis::Normal,
            ),
            seq![("Reason: "@, Tone::Dim, Emphasis::Normal), (error@, Tone::Plain, Emphasis::Normal)],
            one(
                "Press r to retry; sign in via Settings if unauthorized."@,
                Tone::Dim,
                Emphasis::Italic,
            ),
        ],
        _ => head + seq![
            one("Loading "@ + noun(s) + "…"@, Tone::Dim, Emphasis::Italic),
        ],
    }
}

pub(crate) fn styled(text: String, tone: Tone, emphasis: Emphasis) -> (r: Line)
    ensures
        line_model(r) == seq![(text@, tone, emphasis)],
{
    let ghost t = text@;
    let mut spans = Vec::new();
    spans.push(Span { text, tone, emphasis });
    assert(spans@.map_values(|s: Span| crate::chrome::span_model(s)) =~= seq![(t, tone, emphasis)]);
    Line { spans }
}

pub(crate) fn owned(text: &str) -> (r: String)
    ensures
        r@ == text@,
{
    text.to_owned()
}

fn noun_str(s: ListScreen) -> (r: &'static str)
    ensures
        r@ == noun(s),
{
    match s {
        ListScreen::Messages => "messages",
        ListScreen::Questions => "questions",
        ListScreen::Sessions => "sessions",
        ListScreen::Events => "events",
        ListScreen::Tokens => "tokens",
    }
}

fn screen_of(s: ListScreen) -> (r: Screen)
    ensures
        r == list_screen(s),
{
    match s {
        ListScreen::Messages => Screen::Messages,
        ListScreen::Questions => Screen::Questions,
        ListScreen::Sessions => Screen::Sessions,
        ListScreen::Events => Screen::Events,
        ListScreen::Tokens => Screen::Tokens,
    }
}

pub(crate) fn push_line(lines: &mut Vec<Line>, line: Line)
    ensures
        lines_model(final(lines)@) == lines_model(old(lines)@).push(line_model(line)),
{
    let ghost before = lines@;
    let ghost l = line;
    lines.push(line);
    assert(lines_model(lines@) =~= lines_model(before).push(line_model(l)));
}

/// The body of a list screen while no list is on show: a loading hint, the
/// note and hint for an empty list, or the failure with how long ago it
/// happened, its reason, and what to do about it. How long ago is read from
/// the clock, so the contract holds for some number of seconds.
pub fn list_status_lines<T>(s: ListScreen, state: &Remote<Vec<T>>) -> (r: Vec<Line>)
    ensures
        exists|secs: nat| lines_model(r@) == #[trigger] status_model(s, *state, secs),
{
    let mut lines: Vec<Line> = Vec::new();
    let ghost g0 = lines_model(lines@);
    push_line(&mut lines, styled(owned(screen_of(s).title()), Tone::Accent, Emphasis::Bold));
    push_line(&mut lines, styled(String::new(), Tone::Plain, Emphasis::Normal));
    assert(g0 =~= Seq::empty());
    match state {
        Remote::Ready { .. } => {
            let (note, hint) = match s {
                ListScreen::Messages => ("No messages.", "Press r to reload."),
                ListScreen::Questions => ("No questions.", "Press r to reload."),
                ListScreen::Sessions => ("No sessions.", "Press r to reload."),
                ListScreen::Events => ("No events.", "Press r to reload."),
                ListScreen::Tokens => ("No API tokens.", "Press n to create one; r to reload."),
            };
            push_line(&mut lines, styled(owned(note), Tone::Dim, Emphasis::Italic));
            push_line(&mut lines, styled(owned(hint), Tone::Dim, Emphasis::Italic));
            assert(lines_model(lines@) =~= status_model(s, *state, 0));
        },
        Remote::Failed { error, at } => {
            let age = ago(*at);
            let ghost secs = choose|secs: nat| age@ == age_text(secs);
            let mut first = String::new();
            push_str(&mut first, "Failed to load ");
            push_str(&mut first, noun_str(s));
            push_str(&mut first, " ");
            push_str(&mut first, age.as_str());
            push_str(&mut first, ".");
            push_line(&mut lines, styled(first, Tone::Error, Emphasis::Normal));
            let a = Span { text: owned("Reason: "), tone: Tone::Dim, emphasis: Emphasis::Normal };
            let b = Span { text: error.clone(), tone: Tone::Plain, emphasis: Emphasis::Normal };
            let ghost (ga, gb) = (a, b);
            let mut spans = Vec::new();
            spans.push(a);
            spans.push(b);
            assert(spans@.map_values(|x: Span| crate::chrome::span_model(x)) =~= seq![
                ("Reason: "@, Tone::Dim, Emphasis::Normal),
                (error@, Tone::Plain, Emphasis::Normal),
            ]);
            push_line(&mut lines, Line { spans });
            push_line(
                &mut lines,
                styled(
                    owned("Press r to retry; sign in via Settings if unauthorized."),
                    Tone::Dim,
                    Emphasis::Italic,
                ),
            );
            assert(lines_model(lines@) =~= status_model(s, *state, secs));
        },
        _ => {
            let mut text = String::new();
            push_str(&mut text, "Loading ");
            push_str(&mut text, noun_str(s));
            push_str(&mut text, "…");
            push_line(&mut lines, styled(text, Tone::Dim, Emphasis::Italic));
            assert(lines_model(lines@) =~= status_model(s, *state, 0));
        },
    }
    lines
}


/// A dim label followed by a plain value.
pub open spec fn kv(label: Seq<char>, value: Seq<char>) -> Seq<(Seq<char>, Tone, Emphasis)> {
    seq![(label, Tone::Dim, Emphasis::Normal), (value, Tone::Plain, Emphasis::Normal)]
}

/// A dim label followed by a value in `tone`.
pub open spec fn labelled(label: Seq<char>, value: Seq<char>, tone: Tone) -> Seq<
    (Seq<char>, Tone, Emphasis),
> {
    seq![(label, Tone::Dim, Emphasis::Normal), (value, tone, Emphasis::Normal)]
}

/// A dim, italic hint.
pub open spec fn hint(text: Seq<char>) -> Seq<(Seq<char>, Tone, Emphasis)> {
    one(text, Tone::Dim, Emphasis::Italic)
}

/// The Settings screen's account section for a login phase.
pub open spec fn settings_account_model(phase: AuthPhase) -> Seq<Seq<(Seq<char>, Tone, Emphasis)>> {
    let head = seq![blank(), one("Account"@, Tone::Accent, Emphasis::Bold)];
    match phase {
        AuthPhase::SignedOut => head + seq![
            labelled("Status: "@, "signed out"@, Tone::Dim),
            hint("Press L to log in."@),
        ],
        AuthPhase::Starting => head + seq![labelled("Status: "@, "starting login…"@, Tone::Warn)],
        AuthPhase::AwaitingApproval(p) => head + seq![
            labelled("Status: "@, "awaiting approval"@, Tone::Warn),
            kv("Visit:  "@, p.verification_uri@),
            seq![("Code:   "@, Tone::Dim, Emphasis::Normal), (p.user_code@, Tone::Accent, Emphasis::Bold)],
        ] + match p.verification_uri_complete {
            Some(c) => seq![kv("Direct: "@, c@)],
            None => Seq::empty(),
        } + seq![hint("Press Esc to cancel."@)],
        AuthPhase::SignedIn { expires_at } => head + seq![
            labelled("Status: "@, "signed in"@, Tone::Good),
            kv("Expires:"@, " "@ + expiry_stamp_text(expires_at)),
            hint("Press O to sign out."@),
        ],
        AuthPhase::Failed(m) => head + seq![
            labelled("Status: "@, "login failed"@, Tone::Error),
            kv("Reason: "@, m@),
            hint("Press L to try again."@),
        ],
    }
}

/// The Settings screen's body.
pub open spec fn settings_model(
    base_url: Seq<char>,
    issuer: Seq<char>,
    booths: nat,
    phase: AuthPhase,
) -> Seq<Seq<(Seq<char>, Tone, Emphasis)>> {
    seq![
        one(title_text(Screen::Settings), Tone::Accent, Emphasis::Bold),
        blank(),
        one(description_text(Screen::Settings), Tone::Plain, Emphasis::Normal),
        blank(),
        kv("Operator API: "@, base_url),
        kv("OIDC issuer:  "@, issuer),
        kv("Booths:       "@, decimal(booths)),
    ] + settings_account_model(phase)
}

pub(crate) fn text_line(text: &str, tone: Tone, emphasis: Emphasis) -> (r: Line)
    ensures
        line_model(r) == seq![(text@, tone, emphasis)],
{
    styled(owned(text), tone, emphasis)
}

pub(crate) fn two_spans(a: &str, at: Tone, ae: Emphasis, b: &str, bt: Tone, be: Emphasis) -> (r: Line)
    ensures
        line_model(r) == seq![(a@, at, ae), (b@, bt, be)],
{
    let x = Span { text: owned(a), tone: at, emphasis: ae };
    let y = Span { text: owned(b), tone: bt, emphasis: be };
    let mut spans = Vec::new();
    spans.push(x);
    spans.push(y);
    assert(spans@.map_values(|s: Span| crate::chrome::span_model(s)) =~= seq![
        (a@, at, ae),
        (b@, bt, be),
    ]);
    Line { spans }
}

fn push_settings_account(lines: &mut Vec<Line>, phase: &AuthPhase)
    ensures
        lines_model(final(lines)@) == lines_model(old(lines)@) + settings_account_model(*phase),
{
    let ghost start = lines_model(lines@);
    push_line(lines, styled(String::new(), Tone::Plain, Emphasis::Normal));
    push_line(lines, text_line("Account", Tone::Accent, Emphasis::Bold));
    proof {
        reveal_strlit("");
    }
    match phase {
        AuthPhase::SignedOut => {
            push_line(lines, two_spans("Status: ", Tone::Dim, Emphasis::Normal, "signed out", Tone::Dim, Emphasis::Normal));
            push_line(lines, text_line("Press L to log in.", Tone::Dim, Emphasis::Italic));
        },
        AuthPhase::Starting => {
            push_line(lines, two_spans("Status: ", Tone::Dim, Emphasis::Normal, "starting login…", Tone::Warn, Emphasis::Normal));
        },
        AuthPhase::AwaitingApproval(p) => {
            push_line(lines, two_spans("Status: ", Tone::Dim, Emphasis::Normal, "awaiting approval", Tone::Warn, Emphasis::Normal));
            push_line(lines, two_spans("Visit:  ", Tone::Dim, Emphasis::Normal, p.verification_uri.as_str(), Tone::Plain, Emphasis::Normal));
            push_line(lines, two_spans("Code:   ", Tone::Dim, Emphasis::Normal, p.user_code.as_str(), Tone::Accent, Emphasis::Bold));
            let ghost mid = lines_model(lines@);
            match &p.verification_uri_complete {
                Some(c) => {
                    push_line(lines, two_spans("Direct: ", Tone::Dim, Emphasis::Normal, c.as_str(), Tone::Plain, Emphasis::Normal));
                },
                None => {},
            }
            push_line(lines, text_line("Press Esc to cancel.", Tone::Dim, Emphasis::Italic));
        },
        AuthPhase::SignedIn { expires_at } => {
            push_line(lines, two_spans("Status: ", Tone::Dim, Emphasis::Normal, "signed in", Tone::Good, Emphasis::Normal));
            let mut value = String::new();
            push_str(&mut value, " ");
            push_str(&mut value, format_expiry(*expires_at).as_str());
            push_line(lines, two_spans("Expires:", Tone::Dim, Emphasis::Normal, value.as_str(), Tone::Plain, Emphasis::Normal));
            push_line(lines, text_line("Press O to sign out.", Tone::Dim, Emphasis::Italic));
        },
        AuthPhase::Failed(m) => {
            push_line(lines, two_spans("Status: ", Tone::Dim, Emphasis::Normal, "login failed", Tone::Error, Emphasis::Normal));
            push_line(lines, two_spans("Reason: ", Tone::Dim, Emphasis::Normal, m.as_str(), Tone::Plain, Emphasis::Normal));
            push_line(lines, text_line("Press L to try again.", Tone::Dim, Emphasis::Italic));
        },
    }
    assert(lines_model(lines@) =~= start + settings_account_model(*phase));
}

/// The Settings screen's body: its description, the operator API URL, the
/// OIDC issuer, how many booths are configured, and the account section with
/// the keys that log in or out.
pub fn settings_lines(base_url: &str, issuer: &str, booths: u64, phase: &AuthPhase) -> (r: Vec<Line>)
    ensures
        lines_model(r@) == settings_model(base_url@, issuer@, booths as nat, *phase),
{
    let mut lines: Vec<Line> = Vec::new();
    let ghost g0 = lines_model(lines@);
    proof {
        reveal_strlit("");
    }
    push_line(&mut lines, text_line(Screen::Settings.title(), Tone::Accent, Emphasis::Bold));
    push_line(&mut lines, styled(String::new(), Tone::Plain, Emphasis::Normal));
    push_line(&mut lines, text_line(Screen::Settings.description(), Tone::Plain, Emphasis::Normal));
    push_line(&mut lines, styled(String::new(), Tone::Plain, Emphasis::Normal));
    push_line(&mut lines, two_spans("Operator API: ", Tone::Dim, Emphasis::Normal, base_url, Tone::Plain, Emphasis::Normal));
    push_line(&mut lines, two_spans("OIDC issuer:  ", Tone::Dim, Emphasis::Normal, issuer, Tone::Plain, Emphasis::Normal));
    push_line(&mut lines, two_spans("Booths:       ", Tone::Dim, Emphasis::Normal, decimal_string(booths).as_str(), Tone::Plain, Emphasis::Normal));
    let ghost g1 = lines_model(lines@);
    push_settings_account(&mut lines, phase);
    assert(g0 =~= Seq::empty());
    assert(lines_model(lines@) =~= settings_model(base_url@, issuer@, booths as nat, *phase));
    lines
}


/// What the booth is doing.
#[derive(Debug, Clone, Copy, PartialEq, Eq, Structural)]
pub enum BoothState {
    /// Waiting for a caller.
    Idle,
    /// The handset is off the hook, dial tone playing.
    DialTone,
    /// A number is being dialled.
    Dialing,
    /// A question is playing.
    PlayingQuestion,
    /// The beep before recording.
    Beep,
    /// Recording a message.
    Recording,
    /// Uploading a message.
    Uploading,
    /// A message is playing.
    PlayingMessage,
    /// The instructions are playing.
    PlayingInstructions,
    /// Something went wrong.
    Error,
}

/// Which hardware the booth runs on.
#[derive(Debug, Clone, Copy, PartialEq, Eq, Structural)]
pub enum RuntimeMode {
    /// Real hardware.
    Real,
    /// Mocked hardware.
    Mock,
    /// The simulator.
    Simulator,
}

/// The booth's status as the operator API reports it.
#[derive(Debug)]
pub struct BoothStatus {
    /// What the booth is doing.
    pub state: BoothState,
    /// Which hardware it runs on, when reported.
    pub runtime_mode: Option<RuntimeMode>,
    /// The question in play, if any.
    pub current_question_id: Option<String>,
    /// The message in play, if any.
    pub current_message_id: Option<String>,
    /// The last error, if any.
    pub last_error: Option<String>,
    /// When the status was last updated.
    pub updated_at: time::OffsetDateTime,
}

/// The label of a booth state.
pub open spec fn state_name(s: BoothState) -> Seq<char> {
    match s {
        BoothState::Idle => "Idle"@,
        BoothState::DialTone => "Dial tone"@,
        BoothState::Dialing => "Dialing"@,
        BoothState::PlayingQuestion => "Playing question"@,
        BoothState::Beep => "Beep"@,
        BoothState::Recording => "Recording"@,
        BoothState::Uploading => "Uploading"@,
        BoothState::PlayingMessage => "Playing message"@,
        BoothState::PlayingInstructions => "Playing instructions"@,
        BoothState::Error => "Error"@,
    }
}

/// The tone a booth state is shown in: errors stand out, idle is dim.
pub open spec fn state_tone(s: BoothState) -> Tone {
    match s {
        BoothState::Error => Tone::Error,
        BoothState::Idle => Tone::Dim,
        _ => Tone::Good,
    }
}

/// The label of a runtime mode.
pub open spec fn mode_name(m: RuntimeMode) -> Seq<char> {
    match m {
        RuntimeMode::Real => "Real hardware"@,
        RuntimeMode::Mock => "Mock"@,
        RuntimeMode::Simulator => "Simulator"@,
    }
}

/// The label of a booth state.
pub fn state_label(s: BoothState) -> (r: &'static str)
    ensures
        r@ == state_name(s),
{
    match s {
        BoothState::Idle => "Idle",
        BoothState::DialTone => "Dial tone",
        BoothState::Dialing => "Dialing",
        BoothState::PlayingQuestion => "Playing question",
        BoothState::Beep => "Beep",
        BoothState::Recording => "Recording",
        BoothState::Uploading => "Uploading",
        BoothState::PlayingMessage => "Playing message",
        BoothState::PlayingInstructions => "Playing instructions",
        BoothState::Error => "Error",
    }
}

/// The tone a booth state is shown in.
pub fn state_color(s: BoothState) -> (r: Tone)
    ensures
        r == state_tone(s),
{
    match s {
        BoothState::Error => Tone::Error,
        BoothState::Idle => Tone::Dim,
        _ => Tone::Good,
    }
}

/// The label of a runtime mode.
pub fn mode_label(m: RuntimeMode) -> (r: &'static str)
    ensures
        r@ == mode_name(m),
{
    match m {
        RuntimeMode::Real => "Real hardware",
        RuntimeMode::Mock => "Mock",
        RuntimeMode::Simulator => "Simulator",
    }
}

/// `line` followed by `rest` when `o` holds a value.
pub open spec fn opt_line(o: Option<String>, label: Seq<char>) -> Seq<Seq<(Seq<char>, Tone, Emphasis)>> {
    match o {
        Some(v) => seq![kv(label, v@)],
        None => Seq::empty(),
    }
}

/// The detail rows of a loaded status.
pub open spec fn status_detail_model(st: BoothStatus) -> Seq<Seq<(Seq<char>, Tone, Emphasis)>> {
    seq![
        seq![
            ("State:        "@, Tone::Dim, Emphasis::Normal),
            (state_name(st.state), state_tone(st.state), Emphasis::Bold),
        ],
        kv(
            "Runtime mode: "@,
            match st.runtime_mode {
                Some(m) => mode_name(m),
                None => "—"@,
            },
        ),
    ] + opt_line(st.current_question_id, "Question:     "@) + opt_line(
        st.current_message_id,
        "Message:      "@,
    ) + match st.last_error {
        Some(e) => seq![labelled("Last error:   "@, e@, Tone::Error)],
        None => Seq::empty(),
    } + seq![kv("Updated:      "@, timestamp_text(st.updated_at))]
}

/// The Status screen's body, given how long ago the value or failure on show
/// came in (in whole seconds).
pub open spec fn status_body_model(
    state: Remote<Stamped<BoothStatus>>,
    refreshing: bool,
    secs: nat,
) -> Seq<Seq<(Seq<char>, Tone, Emphasis)>> {
    let head = seq![one(title_text(Screen::Status), Tone::Accent, Emphasis::Bold), blank()];
    let body = match state {
        Remote::Ready { value, .. } => head + status_detail_model(value.value) + seq![
            blank(),
            hint("Fetched "@ + age_text(secs) + "."@),
        ],
        Remote::Failed { error, .. } => head + seq![
            one("Failed to load status "@ + age_text(secs) + "."@, Tone::Error, Emphasis::Normal),
            kv("Reason: "@, error@),
            hint("Press r to retry; sign in via Settings if unauthorized."@),
        ],
        _ => head + seq![hint("Loading booth status…"@)],
    };
    if refreshing {
        body.push(hint("Refreshing…"@))
    } else {
        body
    }
}

fn push_opt(lines: &mut Vec<Line>, o: &Option<String>, label: &str)
    ensures
        lines_model(final(lines)@) == lines_model(old(lines)@) + opt_line(*o, label@),
{
    let ghost start = lines_model(lines@);
    match o {
        Some(v) => {
            push_line(lines, two_spans(label, Tone::Dim, Emphasis::Normal, v.as_str(), Tone::Plain, Emphasis::Normal));
        },
        None => {},
    }
    assert(lines_model(lines@) =~= start + opt_line(*o, label@));
}

fn push_status_detail(lines: &mut Vec<Line>, st: &BoothStatus)
    ensures
        lines_model(final(lines)@) == lines_model(old(lines)@) + status_detail_model(*st),
{
    let ghost start = lines_model(lines@);
    push_line(lines, two_spans("State:        ", Tone::Dim, Emphasis::Normal, state_label(st.state), state_color(st.state), Emphasis::Bold));
    let mode = match st.runtime_mode {
        Some(m) => mode_label(m),
        None => "—",
    };
    push_line(lines, two_spans("Runtime mode: ", Tone::Dim, Emphasis::Normal, mode, Tone::Plain, Emphasis::Normal));
    let ghost a = lines_model(lines@);
    push_opt(lines, &st.current_question_id, "Question:     ");
    let ghost b = lines_model(lines@);
    push_opt(lines, &st.current_message_id, "Message:      ");
    let ghost c = lines_model(lines@);
    match &st.last_error {
        Some(e) => {
            push_line(lines, two_spans("Last error:   ", Tone::Dim, Emphasis::Normal, e.as_str(), Tone::Error, Emphasis::Normal));
        },
        None => {},
    }
    let ghost d = lines_model(lines@);
    push_line(lines, two_spans("Updated:      ", Tone::Dim, Emphasis::Normal, format_ts(st.updated_at).as_str(), Tone::Plain, Emphasis::Normal));
    assert(lines_model(lines@) =~= start + status_detail_model(*st));
}

/// The Status screen's body: the booth's state, runtime mode, what is in play,
/// its last error and when it was updated, with how long ago it was fetched;
/// or the loading hint, or the failure and its reason; and a note while a
/// reload is in flight. How long ago is read from the clock, so the contract
/// holds for some number of seconds.
pub fn status_lines(state: &Remote<Stamped<BoothStatus>>, refreshing: bool) -> (r: Vec<Line>)
    ensures
        exists|secs: nat| lines_model(r@) == #[trigger] status_body_model(*state, refreshing, secs),
{
    let mut lines: Vec<Line> = Vec::new();
    let ghost g0 = lines_model(lines@);
    push_line(&mut lines, text_line(Screen::Status.title(), Tone::Accent, Emphasis::Bold));
    push_line(&mut lines, styled(String::new(), Tone::Plain, Emphasis::Normal));
    assert(g0 =~= Seq::empty());
    let ghost head = lines_model(lines@);
    let ghost mut secs: nat = 0;
    match state {
        Remote::Ready { value, fetched_at } => {
            push_status_detail(&mut lines, &value.value);
            push_line(&mut lines, styled(String::new(), Tone::Plain, Emphasis::Normal));
            let age = ago(*fetched_at);
            proof {
                secs = choose|s: nat| age@ == age_text(s);
            }
            let mut note = String::new();
            push_str(&mut note, "Fetched ");
            push_str(&mut note, age.as_str());
            push_str(&mut note, ".");
            push_line(&mut lines, styled(note, Tone::Dim, Emphasis::Italic));
        },
        Remote::Failed { error, at } => {
            let age = ago(*at);
            proof {
                secs = choose|s: nat| age@ == age_text(s);
            }
            let mut first = String::new();
            push_str(&mut first, "Failed to load status ");
            push_str(&mut first, age.as_str());
            push_str(&mut first, ".");
            push_line(&mut lines, styled(first, Tone::Error, Emphasis::Normal));
            push_line(&mut lines, two_spans("Reason: ", Tone::Dim, Emphasis::Normal, error.as_str(), Tone::Plain, Emphasis::Normal));
            push_line(&mut lines, text_line("Press r to retry; sign in via Settings if unauthorized.", Tone::Dim, Emphasis::Italic));
        },
        _ => {
            push_line(&mut lines, text_line("Loading booth status…", Tone::Dim, Emphasis::Italic));
        },
    }
    let ghost before_note = lines_model(lines@);
    if refreshing {
        push_line(&mut lines, text_line("Refreshing…", Tone::Dim, Emphasis::Italic));
    }
    assert(lines_model(lines@) =~= status_body_model(*state, refreshing, secs));
    lines
}

} // verus!
