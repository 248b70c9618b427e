//! The rows of the master lists: one styled line per message, question,
//! session, event and API token.

use vstd::prelude::*;
use crate::bodies::{owned, push_line};
use crate::chrome::{line_model, lines_model, Emphasis, Line, Span, Tone};
use crate::details::{
    at_or_before, badge, event_label, event_tone, event_type_color, event_type_label,
    message_status_badge, now_utc, outcome_badge, outcome_badge_model, question_badge,
    token_badge, MessageView, QuestionView, SessionView, TokenView,
};
use crate::format::{byte_range, byte_range_text, format_ts, timestamp_text, truncate, truncated};
use crate::text::{chars_of, push_char, push_str};

verus! {

/// A compact `MM-DD HH:MM` of a timestamp's text: its bytes 5 to 16 with
/// the `T` made a space, when both fall on character boundaries; the whole
/// text otherwise.
pub open spec fn short_text(ts: Seq<char>) -> Seq<char> {
    match byte_range_text(ts, 5, 16) {
        Some(c) => c.map_values(|c: char| if c == 'T' { ' ' } else { c }),
        None => ts,
    }
}

/// A compact `MM-DD HH:MM` timestamp for list rows.
pub fn short_time(at: time::OffsetDateTime) -> (r: String)
    ensures
        r@ == short_text(timestamp_text(at)),
{
    let ts = format_ts(at);
    match byte_range(ts.as_str(), 5, 16) {
        Some(part) => {
            let cs = chars_of(part.as_str());
            let mut out = String::new();
            let mut k: usize = 0;
            while k < cs.len()
                invariant
                    k <= cs@.len(),
                    out@ == cs@.take(k as int).map_values(|c: char| if c == 'T' { ' ' } else { c }),
                decreases cs@.len() - k,
            {
                let c = cs[k];
                push_char(&mut out, if c == 'T' { ' ' } else { c });
                assert(cs@.take(k + 1) =~= cs@.take(k as int).push(c));
                k = k + 1;
            }
            assert(cs@.take(cs@.len() as int) =~= cs@);
            out
        },
        None => ts,
    }
}

/// Whether `c` is white space (Unicode `White_Space`, as `char::is_whitespace`).
pub open spec fn is_space(c: char) -> bool {
    c == '\t' || c == '\n' || c == '\u{B}' || c == '\u{C}' || c == '\r' || c == ' ' || c == '\u{85}'
        || c == '\u{A0}' || c == '\u{1680}' || ('\u{2000}' <= c && c <= '\u{200A}') || c == '\u{2028}'
        || c == '\u{2029}' || c == '\u{202F}' || c == '\u{205F}' || c == '\u{3000}'
}

/// Reading `s` left to right: the words so far joined by single spaces, and
/// whether white space has been met since the last word.
pub open spec fn squeeze_scan(s: Seq<char>) -> (Seq<char>, bool)
    decreases s.len(),
{
    if s.len() == 0 {
        (Seq::empty(), false)
    } else {
        let (out, gap) = squeeze_scan(s.drop_last());
        let c = s.last();
        if is_space(c) {
            (out, true)
        } else if gap && out.len() > 0 {
            (out.push(' ').push(c), false)
        } else {
            (out.push(c), false)
        }
    }
}

/// The words of `s` joined by single spaces (`split_whitespace`, then
/// `join(" ")`).
pub open spec fn squeezed(s: Seq<char>) -> Seq<char> {
    squeeze_scan(s).0
}

fn is_space_char(c: char) -> (r: bool)
    ensures
        r == is_space(c),
{
    c == '\t' || c == '\n' || c == '\u{B}' || c == '\u{C}' || c == '\r' || c == ' ' || c == '\u{85}'
        || c == '\u{A0}' || c == '\u{1680}' || ('\u{2000}' <= c && c <= '\u{200A}') || c == '\u{2028}'
        || c == '\u{2029}' || c == '\u{202F}' || c == '\u{205F}' || c == '\u{3000}'
}

/// The words of `text` joined by single spaces.
pub fn squeeze_spaces(text: &str) -> (r: String)
    ensures
        r@ == squeezed(text@),
{
    let cs = chars_of(text);
    let mut out = String::new();
    let mut gap = false;
    let mut i: usize = 0;
    while i < cs.len()
        invariant
            i <= cs@.len(),
            cs@ == text@,
            (out@, gap) == squeeze_scan(cs@.take(i as int)),
        decreases cs@.len() - i,
    {
        assert(cs@.take(i + 1).drop_last() =~= cs@.take(i as int));
        let c = cs[i];
        if is_space_char(c) {
            gap = true;
        } else {
            if gap && out.unicode_len() > 0 {
                push_char(&mut out, ' ');
            }
            push_char(&mut out, c);
            gap = false;
        }
        i = i + 1;
    }
    assert(cs@.take(cs@.len() as int) =~= cs@);
    out
}

/// A message's one-line snippet: its transcription squeezed and cut to forty
/// characters, or a note that there is none.
pub open spec fn snippet_text(m: MessageView) -> Seq<char> {
    match m.transcription {
        Some(t) => match t.text {
            Some(x) => truncated(squeezed(x@), 40),
            None => "(no transcription)"@,
        },
        None => "(no transcription)"@,
    }
}

/// A message row: its status badge, when it was created, and its snippet.
pub open spec fn message_row_model(m: MessageView) -> Seq<(Seq<char>, Tone, Emphasis)> {
    seq![
        message_status_badge(m.status),
        (" "@, Tone::Plain, Emphasis::Normal),
        (short_text(timestamp_text(m.created_at)), Tone::Dim, Emphasis::Normal),
        ("  "@, Tone::Plain, Emphasis::Normal),
        (snippet_text(m), Tone::Plain, Emphasis::Normal),
    ]
}

/// `text` with each newline made a space.
pub open spec fn one_line(text: Seq<char>) -> Seq<char> {
    text.map_values(|c: char| if c == '\n' { ' ' } else { c })
}

/// A question row: its status badge and its prompt on one line, cut to forty
/// characters.
pub open spec fn question_row_model(q: QuestionView) -> Seq<(Seq<char>, Tone, Emphasis)> {
    seq![
        question_badge(q.status),
        (" "@, Tone::Plain, Emphasis::Normal),
        (truncated(one_line(q.prompt@), 40), Tone::Plain, Emphasis::Normal),
    ]
}

/// A session row: its outcome badge and when it started.
pub open spec fn session_row_model(s: SessionView) -> Seq<(Seq<char>, Tone, Emphasis)> {
    seq![
        outcome_badge_model(s.outcome),
        (" "@, Tone::Plain, Emphasis::Normal),
        (short_text(timestamp_text(s.started_at)), Tone::Dim, Emphasis::Normal),
    ]
}

/// An event row: when it happened, then its kind in its colour.
pub open spec fn event_row_model(
    occurred_at: time::OffsetDateTime,
    t: crate::details::BoothEventType,
) -> Seq<(Seq<char>, Tone, Emphasis)> {
    seq![
        (short_text(timestamp_text(occurred_at)) + " "@, Tone::Dim, Emphasis::Normal),
        (event_label(t), event_tone(t), Emphasis::Normal),
    ]
}

/// A token row at `now`: its status badge, its name cut to twenty-six
/// characters, and the end of its secret.
pub open spec fn token_row_model(t: TokenView, now: time::OffsetDateTime) -> Seq<(Seq<char>, Tone, Emphasis)> {
    seq![
        token_badge(t, now),
        (" "@, Tone::Plain, Emphasis::Normal),
        (truncated(t.name@, 26), Tone::Plain, Emphasis::Normal),
        ("  ··"@ + t.last4@, Tone::Dim, Emphasis::Normal),
    ]
}

/// A row per token, each judged at `now`.
pub open spec fn token_rows_model(tokens: Seq<TokenView>, now: time::OffsetDateTime) -> Seq<
    Seq<(Seq<char>, Tone, Emphasis)>,
> {
    tokens.map_values(|t: TokenView| token_row_model(t, now))
}

fn span(text: String, tone: Tone, emphasis: Emphasis) -> (r: Span)
    ensures
        r.text@ == text@,
        r.tone == tone,
        r.emphasis == emphasis,
{
    Span { text, tone, emphasis }
}

fn line_of(spans: Vec<Span>) -> (r: Line)
    ensures
        r.spans@ == spans@,
{
    Line { spans }
}

fn bracketed(label: &str) -> (r: String)
    ensures
        r@ == "["@ + label@ + "]"@,
{
    let mut b = owned("[");
    push_str(&mut b, label);
    push_str(&mut b, "]");
    b
}

fn snippet(m: &MessageView) -> (r: String)
    ensures
        r@ == snippet_text(*m),
{
    match &m.transcription {
        Some(t) => match &t.text {
            Some(x) => truncate(squeeze_spaces(x.as_str()).as_str(), 40),
            None => owned("(no transcription)"),
        },
        None => owned("(no transcription)"),
    }
}

/// A message row.
pub fn message_row(m: &MessageView) -> (r: Line)
    ensures
        line_model(r) == message_row_model(*m),
{
    let (label, tone) = crate::details::message_status_parts(m.status);
    let mut spans: Vec<Span> = Vec::new();
    spans.push(span(bracketed(label), tone, Emphasis::Bold));
    spans.push(span(owned(" "), Tone::Plain, Emphasis::Normal));
    spans.push(span(short_time(m.created_at), Tone::Dim, Emphasis::Normal));
    spans.push(span(owned("  "), Tone::Plain, Emphasis::Normal));
    spans.push(span(snippet(m), Tone::Plain, Emphasis::Normal));
    let r = line_of(spans);
    assert(line_model(r) =~= message_row_model(*m));
    r
}

fn flattened(text: &str) -> (r: String)
    ensures
        r@ == one_line(text@),
{
    let cs = chars_of(text);
    let mut out = String::new();
    let mut i: usize = 0;
    while i < cs.len()
        invariant
            i <= cs@.len(),
            cs@ == text@,
            out@ == one_line(cs@.take(i as int)),
        decreases cs@.len() - i,
    {
        let c = cs[i];
        push_char(&mut out, if c == '\n' { ' ' } else { c });
        assert(cs@.take(i + 1) =~= cs@.take(i as int).push(c));
        i = i + 1;
    }
    assert(cs@.take(cs@.len() as int) =~= cs@);
    out
}

/// A question row.
pub fn question_row(q: &QuestionView) -> (r: Line)
    ensures
        line_model(r) == question_row_model(*q),
{
    let (label, tone) = crate::details::question_parts(q.status);
    let mut spans: Vec<Span> = Vec::new();
    spans.push(span(bracketed(label), tone, Emphasis::Bold));
    spans.push(span(owned(" "), Tone::Plain, Emphasis::Normal));
    spans.push(span(truncate(flattened(q.prompt.as_str()).as_str(), 40), Tone::Plain, Emphasis::Normal));
    let r = line_of(spans);
    assert(line_model(r) =~= question_row_model(*q));
    r
}

/// A session row.
pub fn session_row(s: &SessionView) -> (r: Line)
    ensures
        line_model(r) == session_row_model(*s),
{
    let (b, tone) = outcome_badge(s.outcome);
    let mut spans: Vec<Span> = Vec::new();
    spans.push(span(b, tone, Emphasis::Bold));
    spans.push(span(owned(" "), Tone::Plain, Emphasis::Normal));
    spans.push(span(short_time(s.started_at), Tone::Dim, Emphasis::Normal));
    let r = line_of(spans);
    assert(line_model(r) =~= session_row_model(*s));
    r
}

/// An event row.
pub fn event_row(occurred_at: time::OffsetDateTime, t: crate::details::BoothEventType) -> (r: Line)
    ensures
        line_model(r) == event_row_model(occurred_at, t),
{
    let mut when = short_time(occurred_at);
    push_str(&mut when, " ");
    let mut spans: Vec<Span> = Vec::new();
    spans.push(span(when, Tone::Dim, Emphasis::Normal));
    spans.push(span(owned(event_type_label(t)), event_type_color(t), Emphasis::Normal));
    let r = line_of(spans);
    assert(line_model(r) =~= event_row_model(occurred_at, t));
    r
}

fn token_row_at(t: &TokenView, now: time::OffsetDateTime) -> (r: Line)
    ensures
        line_model(r) == token_row_model(*t, now),
{
    let (label, tone) = if t.revoked_at.is_some() {
        ("revoked", Tone::Error)
    } else {
        let expired = match t.expires_at {
            Some(e) => at_or_before(e, now),
            None => false,
        };
        if expired {
            ("expired", Tone::Warn)
        } else {
            ("active", Tone::Good)
        }
    };
    assert(badge(label@, tone) == token_badge(*t, now));
    let mut secret = owned("  ··");
    push_str(&mut secret, t.last4.as_str());
    let mut spans: Vec<Span> = Vec::new();
    spans.push(span(bracketed(label), tone, Emphasis::Bold));
    spans.push(span(owned(" "), Tone::Plain, Emphasis::Normal));
    spans.push(span(truncate(t.name.as_str(), 26), Tone::Plain, Emphasis::Normal));
    spans.push(span(secret, Tone::Dim, Emphasis::Normal));
    let r = line_of(spans);
    assert(line_model(r) =~= token_row_model(*t, now));
    r
}

/// A row per token, all judged at one instant read from the clock, so the
/// contract holds for some instant.
pub fn token_rows(tokens: &Vec<TokenView>) -> (r: Vec<Line>)
    ensures
        exists|now: time::OffsetDateTime| lines_model(r@) == #[trigger] token_rows_model(tokens@, now),
{
    let now = now_utc();
    let mut rows: Vec<Line> = Vec::new();
    let mut i: usize = 0;
    while i < tokens.len()
        invariant
            i <= tokens@.len(),
            lines_model(rows@) == tokens@.take(i as int).map_values(|t: TokenView| token_row_model(t, now)),
        decreases tokens@.len() - i,
    {
        push_line(&mut rows, token_row_at(&tokens[i], now));
        assert(tokens@.take(i + 1) =~= tokens@.take(i as int).push(tokens@[i as int]));
        assert(tokens@.take(i + 1).map_values(|t: TokenView| token_row_model(t, now)) =~= tokens@.take(
            i as int,
        ).map_values(|t: TokenView| token_row_model(t, now)).push(token_row_model(tokens@[i as int], now)));
        i = i + 1;
    }
    assert(tokens@.take(tokens@.len() as int) =~= tokens@);
    assert(lines_model(rows@) == token_rows_model(tokens@, now));
    rows
}

} // verus!
