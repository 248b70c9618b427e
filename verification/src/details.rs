//! The detail panes beside the Messages, Sessions and Events lists, built from
//! the selected record's values.

use vstd::prelude::*;
use crate::bodies::{hint, kv, labelled, owned, push_line, styled, text_line, two_spans};
use crate::chrome::{blank, line_model, lines_model, one, Emphasis, Line, Tone};
use crate::format::{
    age_text, ago, clock_text, duration_text, format_duration, format_ts, short_ts_str, timestamp_text,
};
use crate::remote::Remote;
use crate::text::{chars_of, push_char, push_str};

verus! {

/// The record a detail pane shows: the selected one, if any.
pub open spec fn selected<T>(o: Option<&T>) -> Option<T> {
    match o {
        Some(x) => Some(*x),
        None => None,
    }
}

/// The most payload lines an event's detail pane shows.
pub const PAYLOAD_MAX_LINES: usize = 40;

/// The kind of a booth event.
#[derive(Debug, Clone, Copy, PartialEq, Eq, Structural)]
pub enum BoothEventType {
    /// A call began.
    CallStarted,
    /// A call ended.
    CallEnded,
    /// A digit was dialled.
    DigitDialed,
    /// The booth's state machine moved.
    StateTransition,
    /// Recording began.
    RecordingStarted,
    /// Recording stopped.
    RecordingStopped,
    /// An upload began.
    UploadStarted,
    /// An upload finished.
    UploadCompleted,
    /// An upload failed.
    UploadFailed,
    /// A GPIO line changed.
    GpioEdge,
    /// The audio device changed.
    AudioDeviceChange,
    /// The booth asked the operator service.
    OperatorRequest,
    /// The operator service answered.
    OperatorResponse,
    /// Something went wrong.
    Error,
    /// A log line.
    Log,
    /// A system metrics sample.
    SystemSample,
}

/// The readable name of an event kind.
pub open spec fn event_label(t: BoothEventType) -> Seq<char> {
    match t {
        BoothEventType::CallStarted => "call started"@,
        BoothEventType::CallEnded => "call ended"@,
        BoothEventType::DigitDialed => "digit dialed"@,
        BoothEventType::StateTransition => "state transition"@,
        BoothEventType::RecordingStarted => "recording started"@,
        BoothEventType::RecordingStopped => "recording stopped"@,
        BoothEventType::UploadStarted => "upload started"@,
        BoothEventType::UploadCompleted => "upload completed"@,
        BoothEventType::UploadFailed => "upload failed"@,
        BoothEventType::GpioEdge => "GPIO edge"@,
        BoothEventType::AudioDeviceChange => "audio device change"@,
        BoothEventType::OperatorRequest => "operator request"@,
        BoothEventType::OperatorResponse => "operator response"@,
        BoothEventType::Error => "error"@,
        BoothEventType::Log => "log"@,
        BoothEventType::SystemSample => "system sample"@,
    }
}

/// The colour an event kind is highlighted in: errors and failed uploads in
/// the error colour, call starts and ends in the success colour, the rest in
/// the body colour.
pub open spec fn event_tone(t: BoothEventType) -> Tone {
    match t {
        BoothEventType::Error | BoothEventType::UploadFailed => Tone::Error,
        BoothEventType::CallStarted | BoothEventType::CallEnded => Tone::Good,
        _ => Tone::Fg,
    }
}

/// The readable name of an event kind.
pub fn event_type_label(t: BoothEventType) -> (r: &'static str)
    ensures
        r@ == event_label(t),
{
    match t {
        BoothEventType::CallStarted => "call started",
        BoothEventType::CallEnded => "call ended",
        BoothEventType::DigitDialed => "digit dialed",
        BoothEventType::StateTransition => "state transition",
        BoothEventType::RecordingStarted => "recording started",
        BoothEventType::RecordingStopped => "recording stopped",
        BoothEventType::UploadStarted => "upload started",
        BoothEventType::UploadCompleted => "upload completed",
        BoothEventType::UploadFailed => "upload failed",
        BoothEventType::GpioEdge => "GPIO edge",
        BoothEventType::AudioDeviceChange => "audio device change",
        BoothEventType::OperatorRequest => "operator request",
        BoothEventType::OperatorResponse => "operator response",
        BoothEventType::Error => "error",
        BoothEventType::Log => "log",
        BoothEventType::SystemSample => "system sample",
    }
}

/// The colour an event kind is highlighted in.
pub fn event_type_color(t: BoothEventType) -> (r: Tone)
    ensures
        r == event_tone(t),
{
    match t {
        BoothEventType::Error | BoothEventType::UploadFailed => Tone::Error,
        BoothEventType::CallStarted | BoothEventType::CallEnded => Tone::Good,
        _ => Tone::Fg,
    }
}

/// `s` with one carriage return removed from its end, if it has one.
pub open spec fn without_cr(s: Seq<char>) -> Seq<char> {
    if s.len() > 0 && s.last() == '\r' {
        s.drop_last()
    } else {
        s
    }
}

/// Reading `s` left to right: the lines ended so far (each without a
/// carriage return before its newline) and the line under way.
pub open spec fn scan_lines(s: Seq<char>) -> (Seq<Seq<char>>, Seq<char>)
    decreases s.len(),
{
    if s.len() == 0 {
        (Seq::empty(), Seq::empty())
    } else {
        let (done, cur) = scan_lines(s.drop_last());
        if s.last() == '\n' {
            (done.push(without_cr(cur)), Seq::empty())
        } else {
            (done, cur.push(s.last()))
        }
    }
}

/// The lines of `s` as `str::lines` gives them: split at each newline, a
/// carriage return before it dropped, and no empty line after a final
/// newline.
pub open spec fn text_lines(s: Seq<char>) -> Seq<Seq<char>> {
    let (done, cur) = scan_lines(s);
    if cur.len() > 0 {
        done.push(cur)
    } else {
        done
    }
}

/// The lines of `text`, as `str::lines` splits them.
pub fn split_lines(text: &str) -> (r: Vec<String>)
    ensures
        r@.map_values(|l: String| l@) == text_lines(text@),
{
    let cs = chars_of(text);
    let mut done: Vec<String> = Vec::new();
    let mut cur = String::new();
    let mut i: usize = 0;
    while i < cs.len()
        invariant
            i <= cs@.len(),
            cs@ == text@,
            done@.map_values(|l: String| l@) == scan_lines(cs@.take(i as int)).0,
            cur@ == scan_lines(cs@.take(i as int)).1,
        decreases cs@.len() - i,
    {
        assert(cs@.take(i + 1).drop_last() =~= cs@.take(i as int));
        let c = cs[i];
        if c == '\n' {
            let mut line = String::new();
            let cur_chars = chars_of(cur.as_str());
            let mut n = cur_chars.len();
            if n > 0 && cur_chars[n - 1] == '\r' {
                n = n - 1;
            }
            let mut k: usize = 0;
            while k < n
                invariant
                    k <= n,
                    n <= cur_chars@.len(),
                    line@ == cur_chars@.take(k as int),
                decreases n - k,
            {
                push_char(&mut line, cur_chars[k]);
                assert(cur_chars@.take(k + 1) =~= cur_chars@.take(k as int).push(cur_chars@[k as int]));
                k = k + 1;
            }
            assert(line@ =~= without_cr(cur@));
            let ghost before = done@;
            done.push(line);
            assert(done@.map_values(|l: String| l@) =~= before.map_values(|l: String| l@).push(
                without_cr(cur@),
            ));
            cur = String::new();
        } else {
            push_char(&mut cur, c);
        }
        i = i + 1;
    }
    assert(cs@.take(cs@.len() as int) =~= cs@);
    if cur.unicode_len() > 0 {
        let ghost before = done@;
        let ghost last = cur@;
        done.push(cur);
        assert(done@.map_values(|l: String| l@) =~= before.map_values(|l: String| l@).push(last));
    }
    done
}

/// A booth event as its detail pane reads it. The payload comes already
/// pretty-printed.
pub struct EventView {
    /// The event's kind.
    pub event_type: BoothEventType,
    /// When it happened on the booth.
    pub occurred_at: time::OffsetDateTime,
    /// When the operator service received it.
    pub received_at: time::OffsetDateTime,
    /// The booth's id.
    pub booth_id: String,
    /// The booth's boot id.
    pub boot_id: String,
    /// The event's id.
    pub event_id: String,
    /// The call session it belongs to, if any.
    pub session_id: Option<String>,
    /// The recording it concerns, if any.
    pub recording_id: Option<String>,
    /// The booth software version, if known.
    pub version: Option<String>,
    /// Whether the payload is JSON `null`.
    pub payload_is_null: bool,
    /// The payload, pretty-printed.
    pub payload_pretty: String,
}

/// A labelled line when `o` holds text.
pub open spec fn opt_kv(label: Seq<char>, o: Option<String>) -> Seq<Seq<(Seq<char>, Tone, Emphasis)>> {
    match o {
        Some(t) => seq![kv(label, t@)],
        None => Seq::empty(),
    }
}

/// An accent subsection heading.
pub open spec fn subhead(title: Seq<char>) -> Seq<(Seq<char>, Tone, Emphasis)> {
    one(title, Tone::Accent, Emphasis::Normal)
}

/// The payload block: nothing for a `null` payload; otherwise a heading and
/// the pretty-printed lines in the secondary colour, at most
/// [`PAYLOAD_MAX_LINES`] of them, followed by a note when some were cut.
pub open spec fn payload_model(is_null: bool, pretty: Seq<char>) -> Seq<
    Seq<(Seq<char>, Tone, Emphasis)>,
> {
    if is_null {
        Seq::empty()
    } else {
        let ls = text_lines(pretty);
        let shown = if ls.len() > PAYLOAD_MAX_LINES {
            ls.take(PAYLOAD_MAX_LINES as int)
        } else {
            ls
        };
        seq![blank(), subhead("Payload"@)] + shown.map_values(
            |l: Seq<char>| one(l, Tone::Dim, Emphasis::Normal),
        ) + if ls.len() > PAYLOAD_MAX_LINES {
            seq![hint("… payload truncated."@)]
        } else {
            Seq::empty()
        }
    }
}

/// An event's detail pane: its kind as a heading in its colour, when it
/// happened and was received, the booth, boot and event ids, the session,
/// recording and version when known, and the payload.
pub open spec fn event_detail_model(e: Option<EventView>) -> Seq<Seq<(Seq<char>, Tone, Emphasis)>> {
    match e {
        None => seq![hint("No event selected."@)],
        Some(e) => seq![
            one(event_label(e.event_type), event_tone(e.event_type), Emphasis::Bold),
            blank(),
            kv("Occurred:  "@, timestamp_text(e.occurred_at)),
            kv("Received:  "@, timestamp_text(e.received_at)),
            kv("Booth:     "@, e.booth_id@),
            kv("Boot:      "@, e.boot_id@),
            kv("Event id:  "@, e.event_id@),
        ] + opt_kv("Session:   "@, e.session_id) + opt_kv("Recording: "@, e.recording_id) + opt_kv(
            "Version:   "@,
            e.version,
        ) + payload_model(e.payload_is_null, e.payload_pretty@),
    }
}

pub(crate) fn push_opt_kv(lines: &mut Vec<Line>, label: &str, o: &Option<String>)
    ensures
        lines_model(final(lines)@) == lines_model(old(lines)@) + opt_kv(label@, *o),
{
    let ghost start = lines_model(lines@);
    match o {
        Some(t) => push_line(
            lines,
            two_spans(label, Tone::Dim, Emphasis::Normal, t.as_str(), Tone::Plain, Emphasis::Normal),
        ),
        None => {},
    }
    assert(lines_model(lines@) =~= start + opt_kv(label@, *o));
}

pub(crate) fn push_kv(lines: &mut Vec<Line>, label: &str, value: &str)
    ensures
        lines_model(final(lines)@) == lines_model(old(lines)@).push(kv(label@, value@)),
{
    push_line(lines, two_spans(label, Tone::Dim, Emphasis::Normal, value, Tone::Plain, Emphasis::Normal));
}

pub(crate) fn push_subhead(lines: &mut Vec<Line>, title: &str)
    ensures
        lines_model(final(lines)@) == lines_model(old(lines)@).push(blank()).push(subhead(title@)),
{
    push_line(lines, styled(String::new(), Tone::Plain, Emphasis::Normal));
    push_line(lines, text_line(title, Tone::Accent, Emphasis::Normal));
}

fn push_payload_lines(lines: &mut Vec<Line>, is_null: bool, pretty: &str)
    ensures
        lines_model(final(lines)@) == lines_model(old(lines)@) + payload_model(is_null, pretty@),
{
    let ghost start = lines_model(lines@);
    if is_null {
        assert(lines_model(lines@) =~= start + payload_model(is_null, pretty@));
        return;
    }
    push_subhead(lines, "Payload");
    let ghost head = lines_model(lines@);
    let ls = split_lines(pretty);
    let ghost all = ls@.map_values(|l: String| l@);
    let n = if ls.len() > PAYLOAD_MAX_LINES {
        PAYLOAD_MAX_LINES
    } else {
        ls.len()
    };
    let mut i: usize = 0;
    while i < n
        invariant
            n <= ls@.len(),
            n == (if ls@.len() > PAYLOAD_MAX_LINES { PAYLOAD_MAX_LINES as int } else { ls@.len() as int }),
            i <= n,
            all == ls@.map_values(|l: String| l@),
            lines_model(lines@) == head + all.take(i as int).map_values(
                |l: Seq<char>| one(l, Tone::Dim, Emphasis::Normal),
            ),
        decreases n - i,
    {
        push_line(lines, text_line(ls[i].as_str(), Tone::Dim, Emphasis::Normal));
        assert(all.take(i + 1) =~= all.take(i as int).push(all[i as int]));
        assert(all.take(i + 1).map_values(|l: Seq<char>| one(l, Tone::Dim, Emphasis::Normal))
            =~= all.take(i as int).map_values(|l: Seq<char>| one(l, Tone::Dim, Emphasis::Normal)).push(
            one(all[i as int], Tone::Dim, Emphasis::Normal),
        ));
        i = i + 1;
    }
    let ghost shown = if all.len() > PAYLOAD_MAX_LINES {
        all.take(PAYLOAD_MAX_LINES as int)
    } else {
        all
    };
    assert(all.take(i as int) =~= shown);
    if ls.len() > PAYLOAD_MAX_LINES {
        push_line(lines, text_line("… payload truncated.", Tone::Dim, Emphasis::Italic));
    }
    assert(lines_model(lines@) =~= start + payload_model(is_null, pretty@));
}

/// An event's detail pane, or a note when no event is selected.
pub fn event_detail_lines(event: Option<&EventView>) -> (r: Vec<Line>)
    ensures
        lines_model(r@) == event_detail_model(selected(event)),
{
    let mut lines: Vec<Line> = Vec::new();
    let ghost g0 = lines_model(lines@);
    assert(g0 =~= Seq::empty());
    match event {
        None => {
            push_line(&mut lines, text_line("No event selected.", Tone::Dim, Emphasis::Italic));
        },
        Some(e) => {
            push_line(
                &mut lines,
                text_line(event_type_label(e.event_type), event_type_color(e.event_type), Emphasis::Bold),
            );
            push_line(&mut lines, styled(String::new(), Tone::Plain, Emphasis::Normal));
            push_kv(&mut lines, "Occurred:  ", format_ts(e.occurred_at).as_str());
            push_kv(&mut lines, "Received:  ", format_ts(e.received_at).as_str());
            push_kv(&mut lines, "Booth:     ", e.booth_id.as_str());
            push_kv(&mut lines, "Boot:      ", e.boot_id.as_str());
            push_kv(&mut lines, "Event id:  ", e.event_id.as_str());
            push_opt_kv(&mut lines, "Session:   ", &e.session_id);
            push_opt_kv(&mut lines, "Recording: ", &e.recording_id);
            push_opt_kv(&mut lines, "Version:   ", &e.version);
            push_payload_lines(&mut lines, e.payload_is_null, e.payload_pretty.as_str());
        },
    }
    assert(lines_model(lines@) =~= event_detail_model(selected(event)));
    lines
}


/// A message's moderation status.
#[derive(Debug, Clone, Copy, PartialEq, Eq, Structural)]
pub enum MessageStatus {
    /// Still uploading from the booth.
    Uploading,
    /// Received by the operator service.
    Received,
    /// Waiting for a moderation decision.
    Pending,
    /// Approved.
    Approved,
    /// Rejected.
    Rejected,
}

/// The state of a transcription or moderation job.
#[derive(Debug, Clone, Copy, PartialEq, Eq, Structural)]
pub enum JobStatus {
    /// Not finished yet.
    Pending,
    /// Finished.
    Succeeded,
    /// Gave up.
    Failed,
}

/// What automatic moderation recommends.
#[derive(Debug, Clone, Copy, PartialEq, Eq, Structural)]
pub enum Recommendation {
    /// Approve the message.
    Approve,
    /// Have a person look at it.
    Review,
    /// Reject it.
    Reject,
}

/// How a call session ended.
#[derive(Debug, Clone, Copy, PartialEq, Eq, Structural)]
pub enum CallOutcome {
    /// A message was recorded.
    RecordingCompleted,
    /// The caller hung up before dialling.
    HungUpBeforeDial,
    /// The caller hung up during the prompt.
    HungUpDuringPrompt,
    /// The caller hung up while recording.
    HungUpDuringRecording,
    /// The caller hung up during the upload.
    HungUpDuringUpload,
    /// Recording failed.
    RecordingFailed,
    /// The upload failed.
    UploadFailed,
    /// The operator service failed.
    OperatorError,
    /// The call was aborted.
    Aborted,
}

/// A bracketed, bold badge.
pub open spec fn badge(label: Seq<char>, tone: Tone) -> (Seq<char>, Tone, Emphasis) {
    ("["@ + label + "]"@, tone, Emphasis::Bold)
}

/// The badge of a message status.
pub open spec fn message_status_badge(s: MessageStatus) -> (Seq<char>, Tone, Emphasis) {
    match s {
        MessageStatus::Uploading => badge("uploading"@, Tone::Dim),
        MessageStatus::Received => badge("received"@, Tone::Accent),
        MessageStatus::Pending => badge("pending"@, Tone::Warn),
        MessageStatus::Approved => badge("approved"@, Tone::Good),
        MessageStatus::Rejected => badge("rejected"@, Tone::Error),
    }
}

/// The badge of a job status.
pub open spec fn job_badge(s: JobStatus) -> (Seq<char>, Tone, Emphasis) {
    match s {
        JobStatus::Pending => badge("pending"@, Tone::Warn),
        JobStatus::Succeeded => badge("succeeded"@, Tone::Good),
        JobStatus::Failed => badge("failed"@, Tone::Error),
    }
}

/// The badge of a recommendation.
pub open spec fn recommendation_badge(r: Recommendation) -> (Seq<char>, Tone, Emphasis) {
    match r {
        Recommendation::Approve => badge("approve"@, Tone::Good),
        Recommendation::Review => badge("review"@, Tone::Warn),
        Recommendation::Reject => badge("reject"@, Tone::Error),
    }
}

/// The badge of a call outcome; a neutral `active` while the call goes on.
pub open spec fn outcome_badge_model(o: Option<CallOutcome>) -> (Seq<char>, Tone, Emphasis) {
    match o {
        None => badge("active"@, Tone::Accent),
        Some(CallOutcome::RecordingCompleted) => badge("completed"@, Tone::Good),
        Some(CallOutcome::HungUpBeforeDial) => badge("hung-up:pre-dial"@, Tone::Warn),
        Some(CallOutcome::HungUpDuringPrompt) => badge("hung-up:prompt"@, Tone::Warn),
        Some(CallOutcome::HungUpDuringRecording) => badge("hung-up:recording"@, Tone::Warn),
        Some(CallOutcome::HungUpDuringUpload) => badge("hung-up:upload"@, Tone::Warn),
        Some(CallOutcome::RecordingFailed) => badge("recording-failed"@, Tone::Error),
        Some(CallOutcome::UploadFailed) => badge("upload-failed"@, Tone::Error),
        Some(CallOutcome::OperatorError) => badge("operator-error"@, Tone::Error),
        Some(CallOutcome::Aborted) => badge("aborted"@, Tone::Error),
    }
}

fn badge_line(label: &str, text: &str, tone: Tone) -> (r: Line)
    ensures
        line_model(r) == seq![(label@, Tone::Dim, Emphasis::Normal), badge(text@, tone)],
{
    let mut b = owned("[");
    push_str(&mut b, text);
    push_str(&mut b, "]");
    two_spans(label, Tone::Dim, Emphasis::Normal, b.as_str(), tone, Emphasis::Bold)
}

pub(crate) fn message_status_parts(s: MessageStatus) -> (r: (&'static str, Tone))
    ensures
        badge(r.0@, r.1) == message_status_badge(s),
{
    match s {
        MessageStatus::Uploading => ("uploading", Tone::Dim),
        MessageStatus::Received => ("received", Tone::Accent),
        MessageStatus::Pending => ("pending", Tone::Warn),
        MessageStatus::Approved => ("approved", Tone::Good),
        MessageStatus::Rejected => ("rejected", Tone::Error),
    }
}

fn job_parts(s: JobStatus) -> (r: (&'static str, Tone))
    ensures
        badge(r.0@, r.1) == job_badge(s),
{
    match s {
        JobStatus::Pending => ("pending", Tone::Warn),
        JobStatus::Succeeded => ("succeeded", Tone::Good),
        JobStatus::Failed => ("failed", Tone::Error),
    }
}

fn recommendation_parts(r: Recommendation) -> (out: (&'static str, Tone))
    ensures
        badge(out.0@, out.1) == recommendation_badge(r),
{
    match r {
        Recommendation::Approve => ("approve", Tone::Good),
        Recommendation::Review => ("review", Tone::Warn),
        Recommendation::Reject => ("reject", Tone::Error),
    }
}

/// The badge of a call outcome, as a span's text and colour.
pub fn outcome_badge(o: Option<CallOutcome>) -> (r: (String, Tone))
    ensures
        (r.0@, r.1, Emphasis::Bold) == outcome_badge_model(o),
{
    let (label, tone) = match o {
        None => ("active", Tone::Accent),
        Some(CallOutcome::RecordingCompleted) => ("completed", Tone::Good),
        Some(CallOutcome::HungUpBeforeDial) => ("hung-up:pre-dial", Tone::Warn),
        Some(CallOutcome::HungUpDuringPrompt) => ("hung-up:prompt", Tone::Warn),
        Some(CallOutcome::HungUpDuringRecording) => ("hung-up:recording", Tone::Warn),
        Some(CallOutcome::HungUpDuringUpload) => ("hung-up:upload", Tone::Warn),
        Some(CallOutcome::RecordingFailed) => ("recording-failed", Tone::Error),
        Some(CallOutcome::UploadFailed) => ("upload-failed", Tone::Error),
        Some(CallOutcome::OperatorError) => ("operator-error", Tone::Error),
        Some(CallOutcome::Aborted) => ("aborted", Tone::Error),
    };
    let mut b = owned("[");
    push_str(&mut b, label);
    push_str(&mut b, "]");
    (b, tone)
}

/// A message's latest transcription as its detail rows read it.
pub struct TranscriptionView {
    /// The job's state.
    pub status: JobStatus,
    /// The detected language, if any.
    pub language: Option<String>,
    /// The transcribed text, if any.
    pub text: Option<String>,
    /// The translation, if any.
    pub translated_text: Option<String>,
    /// The translation's language, if any.
    pub translated_language: Option<String>,
    /// Why the job failed, if it did.
    pub error: Option<String>,
}

/// A message's latest moderation as its detail rows read it. The score comes
/// already formatted.
pub struct ModerationView {
    /// The job's state.
    pub status: JobStatus,
    /// The recommendation, if any.
    pub recommendation: Option<Recommendation>,
    /// Whether the message was flagged, if decided.
    pub flagged: Option<bool>,
    /// The highest category score, as text, if any.
    pub max_score: Option<String>,
    /// A summary of the reasons, if any.
    pub reason: Option<String>,
    /// Why the job failed, if it did.
    pub error: Option<String>,
}

/// A message as its detail pane reads it.
pub struct MessageView {
    /// The message's id.
    pub id: String,
    /// Its moderation status.
    pub status: MessageStatus,
    /// The question it answers, if any.
    pub question_id: Option<String>,
    /// When it was created.
    pub created_at: time::OffsetDateTime,
    /// When it was received, if it was.
    pub received_at: Option<time::OffsetDateTime>,
    /// When it was decided, if it was.
    pub decided_at: Option<time::OffsetDateTime>,
    /// The moderator's notes, if any.
    pub notes: Option<String>,
    /// The latest transcription, if any.
    pub transcription: Option<TranscriptionView>,
    /// The latest moderation, if any.
    pub moderation: Option<ModerationView>,
}

/// A labelled timestamp line when `o` holds one.
pub open spec fn opt_ts(label: Seq<char>, o: Option<time::OffsetDateTime>) -> Seq<
    Seq<(Seq<char>, Tone, Emphasis)>,
> {
    match o {
        Some(t) => seq![kv(label, timestamp_text(t))],
        None => Seq::empty(),
    }
}

/// An error line in the error colour when `o` holds one.
pub open spec fn opt_error(o: Option<String>) -> Seq<Seq<(Seq<char>, Tone, Emphasis)>> {
    match o {
        Some(e) => seq![labelled("  Error:     "@, e@, Tone::Error)],
        None => Seq::empty(),
    }
}

/// The transcription rows: `none` without one; otherwise its status, the
/// language, the text (or a `(no text)` note), the translation and its
/// language, and the error.
pub open spec fn transcription_model(t: Option<TranscriptionView>) -> Seq<
    Seq<(Seq<char>, Tone, Emphasis)>,
> {
    match t {
        None => seq![hint("  none"@)],
        Some(t) => seq![seq![("  Status:    "@, Tone::Dim, Emphasis::Normal), job_badge(t.status)]]
            + opt_kv("  Language:  "@, t.language) + match t.text {
            Some(x) => seq![kv("  Text:      "@, x@)],
            None => seq![hint("  (no text)"@)],
        } + match t.translated_text {
            Some(x) => seq![kv("  Translated:"@, x@)] + opt_kv("  → Language:"@, t.translated_language),
            None => Seq::empty(),
        } + opt_error(t.error),
    }
}

/// The moderation rows: `none` without one; otherwise its status, the
/// recommendation, whether it was flagged, the score, the reason and the
/// error.
pub open spec fn moderation_model(m: Option<ModerationView>) -> Seq<Seq<(Seq<char>, Tone, Emphasis)>> {
    match m {
        None => seq![hint("  none"@)],
        Some(m) => seq![seq![("  Status:    "@, Tone::Dim, Emphasis::Normal), job_badge(m.status)]]
            + match m.recommendation {
            Some(r) => seq![seq![("  Recommend: "@, Tone::Dim, Emphasis::Normal), recommendation_badge(r)]],
            None => Seq::empty(),
        } + match m.flagged {
            Some(true) => seq![labelled("  Flagged:   "@, "yes"@, Tone::Error)],
            Some(false) => seq![labelled("  Flagged:   "@, "no"@, Tone::Good)],
            None => Seq::empty(),
        } + opt_kv("  Max score: "@, m.max_score) + opt_kv("  Reason:    "@, m.reason) + opt_error(
            m.error,
        ),
    }
}

/// A message's detail pane: its id and status badge, the question, when it
/// was created, received and decided, the notes, then its transcription and
/// moderation; or a hint to select one.
pub open spec fn message_detail_model(m: Option<MessageView>) -> Seq<Seq<(Seq<char>, Tone, Emphasis)>> {
    match m {
        None => seq![one("Message"@, Tone::Accent, Emphasis::Bold), blank(), hint("Select a message."@)],
        Some(m) => seq![
            one("Message"@, Tone::Accent, Emphasis::Bold),
            blank(),
            kv("ID:        "@, m.id@),
            seq![("Status:    "@, Tone::Dim, Emphasis::Normal), message_status_badge(m.status)],
        ] + opt_kv("Question:  "@, m.question_id) + seq![kv("Created:   "@, timestamp_text(m.created_at))]
            + opt_ts("Received:  "@, m.received_at) + opt_ts("Decided:   "@, m.decided_at) + opt_kv(
            "Notes:     "@,
            m.notes,
        ) + seq![blank(), subhead("Transcription"@)] + transcription_model(m.transcription) + seq![
            blank(),
            subhead("Moderation"@),
        ] + moderation_model(m.moderation),
    }
}

fn push_opt_ts(lines: &mut Vec<Line>, label: &str, o: Option<time::OffsetDateTime>)
    ensures
        lines_model(final(lines)@) == lines_model(old(lines)@) + opt_ts(label@, o),
{
    let ghost start = lines_model(lines@);
    match o {
        Some(t) => push_kv(lines, label, format_ts(t).as_str()),
        None => {},
    }
    assert(lines_model(lines@) =~= start + opt_ts(label@, o));
}

fn push_opt_error(lines: &mut Vec<Line>, o: &Option<String>)
    ensures
        lines_model(final(lines)@) == lines_model(old(lines)@) + opt_error(*o),
{
    let ghost start = lines_model(lines@);
    match o {
        Some(e) => push_line(
            lines,
            two_spans("  Error:     ", Tone::Dim, Emphasis::Normal, e.as_str(), Tone::Error, Emphasis::Normal),
        ),
        None => {},
    }
    assert(lines_model(lines@) =~= start + opt_error(*o));
}

fn push_transcription_lines(lines: &mut Vec<Line>, t: &Option<TranscriptionView>)
    ensures
        lines_model(final(lines)@) == lines_model(old(lines)@) + transcription_model(*t),
{
    let ghost start = lines_model(lines@);
    match t {
        None => {
            push_line(lines, text_line("  none", Tone::Dim, Emphasis::Italic));
        },
        Some(t) => {
            let (label, tone) = job_parts(t.status);
            push_line(lines, badge_line("  Status:    ", label, tone));
            push_opt_kv(lines, "  Language:  ", &t.language);
            let ghost a = lines_model(lines@);
            match &t.text {
                Some(x) => push_kv(lines, "  Text:      ", x.as_str()),
                None => push_line(lines, text_line("  (no text)", Tone::Dim, Emphasis::Italic)),
            }
            let ghost b = lines_model(lines@);
            match &t.translated_text {
                Some(x) => {
                    push_kv(lines, "  Translated:", x.as_str());
                    push_opt_kv(lines, "  → Language:", &t.translated_language);
                },
                None => {},
            }
            let ghost c = lines_model(lines@);
            push_opt_error(lines, &t.error);
        },
    }
    assert(lines_model(lines@) =~= start + transcription_model(*t));
}

fn push_moderation_lines(lines: &mut Vec<Line>, m: &Option<ModerationView>)
    ensures
        lines_model(final(lines)@) == lines_model(old(lines)@) + moderation_model(*m),
{
    let ghost start = lines_model(lines@);
    match m {
        None => {
            push_line(lines, text_line("  none", Tone::Dim, Emphasis::Italic));
        },
        Some(m) => {
            let (label, tone) = job_parts(m.status);
            push_line(lines, badge_line("  Status:    ", label, tone));
            let ghost a = lines_model(lines@);
            match m.recommendation {
                Some(r) => {
                    let (rl, rt) = recommendation_parts(r);
                    push_line(lines, badge_line("  Recommend: ", rl, rt));
                },
                None => {},
            }
            let ghost b = lines_model(lines@);
            match m.flagged {
                Some(true) => push_line(
                    lines,
                    two_spans("  Flagged:   ", Tone::Dim, Emphasis::Normal, "yes", Tone::Error, Emphasis::Normal),
                ),
                Some(false) => push_line(
                    lines,
                    two_spans("  Flagged:   ", Tone::Dim, Emphasis::Normal, "no", Tone::Good, Emphasis::Normal),
                ),
                None => {},
            }
            let ghost c = lines_model(lines@);
            push_opt_kv(lines, "  Max score: ", &m.max_score);
            push_opt_kv(lines, "  Reason:    ", &m.reason);
            push_opt_error(lines, &m.error);
        },
    }
    assert(lines_model(lines@) =~= start + moderation_model(*m));
}

/// A message's detail pane, or a hint to select one.
pub fn message_detail_lines(message: Option<&MessageView>) -> (r: Vec<Line>)
    ensures
        lines_model(r@) == message_detail_model(selected(message)),
{
    let mut lines: Vec<Line> = Vec::new();
    let ghost g0 = lines_model(lines@);
    assert(g0 =~= Seq::empty());
    push_line(&mut lines, text_line("Message", Tone::Accent, Emphasis::Bold));
    push_line(&mut lines, styled(String::new(), Tone::Plain, Emphasis::Normal));
    match message {
        None => {
            push_line(&mut lines, text_line("Select a message.", Tone::Dim, Emphasis::Italic));
        },
        Some(m) => {
            push_kv(&mut lines, "ID:        ", m.id.as_str());
            let (label, tone) = message_status_parts(m.status);
            push_line(&mut lines, badge_line("Status:    ", label, tone));
            push_opt_kv(&mut lines, "Question:  ", &m.question_id);
            push_kv(&mut lines, "Created:   ", format_ts(m.created_at).as_str());
            push_opt_ts(&mut lines, "Received:  ", m.received_at);
            push_opt_ts(&mut lines, "Decided:   ", m.decided_at);
            push_opt_kv(&mut lines, "Notes:     ", &m.notes);
            push_subhead(&mut lines, "Transcription");
            push_transcription_lines(&mut lines, &m.transcription);
            push_subhead(&mut lines, "Moderation");
            push_moderation_lines(&mut lines, &m.moderation);
        },
    }
    assert(lines_model(lines@) =~= message_detail_model(selected(message)));
    lines
}


/// A call session as its detail pane reads it.
pub struct SessionView {
    /// The session's id.
    pub id: String,
    /// The booth it ran on.
    pub booth_id: String,
    /// How it ended, or `None` while it goes on.
    pub outcome: Option<CallOutcome>,
    /// When it started.
    pub started_at: time::OffsetDateTime,
    /// When it ended, if it has.
    pub ended_at: Option<time::OffsetDateTime>,
    /// How long it lasted, in milliseconds, if known.
    pub duration_ms: Option<i64>,
    /// The digits dialled, if any.
    pub digits: Option<String>,
    /// The recording it made, if any.
    pub recording_id: Option<String>,
    /// The booth software version, if known.
    pub version: Option<String>,
}

/// One event of a session's timeline.
pub struct TimelineEntry {
    /// When it happened.
    pub occurred_at: time::OffsetDateTime,
    /// Its kind.
    pub event_type: BoothEventType,
}

/// A timeline row: the clock time, then the event's kind.
pub open spec fn timeline_row(e: TimelineEntry) -> Seq<(Seq<char>, Tone, Emphasis)> {
    seq![
        ("  "@ + clock_text(timestamp_text(e.occurred_at)) + " "@, Tone::Dim, Emphasis::Normal),
        (event_label(e.event_type), Tone::Plain, Emphasis::Normal),
    ]
}

/// The timeline rows for its load state, given how long ago a failure
/// happened (in whole seconds).
pub open spec fn timeline_model(detail: Remote<Vec<TimelineEntry>>, secs: nat) -> Seq<
    Seq<(Seq<char>, Tone, Emphasis)>,
> {
    match detail {
        Remote::Ready { value, .. } => if value@.len() == 0 {
            seq![hint("  (no events)"@)]
        } else {
            value@.map_values(|e: TimelineEntry| timeline_row(e))
        },
        Remote::Failed { error, .. } => seq![
            one("  Failed to load timeline "@ + age_text(secs) + "."@, Tone::Error, Emphasis::Normal),
            kv("  Reason: "@, error@),
        ],
        _ => seq![hint("  Loading timeline…"@)],
    }
}

/// A session's detail pane: its id, booth, outcome badge, start and end,
/// duration, digits, recording and version, then its timeline; or a hint to
/// select one.
pub open spec fn session_detail_model(
    s: Option<SessionView>,
    detail: Remote<Vec<TimelineEntry>>,
    secs: nat,
) -> Seq<Seq<(Seq<char>, Tone, Emphasis)>> {
    match s {
        None => seq![one("Session"@, Tone::Accent, Emphasis::Bold), blank(), hint("Select a session."@)],
        Some(s) => seq![
            one("Session"@, Tone::Accent, Emphasis::Bold),
            blank(),
            kv("ID:        "@, s.id@),
            kv("Booth:     "@, s.booth_id@),
            seq![("Outcome:   "@, Tone::Dim, Emphasis::Normal), outcome_badge_model(s.outcome)],
            kv("Started:   "@, timestamp_text(s.started_at)),
        ] + opt_ts("Ended:     "@, s.ended_at) + match s.duration_ms {
            Some(ms) => seq![kv("Duration:  "@, duration_text(ms as int))],
            None => Seq::empty(),
        } + opt_kv("Digits:    "@, s.digits) + opt_kv("Recording: "@, s.recording_id) + opt_kv(
            "Version:   "@,
            s.version,
        ) + seq![blank(), subhead("Timeline"@)] + timeline_model(detail, secs),
    }
}

fn push_timeline(lines: &mut Vec<Line>, detail: &Remote<Vec<TimelineEntry>>) -> (secs: Ghost<nat>)
    ensures
        lines_model(final(lines)@) == lines_model(old(lines)@) + timeline_model(*detail, secs@),
{
    let ghost start = lines_model(lines@);
    let ghost mut secs: nat = 0;
    match detail {
        Remote::Ready { value, .. } => {
            if value.len() == 0 {
                push_line(lines, text_line("  (no events)", Tone::Dim, Emphasis::Italic));
            } else {
                let mut i: usize = 0;
                while i < value.len()
                    invariant
                        i <= value@.len(),
                        lines_model(lines@) == start + value@.take(i as int).map_values(
                            |e: TimelineEntry| timeline_row(e),
                        ),
                    decreases value@.len() - i,
                {
                    let mut when = owned("  ");
                    push_str(&mut when, short_ts_str(format_ts(value[i].occurred_at).as_str()).as_str());
                    push_str(&mut when, " ");
                    push_line(
                        lines,
                        two_spans(
                            when.as_str(),
                            Tone::Dim,
                            Emphasis::Normal,
                            event_type_label(value[i].event_type),
                            Tone::Plain,
                            Emphasis::Normal,
                        ),
                    );
                    assert(value@.take(i + 1) =~= value@.take(i as int).push(value@[i as int]));
                    assert(value@.take(i + 1).map_values(|e: TimelineEntry| timeline_row(e))
                        =~= value@.take(i as int).map_values(|e: TimelineEntry| timeline_row(e)).push(
                        timeline_row(value@[i as int]),
                    ));
                    i = i + 1;
                }
                assert(value@.take(value@.len() as int) =~= value@);
            }
        },
        Remote::Failed { error, at } => {
            let age = ago(*at);
            proof {
                secs = choose|s: nat| age@ == age_text(s);
            }
            let mut first = owned("  Failed to load timeline ");
            push_str(&mut first, age.as_str());
            push_str(&mut first, ".");
            push_line(lines, styled(first, Tone::Error, Emphasis::Normal));
            push_kv(lines, "  Reason: ", error.as_str());
        },
        _ => {
            push_line(lines, text_line("  Loading timeline…", Tone::Dim, Emphasis::Italic));
        },
    }
    assert(lines_model(lines@) =~= start + timeline_model(*detail, secs));
    Ghost(secs)
}

/// A session's detail pane with its timeline, or a hint to select one. How
/// long ago a failed timeline load happened is read from the clock, so the
/// contract holds for some number of seconds.
pub fn session_detail_lines(session: Option<&SessionView>, detail: &Remote<Vec<TimelineEntry>>) -> (r:
    Vec<Line>)
    ensures
        exists|secs: nat| lines_model(r@) == #[trigger] session_detail_model(
            selected(session),
            *detail,
            secs,
        ),
{
    let mut lines: Vec<Line> = Vec::new();
    let ghost g0 = lines_model(lines@);
    assert(g0 =~= Seq::empty());
    push_line(&mut lines, text_line("Session", Tone::Accent, Emphasis::Bold));
    push_line(&mut lines, styled(String::new(), Tone::Plain, Emphasis::Normal));
    let ghost mut secs: nat = 0;
    match session {
        None => {
            push_line(&mut lines, text_line("Select a session.", Tone::Dim, Emphasis::Italic));
        },
        Some(s) => {
            push_kv(&mut lines, "ID:        ", s.id.as_str());
            push_kv(&mut lines, "Booth:     ", s.booth_id.as_str());
            let (b, tone) = outcome_badge(s.outcome);
            push_line(
                &mut lines,
                two_spans("Outcome:   ", Tone::Dim, Emphasis::Normal, b.as_str(), tone, Emphasis::Bold),
            );
            push_kv(&mut lines, "Started:   ", format_ts(s.started_at).as_str());
            push_opt_ts(&mut lines, "Ended:     ", s.ended_at);
            let ghost a = lines_model(lines@);
            match s.duration_ms {
                Some(ms) => push_kv(&mut lines, "Duration:  ", format_duration(ms).as_str()),
                None => {},
            }
            let ghost b2 = lines_model(lines@);
            push_opt_kv(&mut lines, "Digits:    ", &s.digits);
            push_opt_kv(&mut lines, "Recording: ", &s.recording_id);
            push_opt_kv(&mut lines, "Version:   ", &s.version);
            push_subhead(&mut lines, "Timeline");
            let got = push_timeline(&mut lines, detail);
            proof {
                secs = got@;
            }
        },
    }
    assert(lines_model(lines@) =~= session_detail_model(
        selected(session),
        *detail,
        secs,
    ));
    lines
}


/// A question's publication status.
#[derive(Debug, Clone, Copy, PartialEq, Eq, Structural)]
pub enum QuestionStatus {
    /// Not yet published.
    Draft,
    /// Played to callers.
    Active,
    /// Retired.
    Archived,
}

/// The badge of a question status.
pub open spec fn question_badge(s: QuestionStatus) -> (Seq<char>, Tone, Emphasis) {
    match s {
        QuestionStatus::Draft => badge("draft"@, Tone::Dim),
        QuestionStatus::Active => badge("active"@, Tone::Good),
        QuestionStatus::Archived => badge("archived"@, Tone::Warn),
    }
}

/// A question as its detail pane reads it.
pub struct QuestionView {
    /// The question's id.
    pub id: String,
    /// Its publication status.
    pub status: QuestionStatus,
    /// When it was created.
    pub created_at: time::OffsetDateTime,
    /// How long its audio lasts, in milliseconds, if known.
    pub duration_ms: Option<i64>,
    /// The prompt text.
    pub prompt: String,
}

/// A question's detail pane: its id, status badge, creation time and audio
/// length, then its prompt; or a hint to select one.
pub open spec fn question_detail_model(q: Option<QuestionView>) -> Seq<Seq<(Seq<char>, Tone, Emphasis)>> {
    match q {
        None => seq![one("Question"@, Tone::Accent, Emphasis::Bold), blank(), hint("Select a question."@)],
        Some(q) => seq![
            one("Question"@, Tone::Accent, Emphasis::Bold),
            blank(),
            kv("ID:       "@, q.id@),
            seq![("Status:   "@, Tone::Dim, Emphasis::Normal), question_badge(q.status)],
            kv("Created:  "@, timestamp_text(q.created_at)),
        ] + match q.duration_ms {
            Some(ms) => seq![kv("Duration: "@, duration_text(ms as int))],
            None => Seq::empty(),
        } + seq![blank(), subhead("Prompt"@), one(q.prompt@, Tone::Plain, Emphasis::Normal)],
    }
}

pub(crate) fn question_parts(s: QuestionStatus) -> (r: (&'static str, Tone))
    ensures
        badge(r.0@, r.1) == question_badge(s),
{
    match s {
        QuestionStatus::Draft => ("draft", Tone::Dim),
        QuestionStatus::Active => ("active", Tone::Good),
        QuestionStatus::Archived => ("archived", Tone::Warn),
    }
}

/// A question's detail pane, or a hint to select one.
pub fn question_detail_lines(question: Option<&QuestionView>) -> (r: Vec<Line>)
    ensures
        lines_model(r@) == question_detail_model(selected(question)),
{
    let mut lines: Vec<Line> = Vec::new();
    let ghost g0 = lines_model(lines@);
    assert(g0 =~= Seq::empty());
    push_line(&mut lines, text_line("Question", Tone::Accent, Emphasis::Bold));
    push_line(&mut lines, styled(String::new(), Tone::Plain, Emphasis::Normal));
    match question {
        None => {
            push_line(&mut lines, text_line("Select a question.", Tone::Dim, Emphasis::Italic));
        },
        Some(q) => {
            push_kv(&mut lines, "ID:       ", q.id.as_str());
            let (label, tone) = question_parts(q.status);
            push_line(&mut lines, badge_line("Status:   ", label, tone));
            push_kv(&mut lines, "Created:  ", format_ts(q.created_at).as_str());
            let ghost a = lines_model(lines@);
            match q.duration_ms {
                Some(ms) => push_kv(&mut lines, "Duration: ", format_duration(ms).as_str()),
                None => {},
            }
            push_subhead(&mut lines, "Prompt");
            push_line(&mut lines, text_line(q.prompt.as_str(), Tone::Plain, Emphasis::Normal));
        },
    }
    assert(lines_model(lines@) =~= question_detail_model(selected(question)));
    lines
}

/// Whether instant `a` is at or before instant `b`
/// (`OffsetDateTime`'s `<=`, which compares the instants whatever their
/// offsets).
pub uninterp spec fn not_later(a: time::OffsetDateTime, b: time::OffsetDateTime) -> bool;

/// `a <= b` on two instants (`<OffsetDateTime as PartialOrd>::le`); the
/// result is named by [`not_later`].
#[verifier::external_body]
pub(crate) fn at_or_before(a: time::OffsetDateTime, b: time::OffsetDateTime) -> (r: bool)
    ensures
        r == not_later(a, b),
{
    a <= b
}

/// The current UTC instant (`OffsetDateTime::now_utc`). Nothing is promised
/// of the value: it depends on when the call is made.
#[verifier::external_body]
pub(crate) fn now_utc() -> time::OffsetDateTime {
    time::OffsetDateTime::now_utc()
}

/// An API token as its detail pane reads it.
pub struct TokenView {
    /// The token's id.
    pub id: String,
    /// Its name.
    pub name: String,
    /// The last four characters of its secret.
    pub last4: String,
    /// When it was created.
    pub created_at: time::OffsetDateTime,
    /// When it expires, if ever.
    pub expires_at: Option<time::OffsetDateTime>,
    /// When it was last used, if ever.
    pub last_used_at: Option<time::OffsetDateTime>,
    /// When it was revoked, if it was.
    pub revoked_at: Option<time::OffsetDateTime>,
}

/// A token's effective status at `now`: revoked, expired (its expiry at or
/// before `now`), or active.
pub open spec fn token_badge(t: TokenView, now: time::OffsetDateTime) -> (Seq<char>, Tone, Emphasis) {
    if t.revoked_at is Some {
        badge("revoked"@, Tone::Error)
    } else if t.expires_at matches Some(e) && not_later(e, now) {
        badge("expired"@, Tone::Warn)
    } else {
        badge("active"@, Tone::Good)
    }
}

/// A timestamp's text, or `absent` when there is none.
pub open spec fn stamp_or(o: Option<time::OffsetDateTime>, absent: Seq<char>) -> Seq<char> {
    match o {
        Some(at) => timestamp_text(at),
        None => absent,
    }
}

/// A token's detail pane at `now`: its id, name, the end of its secret, its
/// status, and when it was created, expires, was last used and was revoked;
/// or a hint to select one.
pub open spec fn token_detail_model(t: Option<TokenView>, now: time::OffsetDateTime) -> Seq<
    Seq<(Seq<char>, Tone, Emphasis)>,
> {
    match t {
        None => seq![one("Token"@, Tone::Accent, Emphasis::Bold), blank(), hint("Select a token."@)],
        Some(t) => seq![
            one("Token"@, Tone::Accent, Emphasis::Bold),
            blank(),
            kv("ID:        "@, t.id@),
            kv("Name:      "@, t.name@),
            kv("Secret:    "@, "··"@ + t.last4@),
            seq![("Status:    "@, Tone::Dim, Emphasis::Normal), token_badge(t, now)],
            kv("Created:   "@, timestamp_text(t.created_at)),
            kv("Expires:   "@, stamp_or(t.expires_at, "never"@)),
            kv("Last used: "@, stamp_or(t.last_used_at, "never"@)),
            kv("Revoked:   "@, stamp_or(t.revoked_at, "no"@)),
        ],
    }
}

fn stamp_or_text(o: Option<time::OffsetDateTime>, absent: &str) -> (r: String)
    ensures
        r@ == stamp_or(o, absent@),
{
    match o {
        Some(at) => format_ts(at),
        None => owned(absent),
    }
}

/// A token's detail pane as it stands at `now`, or a hint to select one.
pub fn token_detail_lines_at(token: Option<&TokenView>, now: time::OffsetDateTime) -> (r: Vec<Line>)
    ensures
        lines_model(r@) == token_detail_model(selected(token), now),
{
    let mut lines: Vec<Line> = Vec::new();
    let ghost g0 = lines_model(lines@);
    assert(g0 =~= Seq::empty());
    push_line(&mut lines, text_line("Token", Tone::Accent, Emphasis::Bold));
    push_line(&mut lines, styled(String::new(), Tone::Plain, Emphasis::Normal));
    match token {
        None => {
            push_line(&mut lines, text_line("Select a token.", Tone::Dim, Emphasis::Italic));
        },
        Some(t) => {
            push_kv(&mut lines, "ID:        ", t.id.as_str());
            push_kv(&mut lines, "Name:      ", t.name.as_str());
            let mut secret = owned("··");
            push_str(&mut secret, t.last4.as_str());
            push_kv(&mut lines, "Secret:    ", secret.as_str());
            let (label, tone) = if t.revoked_at.is_some() {
                ("revoked", Tone::Error)
            } else {
                let expired = match t.expires_at {
                    Some(e) => at_or_before(e, now),
                    None => false,
                };
                if expired {
                    ("expired", Tone::Warn)
                } else {
                    ("active", Tone::Good)
                }
            };
            assert(badge(label@, tone) == token_badge(*t, now));
            push_line(&mut lines, badge_line("Status:    ", label, tone));
            push_kv(&mut lines, "Created:   ", format_ts(t.created_at).as_str());
            push_kv(&mut lines, "Expires:   ", stamp_or_text(t.expires_at, "never").as_str());
            push_kv(&mut lines, "Last used: ", stamp_or_text(t.last_used_at, "never").as_str());
            push_kv(&mut lines, "Revoked:   ", stamp_or_text(t.revoked_at, "no").as_str());
        },
    }
    assert(lines_model(lines@) =~= token_detail_model(selected(token), now));
    lines
}

/// A token's detail pane as it stands now. The instant is read from the
/// clock, so the contract holds for some instant.
pub fn token_detail_lines(token: Option<&TokenView>) -> (r: Vec<Line>)
    ensures
        exists|now: time::OffsetDateTime| lines_model(r@) == #[trigger] token_detail_model(selected(token), now),
{
    let now = now_utc();
    token_detail_lines_at(token, now)
}

/// A token's usage rows for its load state: a row per day with its count,
/// or the loading, empty or failed note.
pub open spec fn token_usage_model(usage: Remote<Vec<(String, u64)>>) -> Seq<Seq<(Seq<char>, Tone, Emphasis)>> {
    seq![subhead("Usage (30d)"@)] + match usage {
        Remote::Ready { value, .. } => if value@.len() == 0 {
            seq![hint("No usage in the last 30 days."@)]
        } else {
            value@.map_values(|b: (String, u64)| seq![
                (b.0@ + "  "@, Tone::Dim, Emphasis::Normal),
                (crate::text::decimal(b.1 as nat), Tone::Plain, Emphasis::Normal),
            ])
        },
        Remote::Failed { error, .. } => seq![
            seq![("Usage failed: "@, Tone::Error, Emphasis::Normal), (error@, Tone::Plain, Emphasis::Normal)],
        ],
        _ => seq![hint("Loading usage…"@)],
    }
}

/// A token's usage block: a row per day (`date`, count), or the loading,
/// empty or failed note.
pub fn token_usage_lines(usage: &Remote<Vec<(String, u64)>>) -> (r: Vec<Line>)
    ensures
        lines_model(r@) == token_usage_model(*usage),
{
    let mut lines: Vec<Line> = Vec::new();
    let ghost g0 = lines_model(lines@);
    assert(g0 =~= Seq::empty());
    push_line(&mut lines, text_line("Usage (30d)", Tone::Accent, Emphasis::Normal));
    let ghost head = lines_model(lines@);
    match usage {
        Remote::Ready { value, .. } => {
            if value.len() == 0 {
                push_line(&mut lines, text_line("No usage in the last 30 days.", Tone::Dim, Emphasis::Italic));
            } else {
                let mut i: usize = 0;
                while i < value.len()
                    invariant
                        i <= value@.len(),
                        lines_model(lines@) == head + value@.take(i as int).map_values(
                            |b: (String, u64)| seq![
                                (b.0@ + "  "@, Tone::Dim, Emphasis::Normal),
                                (crate::text::decimal(b.1 as nat), Tone::Plain, Emphasis::Normal),
                            ],
                        ),
                    decreases value@.len() - i,
                {
                    let mut day = String::new();
                    push_str(&mut day, value[i].0.as_str());
                    push_str(&mut day, "  ");
                    push_line(
                        &mut lines,
                        two_spans(
                            day.as_str(),
                            Tone::Dim,
                            Emphasis::Normal,
                            crate::text::decimal_string(value[i].1).as_str(),
                            Tone::Plain,
                            Emphasis::Normal,
                        ),
                    );
                    assert(value@.take(i + 1) =~= value@.take(i as int).push(value@[i as int]));
                    i = i + 1;
                }
                assert(value@.take(value@.len() as int) =~= value@);
            }
        },
        Remote::Failed { error, .. } => {
            push_line(
                &mut lines,
                two_spans("Usage failed: ", Tone::Error, Emphasis::Normal, error.as_str(), Tone::Plain, Emphasis::Normal),
            );
        },
        _ => {
            push_line(&mut lines, text_line("Loading usage…", Tone::Dim, Emphasis::Italic));
        },
    }
    assert(lines_model(lines@) =~= token_usage_model(*usage));
    lines
}


/// The one-time reveal of a new token's secret: its name, the secret, and
/// the warning that it is shown once.
pub open spec fn token_reveal_model(name: Seq<char>, plaintext: Seq<char>) -> Seq<
    Seq<(Seq<char>, Tone, Emphasis)>,
> {
    seq![
        one("New token \""@ + name + "\" created"@, Tone::Good, Emphasis::Bold),
        one(plaintext, Tone::Accent, Emphasis::Bold),
        one(
            "Copy this secret now — it is shown only once. Press Esc to dismiss."@,
            Tone::Warn,
            Emphasis::Normal,
        ),
    ]
}

/// The one-time reveal block of a freshly created token.
pub fn token_reveal_lines(name: &str, plaintext: &str) -> (r: Vec<Line>)
    ensures
        lines_model(r@) == token_reveal_model(name@, plaintext@),
{
    let mut lines: Vec<Line> = Vec::new();
    let ghost g0 = lines_model(lines@);
    assert(g0 =~= Seq::empty());
    let mut first = owned("New token \"");
    push_str(&mut first, name);
    push_str(&mut first, "\" created");
    push_line(&mut lines, styled(first, Tone::Good, Emphasis::Bold));
    push_line(&mut lines, text_line(plaintext, Tone::Accent, Emphasis::Bold));
    push_line(
        &mut lines,
        text_line(
            "Copy this secret now — it is shown only once. Press Esc to dismiss.",
            Tone::Warn,
            Emphasis::Normal,
        ),
    );
    assert(lines_model(lines@) =~= token_reveal_model(name@, plaintext@));
    lines
}

/// The close of a detail pane, given how long ago its list was fetched (in
/// whole seconds): a blank line, then that a reload is under way or when the
/// list was fetched.
pub open spec fn fetched_note_model(refreshing: bool, secs: nat) -> Seq<Seq<(Seq<char>, Tone, Emphasis)>> {
    seq![
        blank(),
        if refreshing {
            hint("Refreshing…"@)
        } else {
            hint("Fetched "@ + age_text(secs) + "."@)
        },
    ]
}

/// The close of a detail pane: that a reload is under way, or how long ago
/// the list was fetched. How long ago is read from the clock, so the
/// contract holds for some number of seconds.
pub fn fetched_note_lines(refreshing: bool, fetched_at: std::time::Instant) -> (r: Vec<Line>)
    ensures
        exists|secs: nat| lines_model(r@) == #[trigger] fetched_note_model(refreshing, secs),
{
    let mut lines: Vec<Line> = Vec::new();
    let ghost g0 = lines_model(lines@);
    assert(g0 =~= Seq::empty());
    push_line(&mut lines, styled(String::new(), Tone::Plain, Emphasis::Normal));
    let ghost mut secs: nat = 0;
    if refreshing {
        push_line(&mut lines, text_line("Refreshing…", Tone::Dim, Emphasis::Italic));
    } else {
        let age = ago(fetched_at);
        proof {
            secs = choose|s: nat| age@ == age_text(s);
        }
        let mut note = owned("Fetched ");
        push_str(&mut note, age.as_str());
        push_str(&mut note, ".");
        push_line(&mut lines, styled(note, Tone::Dim, Emphasis::Italic));
    }
    assert(lines_model(lines@) =~= fetched_note_model(refreshing, secs));
    lines
}


/// Each message status has its own badge, and the badge names the status
/// it shows: a rejected message shows `[rejected]` in the error colour and an
/// approved one `[approved]` in the success colour, pending `[pending]` as a
/// warning, received `[received]` highlighted and uploading `[uploading]`
/// dimmed.
pub proof fn lemma_message_badges_name_their_status(s: MessageStatus, t: MessageStatus)
    ensures
        s != t ==> message_status_badge(s) != message_status_badge(t),
        message_status_badge(MessageStatus::Rejected) == ("[rejected]"@, Tone::Error, Emphasis::Bold),
        message_status_badge(MessageStatus::Approved) == ("[approved]"@, Tone::Good, Emphasis::Bold),
        message_status_badge(MessageStatus::Pending) == ("[pending]"@, Tone::Warn, Emphasis::Bold),
        message_status_badge(MessageStatus::Received) == ("[received]"@, Tone::Accent, Emphasis::Bold),
        message_status_badge(MessageStatus::Uploading) == ("[uploading]"@, Tone::Dim, Emphasis::Bold),
{
    reveal_strlit("[");
    reveal_strlit("]");
    reveal_strlit("rejected");
    reveal_strlit("approved");
    reveal_strlit("pending");
    reveal_strlit("received");
    reveal_strlit("uploading");
    reveal_strlit("[rejected]");
    reveal_strlit("[approved]");
    reveal_strlit("[pending]");
    reveal_strlit("[received]");
    reveal_strlit("[uploading]");
    assert("["@ + "rejected"@ + "]"@ =~= "[rejected]"@);
    assert("["@ + "approved"@ + "]"@ =~= "[approved]"@);
    assert("["@ + "pending"@ + "]"@ =~= "[pending]"@);
    assert("["@ + "received"@ + "]"@ =~= "[received]"@);
    assert("["@ + "uploading"@ + "]"@ =~= "[uploading]"@);
}


/// Each job status, recommendation and question status has its own badge,
/// naming what it shows: a failed job `[failed]` in the error colour, a
/// finished one `[succeeded]` in the success colour, a pending one
/// `[pending]` as a warning; a recommendation to reject `[reject]` in the
/// error colour, to approve `[approve]` in the success colour, to review
/// `[review]` as a warning; an active question `[active]` in the success
/// colour, an archived one `[archived]` as a warning and a draft `[draft]`
/// dimmed.
pub proof fn lemma_job_and_question_badges(
    a: JobStatus,
    b: JobStatus,
    r: Recommendation,
    s: Recommendation,
    q: QuestionStatus,
    p: QuestionStatus,
)
    ensures
        a != b ==> job_badge(a) != job_badge(b),
        r != s ==> recommendation_badge(r) != recommendation_badge(s),
        q != p ==> question_badge(q) != question_badge(p),
        job_badge(JobStatus::Failed) == ("[failed]"@, Tone::Error, Emphasis::Bold),
        job_badge(JobStatus::Succeeded) == ("[succeeded]"@, Tone::Good, Emphasis::Bold),
        job_badge(JobStatus::Pending) == ("[pending]"@, Tone::Warn, Emphasis::Bold),
        recommendation_badge(Recommendation::Reject) == ("[reject]"@, Tone::Error, Emphasis::Bold),
        recommendation_badge(Recommendation::Approve) == ("[approve]"@, Tone::Good, Emphasis::Bold),
        recommendation_badge(Recommendation::Review) == ("[review]"@, Tone::Warn, Emphasis::Bold),
        question_badge(QuestionStatus::Active) == ("[active]"@, Tone::Good, Emphasis::Bold),
        question_badge(QuestionStatus::Archived) == ("[archived]"@, Tone::Warn, Emphasis::Bold),
        question_badge(QuestionStatus::Draft) == ("[draft]"@, Tone::Dim, Emphasis::Bold),
{
    reveal_strlit("[");
    reveal_strlit("]");
    reveal_strlit("failed");
    reveal_strlit("succeeded");
    reveal_strlit("pending");
    reveal_strlit("reject");
    reveal_strlit("approve");
    reveal_strlit("review");
    reveal_strlit("active");
    reveal_strlit("archived");
    reveal_strlit("draft");
    reveal_strlit("[failed]");
    reveal_strlit("[succeeded]");
    reveal_strlit("[pending]");
    reveal_strlit("[reject]");
    reveal_strlit("[approve]");
    reveal_strlit("[review]");
    reveal_strlit("[active]");
    reveal_strlit("[archived]");
    reveal_strlit("[draft]");
    assert("["@ + "failed"@ + "]"@ =~= "[failed]"@);
    assert("["@ + "succeeded"@ + "]"@ =~= "[succeeded]"@);
    assert("["@ + "pending"@ + "]"@ =~= "[pending]"@);
    assert("["@ + "reject"@ + "]"@ =~= "[reject]"@);
    assert("["@ + "approve"@ + "]"@ =~= "[approve]"@);
    assert("["@ + "review"@ + "]"@ =~= "[review]"@);
    assert("["@ + "active"@ + "]"@ =~= "[active]"@);
    assert("["@ + "archived"@ + "]"@ =~= "[archived]"@);
    assert("["@ + "draft"@ + "]"@ =~= "[draft]"@);
}

/// Each call outcome has its own badge: no two outcomes (nor an ongoing
/// call) look alike, completed calls show in the success colour, hang-ups as
/// warnings and failures in the error colour.
pub proof fn lemma_outcome_badges_distinct(o: Option<CallOutcome>, p: Option<CallOutcome>)
    ensures
        o != p ==> outcome_badge_model(o) != outcome_badge_model(p),
        outcome_badge_model(None).1 == Tone::Accent,
        outcome_badge_model(Some(CallOutcome::RecordingCompleted)).1 == Tone::Good,
        o matches Some(x) && (x is HungUpBeforeDial || x is HungUpDuringPrompt || x is HungUpDuringRecording
            || x is HungUpDuringUpload) ==> outcome_badge_model(o).1 == Tone::Warn,
        o matches Some(x) && (x is RecordingFailed || x is UploadFailed || x is OperatorError
            || x is Aborted) ==> outcome_badge_model(o).1 == Tone::Error,
{
    reveal_strlit("[");
    reveal_strlit("]");
    reveal_strlit("active");
    reveal_strlit("completed");
    reveal_strlit("hung-up:pre-dial");
    reveal_strlit("hung-up:prompt");
    reveal_strlit("hung-up:recording");
    reveal_strlit("hung-up:upload");
    reveal_strlit("recording-failed");
    reveal_strlit("upload-failed");
    reveal_strlit("operator-error");
    reveal_strlit("aborted");
    if o != p && outcome_badge_model(o).1 == outcome_badge_model(p).1 {
        let x = outcome_badge_model(o).0;
        let y = outcome_badge_model(p).0;
        if x.len() == y.len() {
            assert(x[9] != y[9]);
        }
    }
}

} // verus!
