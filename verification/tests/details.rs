use tb_operator::booth::{DebugPanels, DebugRound};
use tb_operator::chrome::{Emphasis, Line, Tone};
use tb_operator::details::{
    event_detail_lines, event_type_color, event_type_label, message_detail_lines, outcome_badge,
    question_detail_lines, session_detail_lines, split_lines, token_detail_lines,
    token_detail_lines_at, token_usage_lines, BoothEventType, CallOutcome, EventView, JobStatus,
    MessageStatus, MessageView, ModerationView, QuestionStatus, QuestionView, Recommendation,
    SessionView, TimelineEntry, TokenView, TranscriptionView,
};
use tb_operator::health::{format_uptime, push_host_lines, push_network_lines, HostView, NetView, ThrottleView};
use tb_operator::remote::{ListCore, Remote};
use time::OffsetDateTime;

fn texts(lines: &[Line]) -> Vec<String> {
    lines
        .iter()
        .map(|l| l.spans.iter().map(|s| s.text.as_str()).collect::<String>())
        .collect()
}

const EPOCH: &str = "1970-01-01T00:00:00Z";

fn event(payload_is_null: bool, payload_pretty: String) -> EventView {
    EventView {
        event_type: BoothEventType::UploadFailed,
        occurred_at: OffsetDateTime::UNIX_EPOCH,
        received_at: OffsetDateTime::UNIX_EPOCH,
        booth_id: "booth-1".to_owned(),
        boot_id: "boot-9".to_owned(),
        event_id: "ev-3".to_owned(),
        session_id: Some("sess-2".to_owned()),
        recording_id: None,
        version: Some("1.2.3".to_owned()),
        payload_is_null,
        payload_pretty,
    }
}

#[test]
fn event_labels_and_colours() {
    assert_eq!(event_type_label(BoothEventType::GpioEdge), "GPIO edge");
    assert_eq!(event_type_label(BoothEventType::SystemSample), "system sample");
    assert_eq!(event_type_color(BoothEventType::Error), Tone::Error);
    assert_eq!(event_type_color(BoothEventType::UploadFailed), Tone::Error);
    assert_eq!(event_type_color(BoothEventType::CallEnded), Tone::Good);
    assert_eq!(event_type_color(BoothEventType::Log), Tone::Fg);
}

#[test]
fn event_detail_shows_fields_and_payload() {
    let lines = event_detail_lines(Some(&event(false, "{\n  \"a\": 1\n}".to_owned())));
    assert_eq!(
        texts(&lines),
        vec![
            "upload failed".to_owned(),
            "".to_owned(),
            format!("Occurred:  {EPOCH}"),
            format!("Received:  {EPOCH}"),
            "Booth:     booth-1".to_owned(),
            "Boot:      boot-9".to_owned(),
            "Event id:  ev-3".to_owned(),
            "Session:   sess-2".to_owned(),
            "Version:   1.2.3".to_owned(),
            "".to_owned(),
            "Payload".to_owned(),
            "{".to_owned(),
            "  \"a\": 1".to_owned(),
            "}".to_owned(),
        ]
    );
    assert_eq!(lines[0].spans[0].tone, Tone::Error);
    assert_eq!(lines[0].spans[0].emphasis, Emphasis::Bold);
}

#[test]
fn null_payload_is_left_out() {
    let lines = texts(&event_detail_lines(Some(&event(true, "null".to_owned()))));
    assert_eq!(lines.len(), 9);
    assert_eq!(lines.last().map(String::as_str), Some("Version:   1.2.3"));
}

#[test]
fn long_payloads_are_cut_at_forty_lines() {
    let pretty = (0..45).map(|i| format!("line {i}")).collect::<Vec<_>>().join("\n");
    let lines = texts(&event_detail_lines(Some(&event(false, pretty))));
    assert_eq!(lines.len(), 9 + 2 + 40 + 1);
    assert_eq!(lines[11], "line 0");
    assert_eq!(lines[50], "line 39");
    assert_eq!(lines[51], "… payload truncated.");
}

#[test]
fn no_event_selected() {
    assert_eq!(texts(&event_detail_lines(None)), vec!["No event selected."]);
}

#[test]
fn lines_split_like_str_lines() {
    let got: Vec<String> = split_lines("a\r\n\nb\n");
    assert_eq!(got, vec!["a", "", "b"]);
    assert!(split_lines("").is_empty());
    assert_eq!(split_lines("x"), vec!["x"]);
}

#[test]
fn message_detail_shows_transcription_and_moderation() {
    let message = MessageView {
        id: "m-1".to_owned(),
        status: MessageStatus::Pending,
        question_id: Some("q-7".to_owned()),
        created_at: OffsetDateTime::UNIX_EPOCH,
        received_at: None,
        decided_at: Some(OffsetDateTime::UNIX_EPOCH),
        notes: None,
        transcription: Some(TranscriptionView {
            status: JobStatus::Succeeded,
            language: Some("en".to_owned()),
            text: None,
            translated_text: Some("hola".to_owned()),
            translated_language: Some("es".to_owned()),
            error: None,
        }),
        moderation: Some(ModerationView {
            status: JobStatus::Failed,
            recommendation: Some(Recommendation::Review),
            flagged: Some(true),
            max_score: Some("0.87".to_owned()),
            reason: None,
            error: Some("timeout".to_owned()),
        }),
    };
    let lines = message_detail_lines(Some(&message));
    assert_eq!(
        texts(&lines),
        vec![
            "Message".to_owned(),
            "".to_owned(),
            "ID:        m-1".to_owned(),
            "Status:    [pending]".to_owned(),
            "Question:  q-7".to_owned(),
            format!("Created:   {EPOCH}"),
            format!("Decided:   {EPOCH}"),
            "".to_owned(),
            "Transcription".to_owned(),
            "  Status:    [succeeded]".to_owned(),
            "  Language:  en".to_owned(),
            "  (no text)".to_owned(),
            "  Translated:hola".to_owned(),
            "  → Language:es".to_owned(),
            "".to_owned(),
            "Moderation".to_owned(),
            "  Status:    [failed]".to_owned(),
            "  Recommend: [review]".to_owned(),
            "  Flagged:   yes".to_owned(),
            "  Max score: 0.87".to_owned(),
            "  Error:     timeout".to_owned(),
        ]
    );
    assert_eq!(lines[3].spans[1].tone, Tone::Warn);
    assert_eq!(lines[18].spans[1].tone, Tone::Error);
}

#[test]
fn message_detail_without_jobs_or_selection() {
    assert_eq!(
        texts(&message_detail_lines(None)),
        vec!["Message", "", "Select a message."]
    );
    let message = MessageView {
        id: "m-2".to_owned(),
        status: MessageStatus::Approved,
        question_id: None,
        created_at: OffsetDateTime::UNIX_EPOCH,
        received_at: None,
        decided_at: None,
        notes: Some("fine".to_owned()),
        transcription: None,
        moderation: None,
    };
    let text = texts(&message_detail_lines(Some(&message)));
    assert_eq!(text[3], "Status:    [approved]");
    assert_eq!(text[5], "Notes:     fine");
    assert_eq!(text[8], "  none");
    assert_eq!(text[11], "  none");
}

fn session() -> SessionView {
    SessionView {
        id: "s-1".to_owned(),
        booth_id: "booth-1".to_owned(),
        outcome: Some(CallOutcome::HungUpDuringPrompt),
        started_at: OffsetDateTime::UNIX_EPOCH,
        ended_at: None,
        duration_ms: Some(61_500),
        digits: Some("12".to_owned()),
        recording_id: None,
        version: None,
    }
}

#[test]
fn outcome_badges() {
    assert_eq!(outcome_badge(None), ("[active]".to_owned(), Tone::Accent));
    assert_eq!(
        outcome_badge(Some(CallOutcome::RecordingCompleted)),
        ("[completed]".to_owned(), Tone::Good)
    );
    assert_eq!(
        outcome_badge(Some(CallOutcome::UploadFailed)),
        ("[upload-failed]".to_owned(), Tone::Error)
    );
}

#[test]
fn session_detail_with_timeline() {
    let mut core: ListCore<TimelineEntry> = ListCore::new();
    core.begin();
    core.apply(Ok(vec![TimelineEntry {
        occurred_at: OffsetDateTime::UNIX_EPOCH,
        event_type: BoothEventType::CallStarted,
    }]));
    let lines = session_detail_lines(Some(&session()), core.state());
    assert_eq!(
        texts(&lines),
        vec![
            "Session".to_owned(),
            "".to_owned(),
            "ID:        s-1".to_owned(),
            "Booth:     booth-1".to_owned(),
            "Outcome:   [hung-up:prompt]".to_owned(),
            format!("Started:   {EPOCH}"),
            "Duration:  1m 1s".to_owned(),
            "Digits:    12".to_owned(),
            "".to_owned(),
            "Timeline".to_owned(),
            "  00:00:00 call started".to_owned(),
        ]
    );
}

#[test]
fn session_timeline_states() {
    let loading: Remote<Vec<TimelineEntry>> = Remote::Loading;
    let text = texts(&session_detail_lines(Some(&session()), &loading));
    assert_eq!(text.last().map(String::as_str), Some("  Loading timeline…"));
    let mut core: ListCore<TimelineEntry> = ListCore::new();
    core.begin();
    core.apply(Ok(Vec::new()));
    let text = texts(&session_detail_lines(Some(&session()), core.state()));
    assert_eq!(text.last().map(String::as_str), Some("  (no events)"));
    core.begin();
    core.apply(Err("boom".to_owned()));
    let text = texts(&session_detail_lines(Some(&session()), core.state()));
    let n = text.len();
    assert_eq!(text[n - 2], "  Failed to load timeline just now.");
    assert_eq!(text[n - 1], "  Reason: boom");
    assert_eq!(
        texts(&session_detail_lines(None, &loading)),
        vec!["Session", "", "Select a session."]
    );
}

#[test]
fn uptime_leaves_out_leading_zero_units() {
    assert_eq!(format_uptime(90), "1m");
    assert_eq!(format_uptime(3_660), "1h 1m");
    assert_eq!(format_uptime(90_061), "1d 1h 1m");
}

#[test]
fn host_rows() {
    let host = HostView {
        uptime: Some("1h 1m".to_owned()),
        audio: Some((Some("mic".to_owned()), None)),
        tailscale: Some((Some(true), Some("booth".to_owned()))),
        throttling: Some(ThrottleView {
            undervoltage: Some(true),
            throttled: Some(false),
            arm_freq_capped: None,
            soft_temp_limit: Some(true),
        }),
    };
    let mut lines = Vec::new();
    push_host_lines(&mut lines, &host);
    assert_eq!(
        texts(&lines),
        vec![
            "Uptime:    1h 1m",
            "Audio in:  mic",
            "Audio out: —",
            "Tailscale: connected (booth)",
            "Throttling: under-voltage, soft-temp-limit",
        ]
    );
    assert_eq!(lines[4].spans[1].tone, Tone::Warn);
    let quiet = HostView {
        uptime: None,
        audio: None,
        tailscale: Some((None, None)),
        throttling: Some(ThrottleView {
            undervoltage: None,
            throttled: None,
            arm_freq_capped: None,
            soft_temp_limit: None,
        }),
    };
    let mut lines = Vec::new();
    push_host_lines(&mut lines, &quiet);
    assert_eq!(texts(&lines), vec!["Tailscale: unknown"]);
}

#[test]
fn network_rows() {
    let nets = Some(vec![NetView {
        interface: "wlan0-long-name".to_owned(),
        receive_bytes_total: 2048,
        transmit_bytes_total: 10,
    }]);
    let mut lines = Vec::new();
    push_network_lines(&mut lines, &nets);
    assert_eq!(texts(&lines), vec!["Net wlan0-… ↓ 2.0 KiB  ↑ 10 B"]);
}

#[test]
fn debug_round_keeps_failed_panels() {
    let mut panels: DebugPanels<u8, u8, u8, u8, u8> = DebugPanels::new();
    panels.apply(DebugRound {
        state: Ok(1),
        gpio: Ok(2),
        audio: Ok(3),
        logs: Ok(vec![4]),
        config: Ok(5),
    });
    assert!(panels.last_ok.is_some());
    assert!(panels.last_error.is_none());
    let ok_at = panels.last_ok;
    panels.apply(DebugRound {
        state: Err("down".to_owned()),
        gpio: Ok(20),
        audio: Err("busy".to_owned()),
        logs: Ok(vec![40, 41]),
        config: Ok(50),
    });
    assert_eq!(panels.state, Some(1));
    assert_eq!(panels.gpio, Some(20));
    assert_eq!(panels.audio, Some(3));
    assert_eq!(panels.logs, vec![40, 41]);
    assert_eq!(panels.config, Some(50));
    assert_eq!(panels.last_ok, ok_at);
    assert_eq!(
        panels.last_error.as_ref().map(|(text, _)| text.as_str()),
        Some("state: down; audio: busy")
    );
}

#[test]
fn question_detail_shows_prompt() {
    let q = QuestionView {
        id: "q-1".to_owned(),
        status: QuestionStatus::Archived,
        created_at: OffsetDateTime::UNIX_EPOCH,
        duration_ms: Some(2_050),
        prompt: "What did you hear?".to_owned(),
    };
    let lines = question_detail_lines(Some(&q));
    assert_eq!(
        texts(&lines),
        vec![
            "Question".to_owned(),
            "".to_owned(),
            "ID:       q-1".to_owned(),
            "Status:   [archived]".to_owned(),
            format!("Created:  {EPOCH}"),
            "Duration: 2.050s".to_owned(),
            "".to_owned(),
            "Prompt".to_owned(),
            "What did you hear?".to_owned(),
        ]
    );
    assert_eq!(lines[3].spans[1].tone, Tone::Warn);
    assert_eq!(texts(&question_detail_lines(None)), vec!["Question", "", "Select a question."]);
}

fn token(expires_at: Option<OffsetDateTime>, revoked_at: Option<OffsetDateTime>) -> TokenView {
    TokenView {
        id: "t-1".to_owned(),
        name: "ci".to_owned(),
        last4: "abcd".to_owned(),
        created_at: OffsetDateTime::UNIX_EPOCH,
        expires_at,
        last_used_at: None,
        revoked_at,
    }
}

#[test]
fn token_detail_shows_effective_status() {
    let later = OffsetDateTime::from_unix_timestamp(1_000).unwrap();
    let lines = token_detail_lines_at(Some(&token(Some(later), None)), OffsetDateTime::UNIX_EPOCH);
    assert_eq!(
        texts(&lines),
        vec![
            "Token".to_owned(),
            "".to_owned(),
            "ID:        t-1".to_owned(),
            "Name:      ci".to_owned(),
            "Secret:    ··abcd".to_owned(),
            "Status:    [active]".to_owned(),
            format!("Created:   {EPOCH}"),
            "Expires:   1970-01-01T00:16:40Z".to_owned(),
            "Last used: never".to_owned(),
            "Revoked:   no".to_owned(),
        ]
    );
    let expired = texts(&token_detail_lines_at(Some(&token(Some(later), None)), later));
    assert_eq!(expired[5], "Status:    [expired]");
    let revoked = texts(&token_detail_lines(Some(&token(None, Some(later)))));
    assert_eq!(revoked[5], "Status:    [revoked]");
    assert_eq!(revoked[9], "Revoked:   1970-01-01T00:16:40Z");
    assert_eq!(texts(&token_detail_lines(None)), vec!["Token", "", "Select a token."]);
}

#[test]
fn token_usage_rows() {
    let loading: Remote<Vec<(String, u64)>> = Remote::Loading;
    assert_eq!(texts(&token_usage_lines(&loading)), vec!["Usage (30d)", "Loading usage…"]);
    let mut core: ListCore<(String, u64)> = ListCore::new();
    core.begin();
    core.apply(Ok(vec![("2024-01-02".to_owned(), 7)]));
    assert_eq!(texts(&token_usage_lines(core.state())), vec!["Usage (30d)", "2024-01-02  7"]);
    core.begin();
    core.apply(Ok(Vec::new()));
    assert_eq!(
        texts(&token_usage_lines(core.state())),
        vec!["Usage (30d)", "No usage in the last 30 days."]
    );
    core.begin();
    core.apply(Err("403".to_owned()));
    assert_eq!(texts(&token_usage_lines(core.state())), vec!["Usage (30d)", "Usage failed: 403"]);
}

#[test]
fn token_reveal_block() {
    let lines = tb_operator::details::token_reveal_lines("ci", "tbo_secret");
    assert_eq!(
        texts(&lines),
        vec![
            "New token \"ci\" created",
            "tbo_secret",
            "Copy this secret now — it is shown only once. Press Esc to dismiss.",
        ]
    );
    assert_eq!(lines[0].spans[0].tone, Tone::Good);
}

#[test]
fn detail_panes_close_with_fetch_note() {
    let now = std::time::Instant::now();
    assert_eq!(
        texts(&tb_operator::details::fetched_note_lines(false, now)),
        vec!["", "Fetched just now."]
    );
    assert_eq!(
        texts(&tb_operator::details::fetched_note_lines(true, now)),
        vec!["", "Refreshing…"]
    );
}
