use tb_operator::chrome::{Line, Tone};
use tb_operator::details::{
    BoothEventType, CallOutcome, JobStatus, MessageStatus, MessageView, QuestionStatus,
    QuestionView, SessionView, TokenView, TranscriptionView,
};
use tb_operator::rows::{
    event_row, message_row, question_row, session_row, short_time, squeeze_spaces, token_rows,
};
use time::OffsetDateTime;

fn text(line: &Line) -> String {
    line.spans.iter().map(|s| s.text.as_str()).collect()
}

fn message(text: Option<&str>) -> MessageView {
    MessageView {
        id: "m".to_owned(),
        status: MessageStatus::Received,
        question_id: None,
        created_at: OffsetDateTime::UNIX_EPOCH,
        received_at: None,
        decided_at: None,
        notes: None,
        transcription: Some(TranscriptionView {
            status: JobStatus::Succeeded,
            language: None,
            text: text.map(str::to_owned),
            translated_text: None,
            translated_language: None,
            error: None,
        }),
        moderation: None,
    }
}

#[test]
fn short_time_keeps_month_day_and_minutes() {
    assert_eq!(short_time(OffsetDateTime::UNIX_EPOCH), "01-01 00:00");
    let t = OffsetDateTime::from_unix_timestamp(1_700_000_000).unwrap();
    assert_eq!(short_time(t), "11-14 22:13");
}

#[test]
fn whitespace_is_squeezed() {
    assert_eq!(squeeze_spaces("  hello \n\t world  "), "hello world");
    assert_eq!(squeeze_spaces(""), "");
    assert_eq!(squeeze_spaces("a\u{3000}b"), "a b");
}

#[test]
fn message_rows_show_badge_time_and_snippet() {
    let row = message_row(&message(Some("  hi\n there ")));
    assert_eq!(text(&row), "[received] 01-01 00:00  hi there");
    assert_eq!(row.spans[0].tone, Tone::Accent);
    assert_eq!(row.spans[2].tone, Tone::Dim);
    assert_eq!(text(&message_row(&message(None))), "[received] 01-01 00:00  (no transcription)");
    let long = "word ".repeat(20);
    let cut = text(&message_row(&message(Some(&long))));
    assert!(cut.ends_with('…'));
    assert_eq!(cut.chars().count(), "[received] 01-01 00:00  ".chars().count() + 40);
}

#[test]
fn question_session_and_event_rows() {
    let q = QuestionView {
        id: "q".to_owned(),
        status: QuestionStatus::Active,
        created_at: OffsetDateTime::UNIX_EPOCH,
        duration_ms: None,
        prompt: "line one\nline two".to_owned(),
    };
    assert_eq!(text(&question_row(&q)), "[active] line one line two");
    let s = SessionView {
        id: "s".to_owned(),
        booth_id: "b".to_owned(),
        outcome: None,
        started_at: OffsetDateTime::UNIX_EPOCH,
        ended_at: None,
        duration_ms: None,
        digits: None,
        recording_id: None,
        version: None,
    };
    assert_eq!(text(&session_row(&s)), "[active] 01-01 00:00");
    let done = SessionView { outcome: Some(CallOutcome::Aborted), ..s };
    assert_eq!(session_row(&done).spans[0].tone, Tone::Error);
    let e = event_row(OffsetDateTime::UNIX_EPOCH, BoothEventType::CallStarted);
    assert_eq!(text(&e), "01-01 00:00 call started");
    assert_eq!(e.spans[1].tone, Tone::Good);
}

#[test]
fn token_rows_show_status_name_and_secret_end() {
    let tokens = vec![
        TokenView {
            id: "1".to_owned(),
            name: "a-very-long-token-name-that-goes-on".to_owned(),
            last4: "wxyz".to_owned(),
            created_at: OffsetDateTime::UNIX_EPOCH,
            expires_at: None,
            last_used_at: None,
            revoked_at: None,
        },
        TokenView {
            id: "2".to_owned(),
            name: "old".to_owned(),
            last4: "0000".to_owned(),
            created_at: OffsetDateTime::UNIX_EPOCH,
            expires_at: Some(OffsetDateTime::UNIX_EPOCH),
            last_used_at: None,
            revoked_at: None,
        },
    ];
    let rows = token_rows(&tokens);
    assert_eq!(text(&rows[0]), "[active] a-very-long-token-name-th…  ··wxyz");
    assert_eq!(text(&rows[1]), "[expired] old  ··0000");
    assert_eq!(rows[1].spans[0].tone, Tone::Warn);
}
