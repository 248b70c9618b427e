use tb_operator::auth::{AuthPhase, PendingLogin};
use tb_operator::bodies::{
    list_status_lines, mode_label, settings_lines, state_color, state_label, status_lines,
    BoothState, BoothStatus, ListScreen, RuntimeMode,
};
use tb_operator::chrome::{Line, Tone};
use tb_operator::dispatch::{
    follow_up, message_action_check, play_check, question_action_check, question_admin_check,
    simulate_check, token_action_check, FollowUp,
};
use tb_operator::format::{format_expiry, format_ts};
use tb_operator::live::{Stamped, StatusView};
use tb_operator::modal::{Intent, Modal};
use tb_operator::remote::{ListCore, Remote};
use tb_operator::toast::Level;
use time::OffsetDateTime;

fn texts(lines: &[Line]) -> Vec<String> {
    lines
        .iter()
        .map(|l| l.spans.iter().map(|s| s.text.as_str()).collect::<String>())
        .collect()
}

#[test]
fn list_bodies_say_loading_empty_or_failed() {
    let mut list: ListCore<u8> = ListCore::new();
    assert_eq!(
        texts(&list_status_lines(ListScreen::Messages, list.state())),
        vec!["Messages", "", "Loading messages…"]
    );
    list.begin();
    list.apply(Ok(Vec::new()));
    assert_eq!(
        texts(&list_status_lines(ListScreen::Tokens, list.state())),
        vec!["API Tokens", "", "No API tokens.", "Press n to create one; r to reload."]
    );
    list.begin();
    list.apply(Err("401".to_owned()));
    let failed = texts(&list_status_lines(ListScreen::Events, list.state()));
    assert_eq!(failed[2], "Failed to load events just now.");
    assert_eq!(failed[3], "Reason: 401");
    assert_eq!(failed[4], "Press r to retry; sign in via Settings if unauthorized.");
}

#[test]
fn settings_body_shows_configuration_and_account() {
    let lines = settings_lines("https://api", "https://issuer", 2, &AuthPhase::SignedOut);
    assert_eq!(
        texts(&lines),
        vec![
            "Settings",
            "",
            "Operator URL, OIDC issuer, configured booths, theme, and identity.",
            "",
            "Operator API: https://api",
            "OIDC issuer:  https://issuer",
            "Booths:       2",
            "",
            "Account",
            "Status: signed out",
            "Press L to log in.",
        ]
    );
    let waiting = AuthPhase::AwaitingApproval(PendingLogin {
        user_code: "CODE".to_owned(),
        verification_uri: "https://v".to_owned(),
        verification_uri_complete: Some("https://v?c=CODE".to_owned()),
    });
    let t = texts(&settings_lines("a", "b", 0, &waiting));
    assert_eq!(&t[9..], &["Status: awaiting approval", "Visit:  https://v", "Code:   CODE", "Direct: https://v?c=CODE", "Press Esc to cancel."]);
    let signed_in = AuthPhase::SignedIn { expires_at: Some(OffsetDateTime::UNIX_EPOCH) };
    let t = texts(&settings_lines("a", "b", 0, &signed_in));
    assert_eq!(&t[9..], &["Status: signed in", "Expires: 1970-01-01T00:00:00Z", "Press O to sign out."]);
}

#[test]
fn timestamps_are_rfc3339_or_unknown() {
    assert_eq!(format_ts(OffsetDateTime::UNIX_EPOCH), "1970-01-01T00:00:00Z");
    assert_eq!(format_expiry(None), "unknown");
}

#[test]
fn status_body_shows_the_booth() {
    let mut view: StatusView<BoothStatus> = StatusView::new();
    assert_eq!(texts(&status_lines(view.state(), false)), vec!["Status", "", "Loading booth status…"]);
    view.apply_status(Stamped {
        stamp: 0,
        value: BoothStatus {
            state: BoothState::Recording,
            runtime_mode: Some(RuntimeMode::Simulator),
            current_question_id: Some("q1".to_owned()),
            current_message_id: None,
            last_error: Some("mic".to_owned()),
            updated_at: OffsetDateTime::UNIX_EPOCH,
        },
    });
    let lines = status_lines(view.state(), true);
    assert_eq!(
        texts(&lines),
        vec![
            "Status",
            "",
            "State:        Recording",
            "Runtime mode: Simulator",
            "Question:     q1",
            "Last error:   mic",
            "Updated:      1970-01-01T00:00:00Z",
            "",
            "Fetched just now.",
            "Refreshing…",
        ]
    );
    assert_eq!(lines[2].spans[1].tone, Tone::Good);
    assert_eq!(state_label(BoothState::DialTone), "Dial tone");
    assert_eq!(state_color(BoothState::Error), Tone::Error);
    assert_eq!(state_color(BoothState::Idle), Tone::Dim);
    assert_eq!(mode_label(RuntimeMode::Real), "Real hardware");
}

#[test]
fn confirmed_modals_lead_to_their_action() {
    let mut first = Modal::prompt("New question", "Prompt text", Intent::NewQuestionPrompt);
    for c in "Hello".chars() {
        first.on_key(tb_operator::keys::KeyEvent::new(
            tb_operator::keys::KeyCode::Char(c),
            tb_operator::keys::KeyModifiers::none(),
        ));
    }
    let next = match follow_up(&first) {
        FollowUp::AskAudioPath(next) => next,
        other => panic!("expected the audio prompt, got {other:?}"),
    };
    assert_eq!(next.input(), "");
    assert!(matches!(next.intent(), Intent::NewQuestionAudio { ref prompt } if prompt == "Hello"));
    let audio = Modal::prompt_with_input("New question", "FLAC file path", next.intent(), "/tmp/q.flac".to_owned());
    assert!(matches!(
        follow_up(&audio),
        FollowUp::CreateQuestion { ref prompt, ref audio_path } if prompt == "Hello" && audio_path == "/tmp/q.flac"
    ));
    let poll = Modal::prompt_with_input("Edit poll interval", "Milliseconds", Intent::EditPollInterval, "500".to_owned());
    assert!(matches!(follow_up(&poll), FollowUp::SetPollInterval(ref s) if s == "500"));
    let revoke = Modal::confirm("Revoke token", "Sure?", Intent::RevokeApiToken);
    assert!(matches!(follow_up(&revoke), FollowUp::RevokeToken));
}

#[test]
fn action_checks_explain_refusals() {
    assert_eq!(message_action_check(true, true).unwrap().text, "An action is already in progress.");
    assert_eq!(message_action_check(false, false).unwrap().level, Level::Info);
    assert!(message_action_check(false, true).is_none());
    assert!(question_admin_check(true, true).is_none());
    assert_eq!(
        question_admin_check(false, true).unwrap().text,
        "Managing questions requires an administrator account."
    );
    assert_eq!(question_action_check(true, true, false, false).unwrap().text, "Select a question first.");
    assert_eq!(
        question_action_check(false, false, false, true).unwrap().text,
        "Checking your permissions… try again in a moment."
    );
    assert!(token_action_check(false, false, false).is_none());
    assert_eq!(token_action_check(false, true, false).unwrap().text, "Select a token first.");
    assert_eq!(simulate_check(false, true, false).unwrap().text, "No booth is configured.");
    assert_eq!(simulate_check(true, false, false).unwrap().text, "Simulate controls are disabled on this booth.");
    assert_eq!(simulate_check(true, true, true).unwrap().level, Level::Warn);
    assert!(simulate_check(true, true, false).is_none());
    assert_eq!(play_check(false, Some("no device"), false).unwrap().text, "Cannot play audio: no device");
    assert_eq!(play_check(false, None, false).unwrap().text, "Cannot play audio: audio output is unavailable");
    assert_eq!(play_check(true, None, true).unwrap().text, "Audio is already loading.");
    assert!(play_check(true, None, false).is_none());
}

#[test]
fn status_failures_show_only_without_a_value() {
    let mut view: StatusView<BoothStatus> = StatusView::new();
    view.begin();
    view.apply(Err("down".to_owned()));
    let t = texts(&status_lines(view.state(), false));
    assert_eq!(t[2], "Failed to load status just now.");
    assert_eq!(t[3], "Reason: down");
    assert!(matches!(view.state(), Remote::Failed { .. }));
}
