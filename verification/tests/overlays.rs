use tb_operator::actions::{message_outcome, token_outcome, ActionGate, MessageAction, TokenActionResult};
use tb_operator::auth::{sign_out_failed, AuthOutcome, AuthPhase, AuthState, LoginStep, PendingLogin};
use tb_operator::chrome::{
    login_gate_lines, modal_lines, palette_lines, playback_lines, Emphasis, Line, PlaybackSnapshot,
    PlaybackStatus, Tone,
};
use tb_operator::icons::Icons;
use tb_operator::modal::{Intent, Modal};
use tb_operator::screens::Screen;
use tb_operator::toast::Level;

fn text(line: &Line) -> String {
    line.spans.iter().map(|s| s.text.as_str()).collect()
}

fn pending() -> PendingLogin {
    PendingLogin {
        user_code: "ABCD-EFGH".to_owned(),
        verification_uri: "https://auth.example/device".to_owned(),
        verification_uri_complete: None,
    }
}

#[test]
fn login_moves_through_its_phases() {
    let mut auth = AuthState::from_session(None);
    assert!(matches!(auth.phase(), AuthPhase::SignedOut));
    assert_eq!(auth.login_step(), LoginStep::Start);
    assert!(auth.start_login());
    assert!(auth.is_in_progress());
    assert_eq!(auth.login_step(), LoginStep::UnderWay);
    assert!(!auth.start_login());
    assert_eq!(auth.apply_outcome(AuthOutcome::Pending(pending())), None);
    assert!(matches!(auth.phase(), AuthPhase::AwaitingApproval(p) if p.user_code == "ABCD-EFGH"));
    let notice = auth.apply_outcome(AuthOutcome::Completed { expires_at: None }).unwrap();
    assert_eq!(notice.level, Level::Info);
    assert_eq!(notice.text, "Signed in.");
    assert_eq!(auth.login_step(), LoginStep::AlreadySignedIn);
    assert!(!auth.start_login());
    let out = auth.signed_out();
    assert_eq!(out.text, "Signed out.");
    assert!(matches!(auth.phase(), AuthPhase::SignedOut));
}

#[test]
fn a_failed_login_is_reported_and_can_be_retried() {
    let mut auth = AuthState::from_session(None);
    auth.start_login();
    let notice = auth.apply_outcome(AuthOutcome::Failed("denied".to_owned())).unwrap();
    assert_eq!(notice.level, Level::Error);
    assert_eq!(notice.text, "Login failed: denied");
    assert!(!auth.is_in_progress());
    assert!(auth.start_login());
    auth.cancel();
    assert!(matches!(auth.phase(), AuthPhase::SignedOut));
    assert_eq!(sign_out_failed("locked").text, "Sign-out failed: locked");
}

#[test]
fn a_stored_session_starts_signed_in() {
    let auth = AuthState::from_session(Some(None));
    assert!(matches!(auth.phase(), AuthPhase::SignedIn { expires_at: None }));
    let mut auth = auth;
    auth.cancel();
    assert!(matches!(auth.phase(), AuthPhase::SignedIn { .. }));
}

#[test]
fn the_gate_shows_the_code_while_waiting() {
    let phase = AuthPhase::AwaitingApproval(pending());
    let lines = login_gate_lines(&phase, Icons::new(false));
    let texts: Vec<String> = lines.iter().map(text).collect();
    assert_eq!(
        texts,
        vec![
            "tb-operator",
            "",
            "Sign in to the operator API to continue.",
            "",
            "  Awaiting approval",
            "  Visit: https://auth.example/device",
            "  Code:  ABCD-EFGH",
            "",
            "Esc cancel login · q quit",
        ]
    );
    assert_eq!(lines[6].spans[1].tone, Tone::Accent);
    assert_eq!(lines[6].spans[1].emphasis, Emphasis::Bold);
    let out = login_gate_lines(&AuthPhase::SignedOut, Icons::new(false));
    assert_eq!(text(out.last().unwrap()), "L log in · q quit");
}

#[test]
fn the_palette_locks_admin_screens_for_operators() {
    let lines = palette_lines(Screen::Messages, false, &AuthPhase::Failed("x".to_owned()), Icons::new(false));
    let texts: Vec<String> = lines.iter().map(text).collect();
    assert_eq!(texts[0], "Go to screen");
    assert_eq!(texts[1], "  Operator");
    assert_eq!(texts[2], "    1 Status");
    assert_eq!(texts[3], "  › 2 Messages");
    assert_eq!(texts[8], "  System");
    assert_eq!(texts[11], "    9 Debug (admin)");
    assert_eq!(texts[12], "  Admin");
    assert_eq!(texts[13], "    0 API Tokens (admin)");
    assert_eq!(texts[14], "    s Settings");
    assert_eq!(texts[15], "    a About");
    assert_eq!(texts[16], "");
    assert_eq!(texts[17], "Account");
    assert_eq!(texts[18], "  Login failed");
    assert_eq!(texts[19], "  Reason: x");
    assert_eq!(texts[20], "    L Log in (Authentik device code)");
    assert_eq!(texts[21], "    O Sign out");
    assert_eq!(texts.len(), 24);
    assert_eq!(lines[11].spans[2].emphasis, Emphasis::FaintItalic);
    assert_eq!(lines[3].spans[2].tone, Tone::Accent);
    let admin = palette_lines(Screen::Status, true, &AuthPhase::SignedOut, Icons::new(true));
    assert_eq!(text(&admin[11]), "    9 \u{f188} Debug");
}

#[test]
fn modals_render_their_text() {
    let confirm = Modal::confirm("Delete message", "Really?", Intent::DeleteMessage);
    let (title, lines) = modal_lines(&confirm);
    assert_eq!(title, "Delete message");
    let texts: Vec<String> = lines.iter().map(text).collect();
    assert_eq!(texts, vec!["Really?", "", "y confirm   n/Esc cancel"]);
    let prompt = Modal::prompt_with_input("Edit", "Base URL", Intent::EditOperatorBaseUrl, "http://x".to_owned());
    let (title, lines) = modal_lines(&prompt);
    assert_eq!(title, "Edit");
    let texts: Vec<String> = lines.iter().map(text).collect();
    assert_eq!(texts, vec!["Base URL:", "http://x\u{2588}", "", "Enter submit   Esc cancel"]);
}

#[test]
fn playback_lines_describe_the_player() {
    let texts = |v: Vec<Line>| v.iter().map(text).collect::<Vec<String>>();
    assert_eq!(texts(playback_lines(false, None, false, None)), vec!["Playback", "Unavailable: audio output is unavailable"]);
    assert_eq!(texts(playback_lines(true, None, true, None)), vec!["Playback", "Loading audio…"]);
    assert_eq!(texts(playback_lines(true, None, false, None)), vec!["Playback", "Press p to play the selected audio."]);
    let snap = PlaybackSnapshot {
        status: PlaybackStatus::Playing,
        position_ms: 65_000,
        total_ms: Some(4_200),
        error: None,
    };
    assert_eq!(texts(playback_lines(true, None, false, Some(&snap))), vec!["Playback", "Status:   [playing]  1m 5s / 4.200s"]);
    let ended = PlaybackSnapshot { status: PlaybackStatus::Ended, position_ms: 0, total_ms: None, error: Some("bad".to_owned()) };
    assert_eq!(
        texts(playback_lines(true, None, false, Some(&ended))),
        vec!["Playback", "Status:   [ended]  0.000s", "Error: bad", "Press p to play the selected audio."]
    );
}

#[test]
fn action_outcomes_name_what_happened() {
    let ok = message_outcome(MessageAction::Approve, Ok(()));
    assert!(ok.ok);
    assert_eq!(ok.message, "Message approved.");
    let bad = message_outcome(MessageAction::Delete, Err("409".to_owned()));
    assert!(!bad.ok);
    assert_eq!(bad.message, "Delete failed: 409");
    let created = token_outcome(&TokenActionResult::Created("ci".to_owned()));
    assert!(created.ok);
    assert_eq!(created.message, "Token \"ci\" created — copy the secret now.");
    assert_eq!(token_outcome(&TokenActionResult::Revoked).message, "Token revoked.");
    let failed = token_outcome(&TokenActionResult::CreateFailed("nope".to_owned()));
    assert!(!failed.ok);
    assert_eq!(failed.message, "Create failed: nope");
    let mut gate = ActionGate::new();
    assert!(gate.begin());
    assert!(!gate.begin());
    assert!(gate.is_in_flight());
    gate.finish();
    assert!(gate.begin());
}
