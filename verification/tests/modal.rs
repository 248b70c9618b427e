use tb_operator::dispatch::{modal_step, FollowUp, ModalStep};
use tb_operator::keys::{KeyCode, KeyEvent, KeyModifiers};
use tb_operator::modal::{Intent, Modal, ModalDecision};

fn key(code: KeyCode) -> KeyEvent {
    KeyEvent::new(code, KeyModifiers::none())
}

#[test]
fn confirm_modal_confirms_on_y_and_enter() {
    let mut modal = Modal::confirm("Delete?", "Are you sure?", Intent::DeleteMessage);
    assert_eq!(
        modal.on_key(key(KeyCode::Char('y'))),
        ModalDecision::Confirm
    );
    assert_eq!(modal.on_key(key(KeyCode::Enter)), ModalDecision::Confirm);
    assert_eq!(modal.intent(), Intent::DeleteMessage);
}

#[test]
fn confirm_modal_cancels_on_n_and_esc() {
    let mut modal = Modal::confirm("Delete?", "Are you sure?", Intent::DeleteMessage);
    assert_eq!(modal.on_key(key(KeyCode::Char('n'))), ModalDecision::Cancel);
    assert_eq!(modal.on_key(key(KeyCode::Esc)), ModalDecision::Cancel);
}

#[test]
fn prompt_modal_edits_and_submits() {
    let mut modal = Modal::prompt("Translate", "Text", Intent::TranslateMessage);
    for c in "hi".chars() {
        assert_eq!(modal.on_key(key(KeyCode::Char(c))), ModalDecision::Stay);
    }
    assert_eq!(modal.input(), "hi");
    modal.on_key(key(KeyCode::Backspace));
    assert_eq!(modal.input(), "h");
    assert_eq!(modal.on_key(key(KeyCode::Enter)), ModalDecision::Confirm);
}

#[test]
fn prompt_modal_does_not_submit_when_empty() {
    let mut modal = Modal::prompt("Translate", "Text", Intent::TranslateMessage);
    assert_eq!(modal.on_key(key(KeyCode::Enter)), ModalDecision::Stay);
    modal.on_key(key(KeyCode::Char(' ')));
    assert_eq!(
        modal.on_key(key(KeyCode::Enter)),
        ModalDecision::Stay,
        "whitespace-only input must not submit"
    );
}

#[test]
fn prompt_modal_ignores_control_chars() {
    let mut modal = Modal::prompt("Translate", "Text", Intent::TranslateMessage);
    let ctrl_a = KeyEvent::new(KeyCode::Char('a'), KeyModifiers::control());
    assert_eq!(modal.on_key(ctrl_a), ModalDecision::Stay);
    assert_eq!(modal.input(), "");
}

#[test]
fn confirm_modal_keeps_other_keys_and_has_no_input() {
    let mut modal = Modal::confirm("Archive", "Sure?", Intent::ArchiveQuestion);
    assert_eq!(modal.on_key(key(KeyCode::Char('Y'))), ModalDecision::Confirm);
    assert_eq!(modal.on_key(key(KeyCode::Char('N'))), ModalDecision::Cancel);
    assert_eq!(modal.on_key(key(KeyCode::Char('x'))), ModalDecision::Stay);
    assert_eq!(modal.on_key(key(KeyCode::Backspace)), ModalDecision::Stay);
    assert_eq!(modal.input(), "");
}

#[test]
fn prompt_modal_edits_prefilled_input_and_keeps_its_intent() {
    let mut modal = Modal::prompt_with_input(
        "Edit poll interval",
        "Milliseconds",
        Intent::EditPollInterval,
        "500".to_owned(),
    );
    modal.on_key(key(KeyCode::Backspace));
    modal.on_key(KeyEvent::new(KeyCode::Char('7'), KeyModifiers::shift()));
    modal.on_key(KeyEvent::new(KeyCode::Char('9'), KeyModifiers::alt()));
    assert_eq!(modal.input(), "507");
    assert_eq!(modal.on_key(key(KeyCode::Esc)), ModalDecision::Cancel);
    assert_eq!(modal.intent(), Intent::EditPollInterval);
    let audio = Modal::prompt(
        "New question",
        "FLAC file path",
        Intent::NewQuestionAudio { prompt: "Hi".to_owned() },
    );
    assert_eq!(audio.intent(), Intent::NewQuestionAudio { prompt: "Hi".to_owned() });
}

#[test]
fn modifiers_combine_and_test_as_bit_flags() {
    let both = KeyModifiers::control().union(KeyModifiers::alt());
    assert!(both.contains(KeyModifiers::control()));
    assert!(both.intersects(KeyModifiers::alt()));
    assert!(!KeyModifiers::shift().intersects(both));
    assert!(KeyModifiers::none().contains(KeyModifiers::none()));
}

#[test]
fn modal_step_keeps_closes_or_acts() {
    let prompt = Modal::prompt("New question", "Prompt", Intent::NewQuestionPrompt);
    let kept = match modal_step(prompt, key(KeyCode::Char('a'))) {
        ModalStep::Keep(modal) => modal,
        other => panic!("expected the prompt to stay open, got {other:?}"),
    };
    assert_eq!(kept.input(), "a");
    match modal_step(kept, key(KeyCode::Enter)) {
        ModalStep::Act(FollowUp::AskAudioPath(next)) => {
            assert_eq!(next.input(), "");
            assert_eq!(
                next.intent(),
                Intent::NewQuestionAudio {
                    prompt: "a".to_owned()
                }
            );
        }
        other => panic!("expected the audio prompt, got {other:?}"),
    }
    let confirm = Modal::confirm("Delete?", "Sure?", Intent::DeleteMessage);
    assert!(matches!(modal_step(confirm, key(KeyCode::Esc)), ModalStep::Close));
}
