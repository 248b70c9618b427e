//! What a confirmed modal leads to, and the checks that guard the operator's
//! actions (with the notice given when one is refused).

use vstd::prelude::*;
use crate::auth::Notice;
use crate::keys::KeyEvent;
use crate::modal::{confirm_decision, prompt_decision, prompt_edit, Intent, Modal, ModalDecision};
use crate::text::push_str;
use crate::toast::Level;

verus! {

/// What to do once a modal is confirmed.
#[derive(Debug)]
pub enum FollowUp {
    /// Delete the selected message.
    DeleteMessage,
    /// Submit this translation of the selected message.
    Translate(String),
    /// Archive the selected question.
    ArchiveQuestion,
    /// Ask for the audio file of a new question, in this prompt.
    AskAudioPath(Modal),
    /// Create a question from its prompt text and audio file.
    CreateQuestion {
        /// The prompt text.
        prompt: String,
        /// The path of the FLAC file.
        audio_path: String,
    },
    /// Create an API token with this name.
    CreateToken(String),
    /// Revoke the selected API token.
    RevokeToken,
    /// Simulate dialing what was typed.
    SimulateDial(String),
    /// Set the operator API URL to what was typed.
    SetOperatorUrl(String),
    /// Set the first booth's debug URL to what was typed.
    SetBoothUrl(String),
    /// Set the first booth's debug token to what was typed.
    SetBoothToken(String),
    /// Set the poll interval to what was typed.
    SetPollInterval(String),
}

/// Whether `f` is what confirming `m` leads to.
pub open spec fn follows(m: Modal, f: FollowUp) -> bool {
    let input = m.input_text();
    match m.intent_of() {
        Intent::DeleteMessage => f is DeleteMessage,
        Intent::TranslateMessage => f matches FollowUp::Translate(t) && t@ == input,
        Intent::ArchiveQuestion => f is ArchiveQuestion,
        Intent::NewQuestionPrompt => f matches FollowUp::AskAudioPath(next) && next.input_text()
            == Seq::<char>::empty() && (next.intent_of() is NewQuestionAudio) && next.intent_of()->prompt@ == input && (next matches Modal::Prompt(p)
            && p.title_text() == "New question"@ && p.label_text() == "FLAC file path"@),
        Intent::NewQuestionAudio { prompt } => f matches FollowUp::CreateQuestion {
            prompt: q,
            audio_path,
        } && q@ == prompt@ && audio_path@ == input,
        Intent::NewApiToken => f matches FollowUp::CreateToken(t) && t@ == input,
        Intent::RevokeApiToken => f is RevokeToken,
        Intent::SimulateDial => f matches FollowUp::SimulateDial(t) && t@ == input,
        Intent::EditOperatorBaseUrl => f matches FollowUp::SetOperatorUrl(t) && t@ == input,
        Intent::EditBoothDebugUrl => f matches FollowUp::SetBoothUrl(t) && t@ == input,
        Intent::EditBoothDebugToken => f matches FollowUp::SetBoothToken(t) && t@ == input,
        Intent::EditPollInterval => f matches FollowUp::SetPollInterval(t) && t@ == input,
    }
}

/// What confirming `modal` leads to: the action its intent names, carrying
/// what was typed; the first step of a new question leads to a second prompt
/// for the audio file, which carries the prompt text along.
pub fn follow_up(modal: &Modal) -> (r: FollowUp)
    ensures
        follows(*modal, r),
{
    let input = modal.input().to_owned();
    match modal.intent() {
        Intent::DeleteMessage => FollowUp::DeleteMessage,
        Intent::TranslateMessage => FollowUp::Translate(input),
        Intent::ArchiveQuestion => FollowUp::ArchiveQuestion,
        Intent::NewQuestionPrompt => FollowUp::AskAudioPath(
            Modal::prompt("New question", "FLAC file path", Intent::NewQuestionAudio { prompt: input }),
        ),
        Intent::NewQuestionAudio { prompt } => FollowUp::CreateQuestion { prompt, audio_path: input },
        Intent::NewApiToken => FollowUp::CreateToken(input),
        Intent::RevokeApiToken => FollowUp::RevokeToken,
        Intent::SimulateDial => FollowUp::SimulateDial(input),
        Intent::EditOperatorBaseUrl => FollowUp::SetOperatorUrl(input),
        Intent::EditBoothDebugUrl => FollowUp::SetBoothUrl(input),
        Intent::EditBoothDebugToken => FollowUp::SetBoothToken(input),
        Intent::EditPollInterval => FollowUp::SetPollInterval(input),
    }
}

/// Whether `r` is a notice of `level` saying `text`.
pub open spec fn says(r: Option<Notice>, level: Level, text: Seq<char>) -> bool {
    r matches Some(n) && n.level == level && n.text@ == text
}

fn refuse(level: Level, text: &str) -> (r: Option<Notice>)
    ensures
        says(r, level, text@),
{
    Some(Notice { level, text: text.to_owned() })
}

/// The check before an action on the selected message (approve, reject,
/// transcribe, moderate): `None` when it may go ahead.
pub fn message_action_check(in_flight: bool, has_selection: bool) -> (r: Option<Notice>)
    ensures
        in_flight ==> says(r, Level::Warn, "An action is already in progress."@),
        !in_flight && !has_selection ==> says(r, Level::Info, "Select a message first."@),
        !in_flight && has_selection ==> r is None,
{
    if in_flight {
        refuse(Level::Warn, "An action is already in progress.")
    } else if !has_selection {
        refuse(Level::Info, "Select a message first.")
    } else {
        None
    }
}

/// The check before managing questions: only administrators may, and while
/// the role is not known yet the operator is asked to wait.
pub fn question_admin_check(is_admin: bool, is_known: bool) -> (r: Option<Notice>)
    ensures
        is_admin ==> r is None,
        !is_admin && is_known ==> says(
            r,
            Level::Warn,
            "Managing questions requires an administrator account."@,
        ),
        !is_admin && !is_known ==> says(
            r,
            Level::Info,
            "Checking your permissions… try again in a moment."@,
        ),
{
    if is_admin {
        None
    } else if is_known {
        refuse(Level::Warn, "Managing questions requires an administrator account.")
    } else {
        refuse(Level::Info, "Checking your permissions… try again in a moment.")
    }
}

/// The check before an action on the selected question: the administrator
/// check, then no overlapping action, then a selection.
pub fn question_action_check(is_admin: bool, is_known: bool, in_flight: bool, has_selection: bool) -> (r:
    Option<Notice>)
    ensures
        !is_admin && is_known ==> says(
            r,
            Level::Warn,
            "Managing questions requires an administrator account."@,
        ),
        !is_admin && !is_known ==> says(
            r,
            Level::Info,
            "Checking your permissions… try again in a moment."@,
        ),
        is_admin && in_flight ==> says(r, Level::Warn, "An action is already in progress."@),
        is_admin && !in_flight && !has_selection ==> says(
            r,
            Level::Info,
            "Select a question first."@,
        ),
        is_admin && !in_flight && has_selection ==> r is None,
{
    let admin = question_admin_check(is_admin, is_known);
    if admin.is_some() {
        return admin;
    }
    if in_flight {
        refuse(Level::Warn, "An action is already in progress.")
    } else if !has_selection {
        refuse(Level::Info, "Select a question first.")
    } else {
        None
    }
}

/// The check before a token action: no overlapping action, and for a revoke
/// a selected token.
pub fn token_action_check(in_flight: bool, needs_selection: bool, has_selection: bool) -> (r: Option<
    Notice,
>)
    ensures
        in_flight ==> says(r, Level::Warn, "An action is already in progress."@),
        !in_flight && needs_selection && !has_selection ==> says(
            r,
            Level::Info,
            "Select a token first."@,
        ),
        !in_flight && (!needs_selection || has_selection) ==> r is None,
{
    if in_flight {
        refuse(Level::Warn, "An action is already in progress.")
    } else if needs_selection && !has_selection {
        refuse(Level::Info, "Select a token first.")
    } else {
        None
    }
}

/// The check before a booth simulate action: a booth must be configured, it
/// must allow the simulate controls, and no other simulate action may run.
pub fn simulate_check(configured: bool, controls_allowed: bool, in_flight: bool) -> (r: Option<Notice>)
    ensures
        !configured ==> says(r, Level::Info, "No booth is configured."@),
        configured && !controls_allowed ==> says(
            r,
            Level::Info,
            "Simulate controls are disabled on this booth."@,
        ),
        configured && controls_allowed && in_flight ==> says(
            r,
            Level::Warn,
            "A simulate action is already in progress."@,
        ),
        configured && controls_allowed && !in_flight ==> r is None,
{
    if !configured {
        refuse(Level::Info, "No booth is configured.")
    } else if !controls_allowed {
        refuse(Level::Info, "Simulate controls are disabled on this booth.")
    } else if in_flight {
        refuse(Level::Warn, "A simulate action is already in progress.")
    } else {
        None
    }
}

/// The check before playing the selected audio: output must be available and
/// no fetch already loading.
pub fn play_check(available: bool, reason: Option<&str>, loading: bool) -> (r: Option<Notice>)
    ensures
        !available ==> (r matches Some(n) && n.level == Level::Warn && n.text@ == "Cannot play audio: "@
            + match reason {
            Some(t) => t@,
            None => "audio output is unavailable"@,
        }),
        available && loading ==> says(r, Level::Info, "Audio is already loading."@),
        available && !loading ==> r is None,
{
    if !available {
        let mut text = String::new();
        push_str(&mut text, "Cannot play audio: ");
        match reason {
            Some(t) => push_str(&mut text, t),
            None => push_str(&mut text, "audio output is unavailable"),
        }
        Some(Notice { level: Level::Warn, text })
    } else if loading {
        refuse(Level::Info, "Audio is already loading.")
    } else {
        None
    }
}


/// What a key press does to an open modal.
#[derive(Debug)]
pub enum ModalStep {
    /// The modal stays open, as it now is.
    Keep(Modal),
    /// The modal closes without acting.
    Close,
    /// The modal closes and this follows.
    Act(FollowUp),
}

/// What `modal` decides about `key`.
pub open spec fn decided(modal: Modal, key: KeyEvent) -> ModalDecision {
    match modal {
        Modal::Confirm(_) => confirm_decision(key),
        Modal::Prompt(m) => prompt_decision(m.text(), key),
    }
}

/// Whether `after` is `before` once `key` has reached it: a confirmation is
/// unchanged; a prompt keeps its title, label and intent and has its input
/// edited by the key.
pub open spec fn keyed(before: Modal, after: Modal, key: KeyEvent) -> bool {
    match before {
        Modal::Confirm(_) => after == before,
        Modal::Prompt(m) => after matches Modal::Prompt(n) && n.title_text() == m.title_text()
            && n.label_text() == m.label_text() && n.action() == m.action() && n.text()
            == prompt_edit(m.text(), key),
    }
}

/// A key press on an open modal: the modal takes the key, then stays open
/// (with the key's edit), closes, or closes and hands on what its intent
/// calls for.
pub fn modal_step(modal: Modal, key: KeyEvent) -> (r: ModalStep)
    ensures
        match r {
            ModalStep::Keep(n) => decided(modal, key) == ModalDecision::Stay && keyed(modal, n, key),
            ModalStep::Close => decided(modal, key) == ModalDecision::Cancel,
            ModalStep::Act(f) => decided(modal, key) == ModalDecision::Confirm && exists|n: Modal|
                keyed(modal, n, key) && #[trigger] follows(n, f),
        },
{
    let mut m = modal;
    let decision = m.on_key(key);
    match decision {
        ModalDecision::Stay => ModalStep::Keep(m),
        ModalDecision::Cancel => ModalStep::Close,
        ModalDecision::Confirm => {
            let f = follow_up(&m);
            assert(keyed(modal, m, key) && follows(m, f));
            ModalStep::Act(f)
        },
    }
}

} // verus!
