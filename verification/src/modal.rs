//! Blocking modal overlays: yes/no confirmations and single-line text prompts.
//!
//! While a [`Modal`] is active the app routes every key press to it (see
//! [`Modal::on_key`]) so the underlying screen cannot be navigated until the
//! operator confirms or cancels. Confirming yields the modal's [`Intent`],
//! which the app turns into an operator action.

use vstd::prelude::*;

use crate::keys::{has_control_or_alt, KeyCode, KeyEvent, KeyModifiers};
use crate::text::{all_white, chars_of, lemma_trimmed_empty, pop_char, push_char, trim_chars};

verus! {

/// The operator action a modal performs when confirmed.
#[derive(Debug, Clone, PartialEq, Eq)]
pub enum Intent {
    /// Permanently delete the selected message.
    DeleteMessage,
    /// Submit the prompt's text as a translation for the selected message.
    TranslateMessage,
    /// Archive (retire) the selected question.
    ArchiveQuestion,
    /// Collect the prompt text for a new question (first create step).
    NewQuestionPrompt,
    /// Collect the FLAC file path for a new question and create it, carrying
    /// the prompt text entered in the first step.
    NewQuestionAudio {
        /// The prompt text gathered by the preceding `NewQuestionPrompt` step.
        prompt: String,
    },
    /// Create an API token named by the prompt text.
    NewApiToken,
    /// Revoke the selected API token.
    RevokeApiToken,
    /// Simulate dialing the rotary digit entered in the prompt.
    SimulateDial,
    /// Replace the operator API base URL.
    EditOperatorBaseUrl,
    /// Replace the first booth's debug-server URL.
    EditBoothDebugUrl,
    /// Replace the first booth's debug bearer token.
    EditBoothDebugToken,
    /// Replace the poll-interval preference.
    EditPollInterval,
}

impl Intent {
    /// An equal copy of this intent.
    pub fn copied(&self) -> (r: Intent)
        ensures
            r == *self,
    {
        match self {
            Intent::DeleteMessage => Intent::DeleteMessage,
            Intent::TranslateMessage => Intent::TranslateMessage,
            Intent::ArchiveQuestion => Intent::ArchiveQuestion,
            Intent::NewQuestionPrompt => Intent::NewQuestionPrompt,
            Intent::NewQuestionAudio { prompt } => Intent::NewQuestionAudio { prompt: prompt.clone() },
            Intent::NewApiToken => Intent::NewApiToken,
            Intent::RevokeApiToken => Intent::RevokeApiToken,
            Intent::SimulateDial => Intent::SimulateDial,
            Intent::EditOperatorBaseUrl => Intent::EditOperatorBaseUrl,
            Intent::EditBoothDebugUrl => Intent::EditBoothDebugUrl,
            Intent::EditBoothDebugToken => Intent::EditBoothDebugToken,
            Intent::EditPollInterval => Intent::EditPollInterval,
        }
    }
}

/// What the app should do after routing a key to the active modal.
#[derive(Debug, Clone, Copy, PartialEq, Eq, Structural)]
pub enum ModalDecision {
    /// Keep the modal open and await more input.
    Stay,
    /// Close the modal without acting.
    Cancel,
    /// Close the modal and perform its [`Intent`].
    Confirm,
}

/// A modal overlay that captures key input until dismissed.
#[derive(Debug, Clone)]
pub enum Modal {
    /// A yes/no confirmation of a (typically destructive) action.
    Confirm(ConfirmModal),
    /// A single-line text prompt whose contents feed the action.
    Prompt(PromptModal),
}

/// A yes/no confirmation modal.
#[derive(Debug, Clone)]
pub struct ConfirmModal {
    /// Title shown in the modal's border.
    pub title: String,
    /// Body text describing what will happen on confirmation.
    pub body: String,
    /// The action to perform when confirmed.
    pub intent: Intent,
}

/// A single-line text-entry modal.
#[derive(Debug, Clone)]
pub struct PromptModal {
    /// Title shown in the modal's border.
    pub title: String,
    /// Label shown above the input field.
    pub label: String,
    /// The action to perform with the entered text when submitted.
    pub intent: Intent,
    input: String,
}

/// How a confirmation modal answers a key: Enter or `y` confirms, Esc or `n`
/// cancels (either case), anything else keeps it open.
pub open spec fn confirm_decision(key: KeyEvent) -> ModalDecision {
    match key.code {
        KeyCode::Enter => ModalDecision::Confirm,
        KeyCode::Esc => ModalDecision::Cancel,
        KeyCode::Char(c) => if c == 'y' || c == 'Y' {
            ModalDecision::Confirm
        } else if c == 'n' || c == 'N' {
            ModalDecision::Cancel
        } else {
            ModalDecision::Stay
        },
        _ => ModalDecision::Stay,
    }
}

/// How a prompt holding `input` answers a key: Esc cancels, Enter submits
/// unless the input is empty or whitespace only, anything else keeps it open.
pub open spec fn prompt_decision(input: Seq<char>, key: KeyEvent) -> ModalDecision {
    match key.code {
        KeyCode::Esc => ModalDecision::Cancel,
        KeyCode::Enter => if all_white(input) {
            ModalDecision::Stay
        } else {
            ModalDecision::Confirm
        },
        _ => ModalDecision::Stay,
    }
}

/// The prompt input after a key: Backspace drops the last character, a
/// character typed without control or alt is appended, anything else leaves
/// it unchanged.
pub open spec fn prompt_edit(input: Seq<char>, key: KeyEvent) -> Seq<char> {
    match key.code {
        KeyCode::Backspace => if input.len() > 0 {
            input.drop_last()
        } else {
            input
        },
        KeyCode::Char(c) => if !has_control_or_alt(key.modifiers) {
            input.push(c)
        } else {
            input
        },
        _ => input,
    }
}

impl PromptModal {
    /// The text entered so far.
    pub closed spec fn text(self) -> Seq<char> {
        self.input@
    }

    /// The title shown in the border.
    pub closed spec fn title_text(self) -> Seq<char> {
        self.title@
    }

    /// The label shown above the input field.
    pub closed spec fn label_text(self) -> Seq<char> {
        self.label@
    }

    /// The action performed with the entered text.
    pub closed spec fn action(self) -> Intent {
        self.intent
    }

    /// The title shown in the border.
    pub fn title_str(&self) -> (r: &str)
        ensures
            r@ == self.title_text(),
    {
        self.title.as_str()
    }

    /// The label shown above the input field.
    pub fn label_str(&self) -> (r: &str)
        ensures
            r@ == self.label_text(),
    {
        self.label.as_str()
    }

    /// Key handling for a text prompt: edit the buffer, submit, or cancel.
    fn on_key(&mut self, key: KeyEvent) -> (r: ModalDecision)
        ensures
            r == prompt_decision(old(self).text(), key),
            final(self).text() == prompt_edit(old(self).text(), key),
            final(self).title_text() == old(self).title_text(),
            final(self).label_text() == old(self).label_text(),
            final(self).action() == old(self).action(),
    {
        match key.code {
            KeyCode::Esc => ModalDecision::Cancel,
            KeyCode::Enter => {
                let cs = chars_of(self.input.as_str());
                let trimmed = trim_chars(&cs);
                proof {
                    lemma_trimmed_empty(cs@);
                }
                if trimmed.len() == 0 {
                    ModalDecision::Stay
                } else {
                    ModalDecision::Confirm
                }
            },
            KeyCode::Backspace => {
                pop_char(&mut self.input);
                ModalDecision::Stay
            },
            KeyCode::Char(c) => {
                assert(2u8 | 4u8 == 6u8) by (bit_vector);
                if !key.modifiers.intersects(KeyModifiers::control().union(KeyModifiers::alt())) {
                    push_char(&mut self.input, c);
                }
                ModalDecision::Stay
            },
            _ => ModalDecision::Stay,
        }
    }
}

impl Modal {
    /// The text entered into a prompt (empty for a confirmation).
    pub open spec fn input_text(self) -> Seq<char> {
        match self {
            Modal::Confirm(_) => Seq::empty(),
            Modal::Prompt(m) => m.text(),
        }
    }

    /// The action this modal performs when confirmed.
    pub open spec fn intent_of(self) -> Intent {
        match self {
            Modal::Confirm(m) => m.intent,
            Modal::Prompt(m) => m.action(),
        }
    }

    /// Build a confirmation modal.
    pub fn confirm(title: &str, body: &str, intent: Intent) -> (r: Self)
        ensures
            r matches Modal::Confirm(m) && m.title@ == title@ && m.body@ == body@ && m.intent
                == intent,
    {
        Self::Confirm(ConfirmModal { title: title.to_owned(), body: body.to_owned(), intent })
    }

    /// Build an empty single-line prompt modal.
    pub fn prompt(title: &str, label: &str, intent: Intent) -> (r: Self)
        ensures
            r matches Modal::Prompt(m) && m.title_text() == title@ && m.label_text() == label@
                && m.action() == intent,
            r.input_text() == Seq::<char>::empty(),
    {
        Self::Prompt(
            PromptModal {
                title: title.to_owned(),
                label: label.to_owned(),
                intent,
                input: String::new(),
            },
        )
    }

    /// Build a single-line prompt modal whose input starts as `input`, for
    /// editing an existing value.
    pub fn prompt_with_input(title: &str, label: &str, intent: Intent, input: String) -> (r: Self)
        ensures
            r matches Modal::Prompt(m) && m.title_text() == title@ && m.label_text() == label@
                && m.action() == intent,
            r.input_text() == input@,
    {
        Self::Prompt(PromptModal { title: title.to_owned(), label: label.to_owned(), intent, input })
    }

    /// The action this modal performs when confirmed.
    pub fn intent(&self) -> (r: Intent)
        ensures
            r == self.intent_of(),
    {
        match self {
            Self::Confirm(modal) => modal.intent.copied(),
            Self::Prompt(modal) => modal.intent.copied(),
        }
    }

    /// The text entered into a prompt (empty for a confirmation).
    pub fn input(&self) -> (r: &str)
        ensures
            r@ == self.input_text(),
    {
        match self {
            Self::Confirm(_) => {
                proof {
                    reveal_strlit("");
                }
                ""
            },
            Self::Prompt(modal) => modal.input.as_str(),
        }
    }

    /// Route a key press to the modal and report what the app should do.
    pub fn on_key(&mut self, key: KeyEvent) -> (r: ModalDecision)
        ensures
            match *old(self) {
                Modal::Confirm(_) => *final(self) == *old(self) && r == confirm_decision(key),
                Modal::Prompt(m) => r == prompt_decision(m.text(), key) && (*final(self) matches Modal::Prompt(n)
                    && n.title_text() == m.title_text() && n.label_text() == m.label_text()
                    && n.action() == m.action() && n.text() == prompt_edit(m.text(), key)),
            },
    {
        match self {
            Self::Confirm(_) => Self::confirm_key(key),
            Self::Prompt(modal) => modal.on_key(key),
        }
    }

    /// Key handling for a confirmation modal.
    fn confirm_key(key: KeyEvent) -> (r: ModalDecision)
        ensures
            r == confirm_decision(key),
    {
        match key.code {
            KeyCode::Enter => ModalDecision::Confirm,
            KeyCode::Char('y') | KeyCode::Char('Y') => ModalDecision::Confirm,
            KeyCode::Esc => ModalDecision::Cancel,
            KeyCode::Char('n') | KeyCode::Char('N') => ModalDecision::Cancel,
            _ => ModalDecision::Stay,
        }
    }
}

} // verus!
