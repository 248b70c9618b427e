//! Write actions on the operator API (approve, reject, delete, create,
//! revoke …): at most one at a time per screen, and the notice each outcome
//! is reported with.

use vstd::prelude::*;
use crate::text::push_str;

verus! {

/// The result of a finished write action, shown to the operator as a notice;
/// after a success the screen's list is reloaded.
#[derive(Debug, Clone, PartialEq, Eq)]
pub struct ActionOutcome {
    /// What happened.
    pub message: String,
    /// Whether the action succeeded.
    pub ok: bool,
}

/// Guards a screen's write actions so that they never overlap.
#[derive(Debug, Clone, Copy, PartialEq, Eq, Structural)]
pub struct ActionGate {
    in_flight: bool,
}

impl ActionGate {
    /// Whether an action is in flight.
    pub closed spec fn busy(self) -> bool {
        self.in_flight
    }

    /// No action in flight.
    pub fn new() -> (r: Self)
        ensures
            !r.busy(),
    {
        ActionGate { in_flight: false }
    }

    /// Whether an action is in flight.
    pub fn is_in_flight(&self) -> (r: bool)
        ensures
            r == self.busy(),
    {
        self.in_flight
    }

    /// Reserve the slot for an action; returns whether it may start, which it
    /// may not while another one runs.
    pub fn begin(&mut self) -> (started: bool)
        ensures
            started == !old(self).busy(),
            final(self).busy(),
    {
        if self.in_flight {
            return false;
        }
        self.in_flight = true;
        true
    }

    /// The action in flight finished (or its task went away).
    pub fn finish(&mut self)
        ensures
            !final(self).busy(),
    {
        self.in_flight = false;
    }
}

/// A write action on the selected message.
#[derive(Debug, Clone, Copy, PartialEq, Eq, Structural)]
pub enum MessageAction {
    /// Approve it.
    Approve,
    /// Reject it.
    Reject,
    /// Submit an operator translation.
    Translate,
    /// Queue a fresh transcription.
    Retranscribe,
    /// Queue a fresh moderation pass.
    Remoderate,
    /// Delete it.
    Delete,
}

/// The notice after a message action succeeded.
pub open spec fn success_text(action: MessageAction) -> Seq<char> {
    match action {
        MessageAction::Approve => "Message approved."@,
        MessageAction::Reject => "Message rejected."@,
        MessageAction::Translate => "Translation submitted."@,
        MessageAction::Retranscribe => "Re-transcription queued."@,
        MessageAction::Remoderate => "Re-moderation queued."@,
        MessageAction::Delete => "Message deleted."@,
    }
}

/// The prefix of the notice after a message action failed.
pub open spec fn failure_prefix(action: MessageAction) -> Seq<char> {
    match action {
        MessageAction::Approve => "Approve failed: "@,
        MessageAction::Reject => "Reject failed: "@,
        MessageAction::Translate => "Translation failed: "@,
        MessageAction::Retranscribe => "Re-transcribe failed: "@,
        MessageAction::Remoderate => "Re-moderate failed: "@,
        MessageAction::Delete => "Delete failed: "@,
    }
}

fn success_notice(action: MessageAction) -> (r: &'static str)
    ensures
        r@ == success_text(action),
{
    match action {
        MessageAction::Approve => "Message approved.",
        MessageAction::Reject => "Message rejected.",
        MessageAction::Translate => "Translation submitted.",
        MessageAction::Retranscribe => "Re-transcription queued.",
        MessageAction::Remoderate => "Re-moderation queued.",
        MessageAction::Delete => "Message deleted.",
    }
}

fn failure_notice(action: MessageAction) -> (r: &'static str)
    ensures
        r@ == failure_prefix(action),
{
    match action {
        MessageAction::Approve => "Approve failed: ",
        MessageAction::Reject => "Reject failed: ",
        MessageAction::Translate => "Translation failed: ",
        MessageAction::Retranscribe => "Re-transcribe failed: ",
        MessageAction::Remoderate => "Re-moderate failed: ",
        MessageAction::Delete => "Delete failed: ",
    }
}

/// The outcome to report for a message action, from what the API answered
/// (`Err` carries the API's error text).
pub fn message_outcome(action: MessageAction, result: Result<(), String>) -> (r: ActionOutcome)
    ensures
        r.ok == result is Ok,
        result is Ok ==> r.message@ == success_text(action),
        result is Err ==> r.message@ == failure_prefix(action) + result->Err_0@,
{
    match result {
        Ok(()) => ActionOutcome { message: success_notice(action).to_owned(), ok: true },
        Err(error) => {
            let mut message = String::new();
            push_str(&mut message, failure_notice(action));
            push_str(&mut message, error.as_str());
            ActionOutcome { message, ok: false }
        },
    }
}

/// What a token action came to.
#[derive(Debug, Clone, PartialEq, Eq)]
pub enum TokenActionResult {
    /// A token named so was created; its secret is now on show.
    Created(String),
    /// The token was revoked.
    Revoked,
    /// Creating failed with this error text.
    CreateFailed(String),
    /// Revoking failed with this error text.
    RevokeFailed(String),
}

/// The notice for a token action's result.
pub open spec fn token_notice_text(result: TokenActionResult) -> Seq<char> {
    match result {
        TokenActionResult::Created(name) => "Token \""@ + name@
            + "\" created — copy the secret now."@,
        TokenActionResult::Revoked => "Token revoked."@,
        TokenActionResult::CreateFailed(error) => "Create failed: "@ + error@,
        TokenActionResult::RevokeFailed(error) => "Revoke failed: "@ + error@,
    }
}

/// The outcome to report for a token action. A success also means the token
/// list must be loaded again.
pub fn token_outcome(result: &TokenActionResult) -> (r: ActionOutcome)
    ensures
        r.ok == (*result is Created || *result is Revoked),
        r.message@ == token_notice_text(*result),
{
    let mut message = String::new();
    match result {
        TokenActionResult::Created(name) => {
            push_str(&mut message, "Token \"");
            push_str(&mut message, name.as_str());
            push_str(&mut message, "\" created — copy the secret now.");
            ActionOutcome { message, ok: true }
        },
        TokenActionResult::Revoked => {
            push_str(&mut message, "Token revoked.");
            ActionOutcome { message, ok: true }
        },
        TokenActionResult::CreateFailed(error) => {
            push_str(&mut message, "Create failed: ");
            push_str(&mut message, error.as_str());
            ActionOutcome { message, ok: false }
        },
        TokenActionResult::RevokeFailed(error) => {
            push_str(&mut message, "Revoke failed: ");
            push_str(&mut message, error.as_str());
            ActionOutcome { message, ok: false }
        },
    }
}

} // verus!
