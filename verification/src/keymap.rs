//! What a key press asks the application to do.
//!
//! The decision depends only on the key and on a few facts about the
//! interface (the focused screen, open overlays, a revealed secret, a login in
//! progress); carrying the action out is left to the caller.

use vstd::prelude::*;
use crate::keys::{KeyCode, KeyEvent};
use crate::screens::{nav_char, Screen};

verus! {

/// The facts about the interface that decide what a key does.
#[derive(Debug, Clone, Copy, PartialEq, Eq, Structural)]
pub struct KeyContext {
    /// The focused screen.
    pub screen: Screen,
    /// Whether a modal is open (it captures every key but Ctrl-C).
    pub modal_open: bool,
    /// Whether the screen palette is shown (it captures the keys too).
    pub help_open: bool,
    /// Whether a newly created API token secret is on show.
    pub secret_revealed: bool,
    /// Whether a login is under way.
    pub login_in_progress: bool,
}

/// What the application should do about a key press.
#[derive(Debug, Clone, Copy, PartialEq, Eq, Structural)]
pub enum KeyAction {
    /// Leave the application.
    Quit,
    /// Hand the key to the open modal.
    ModalKey,
    /// Show the screen palette.
    ShowHelp,
    /// Close the screen palette.
    CloseHelp,
    /// Hide the revealed API token secret.
    DismissSecret,
    /// Cancel the login under way.
    CancelLogin,
    /// Go to the next screen the operator may open.
    NextScreen,
    /// Go to the previous screen the operator may open.
    PrevScreen,
    /// Edit the operator API URL.
    EditOperatorUrl,
    /// Edit the first booth's debug URL.
    EditBoothUrl,
    /// Replace the first booth's debug token.
    EditBoothToken,
    /// Edit the poll interval.
    EditPollInterval,
    /// Move the selection down.
    SelectNext,
    /// Move the selection up.
    SelectPrev,
    /// Reload the focused screen's data.
    Refresh,
    /// Cycle the statistics window.
    CycleStatsWindow,
    /// Start or stop following the live event tail.
    ToggleEventsFollow,
    /// Approve the selected message.
    ApproveMessage,
    /// Reject the selected message.
    RejectMessage,
    /// Transcribe the selected message again.
    RetranscribeMessage,
    /// Moderate the selected message again.
    RemoderateMessage,
    /// Ask for a translation of the selected message.
    TranslateMessage,
    /// Ask to delete the selected message.
    DeleteMessage,
    /// Activate the selected question.
    ActivateQuestion,
    /// Deactivate the selected question.
    DeactivateQuestion,
    /// Ask to archive the selected question.
    ArchiveQuestion,
    /// Start creating a question.
    NewQuestion,
    /// Play the selected item's audio.
    PlayAudio,
    /// Pause or resume playback.
    TogglePlayback,
    /// Stop playback.
    StopPlayback,
    /// Start creating an API token.
    NewToken,
    /// Ask to revoke the selected API token.
    RevokeToken,
    /// Load the selected API token's usage.
    TokenUsage,
    /// Cycle the booth log level.
    CycleLogLevel,
    /// Start or stop live booth telemetry.
    ToggleLive,
    /// Simulate lifting the handset.
    SimulateHookOff,
    /// Simulate hanging up.
    SimulateHookOn,
    /// Simulate the end of playback.
    SimulatePlaybackEnded,
    /// Ask for a digit to dial.
    DialPrompt,
    /// Start a login.
    Login,
    /// Sign out.
    SignOut,
    /// Switch to the next colour theme.
    CycleTheme,
    /// Jump to the screen with this palette key.
    JumpTo(char),
    /// Jump to the screen with this palette key and close the palette.
    JumpFromPalette(char),
    /// Nothing.
    Ignore,
}

/// Whether `c` is an ASCII digit.
pub open spec fn is_digit(c: char) -> bool {
    '0' <= c <= '9'
}

/// Whether some screen has `c` as its palette key.
pub open spec fn is_palette_key(c: char) -> bool {
    exists|s: Screen| nav_char(s) == c
}

/// What a key does while the screen palette is shown.
pub open spec fn help_action(code: KeyCode) -> KeyAction {
    match code {
        KeyCode::Esc => KeyAction::CloseHelp,
        KeyCode::Char(c) if c == '?' || c == 'q' => KeyAction::CloseHelp,
        KeyCode::Tab | KeyCode::Right => KeyAction::NextScreen,
        KeyCode::BackTab | KeyCode::Left => KeyAction::PrevScreen,
        KeyCode::Char(c) if is_palette_key(c) => KeyAction::JumpFromPalette(c),
        KeyCode::Char(c) if c == 'l' || c == 'L' => KeyAction::Login,
        KeyCode::Char(c) if c == 'o' || c == 'O' => KeyAction::SignOut,
        _ => KeyAction::Ignore,
    }
}

/// What Escape does on the main interface.
pub open spec fn escape_action(ctx: KeyContext) -> KeyAction {
    if ctx.screen == Screen::Tokens && ctx.secret_revealed {
        KeyAction::DismissSecret
    } else if ctx.login_in_progress {
        KeyAction::CancelLogin
    } else {
        KeyAction::Quit
    }
}

/// What a letter key does on a given screen, before the bindings shared by
/// every screen are consulted.
pub open spec fn screen_letter_action(screen: Screen, c: char) -> KeyAction {
    match screen {
        Screen::Settings => if c == 'u' || c == 'U' {
            KeyAction::EditOperatorUrl
        } else if c == 'b' || c == 'B' {
            KeyAction::EditBoothUrl
        } else if c == 'k' || c == 'K' {
            KeyAction::EditBoothToken
        } else if c == 'p' || c == 'P' {
            KeyAction::EditPollInterval
        } else {
            KeyAction::Ignore
        },
        _ => KeyAction::Ignore,
    }
}

/// What a character key does on the main interface, after the palette,
/// Settings and movement keys have been ruled out.
pub open spec fn char_action(screen: Screen, c: char) -> KeyAction {
    let media = screen == Screen::Messages || screen == Screen::Questions;
    if c == 'r' || c == 'R' {
        KeyAction::Refresh
    } else if (c == 'w' || c == 'W') && screen == Screen::Stats {
        KeyAction::CycleStatsWindow
    } else if (c == 'f' || c == 'F') && screen == Screen::Events {
        KeyAction::ToggleEventsFollow
    } else if (c == 'a' || c == 'A') && screen == Screen::Messages {
        KeyAction::ApproveMessage
    } else if (c == 'x' || c == 'X') && screen == Screen::Messages {
        KeyAction::RejectMessage
    } else if (c == 't' || c == 'T') && screen == Screen::Messages {
        KeyAction::RetranscribeMessage
    } else if (c == 'm' || c == 'M') && screen == Screen::Messages {
        KeyAction::RemoderateMessage
    } else if (c == 'g' || c == 'G') && screen == Screen::Messages {
        KeyAction::TranslateMessage
    } else if (c == 'd' || c == 'D') && screen == Screen::Messages {
        KeyAction::DeleteMessage
    } else if (c == 'a' || c == 'A') && screen == Screen::Questions {
        KeyAction::ActivateQuestion
    } else if (c == 'e' || c == 'E') && screen == Screen::Questions {
        KeyAction::DeactivateQuestion
    } else if (c == 'd' || c == 'D') && screen == Screen::Questions {
        KeyAction::ArchiveQuestion
    } else if (c == 'n' || c == 'N') && screen == Screen::Questions {
        KeyAction::NewQuestion
    } else if (c == 'p' || c == 'P') && media {
        KeyAction::PlayAudio
    } else if c == ' ' && media {
        KeyAction::TogglePlayback
    } else if (c == 's' || c == 'S') && media {
        KeyAction::StopPlayback
    } else if (c == 'n' || c == 'N') && screen == Screen::Tokens {
        KeyAction::NewToken
    } else if (c == 'd' || c == 'D') && screen == Screen::Tokens {
        KeyAction::RevokeToken
    } else if (c == 'u' || c == 'U') && screen == Screen::Tokens {
        KeyAction::TokenUsage
    } else if (c == 'v' || c == 'V') && screen == Screen::Debug {
        KeyAction::CycleLogLevel
    } else if (c == 'f' || c == 'F') && screen == Screen::Debug {
        KeyAction::ToggleLive
    } else if (c == 'o' || c == 'O') && screen == Screen::Debug {
        KeyAction::SimulateHookOff
    } else if (c == 'h' || c == 'H') && screen == Screen::Debug {
        KeyAction::SimulateHookOn
    } else if (c == 'p' || c == 'P') && screen == Screen::Debug {
        KeyAction::SimulatePlaybackEnded
    } else if (c == 'd' || c == 'D') && screen == Screen::Debug {
        KeyAction::DialPrompt
    } else if c == 'l' || c == 'L' {
        KeyAction::Login
    } else if (c == 'o' || c == 'O') && screen == Screen::Settings {
        KeyAction::SignOut
    } else if (c == 't' || c == 'T') && screen == Screen::Settings {
        KeyAction::CycleTheme
    } else if is_digit(c) {
        KeyAction::JumpTo(c)
    } else {
        KeyAction::Ignore
    }
}

/// What a key does on the main interface, with no overlay open.
pub open spec fn main_action(code: KeyCode, ctx: KeyContext) -> KeyAction {
    match code {
        KeyCode::Char(c) if c == 'q' => KeyAction::Quit,
        KeyCode::Char(c) if c == '?' => KeyAction::ShowHelp,
        KeyCode::Char(c) if (c == 'g' || c == 'G') && ctx.screen != Screen::Messages =>
            KeyAction::ShowHelp,
        KeyCode::Esc => escape_action(ctx),
        KeyCode::Tab | KeyCode::Right => KeyAction::NextScreen,
        KeyCode::BackTab | KeyCode::Left => KeyAction::PrevScreen,
        KeyCode::Char(c) if screen_letter_action(ctx.screen, c) != KeyAction::Ignore =>
            screen_letter_action(ctx.screen, c),
        KeyCode::Down => KeyAction::SelectNext,
        KeyCode::Char(c) if c == 'j' => KeyAction::SelectNext,
        KeyCode::Up => KeyAction::SelectPrev,
        KeyCode::Char(c) if c == 'k' => KeyAction::SelectPrev,
        KeyCode::Char(c) => char_action(ctx.screen, c),
        _ => KeyAction::Ignore,
    }
}

/// Whether the key press is Ctrl-C.
pub open spec fn is_interrupt(key: KeyEvent) -> bool {
    key.modifiers.bits & 2u8 == 2u8 && key.code == KeyCode::Char('c')
}

/// What a key press does.
pub open spec fn action_for(key: KeyEvent, ctx: KeyContext) -> KeyAction {
    if is_interrupt(key) {
        KeyAction::Quit
    } else if ctx.modal_open {
        KeyAction::ModalKey
    } else if ctx.help_open {
        help_action(key.code)
    } else {
        main_action(key.code, ctx)
    }
}

fn letter(c: char, lower: char, upper: char) -> (r: bool)
    ensures
        r == (c == lower || c == upper),
{
    c == lower || c == upper
}

fn settings_action(c: char) -> (r: KeyAction)
    ensures
        r == screen_letter_action(Screen::Settings, c),
{
    if letter(c, 'u', 'U') {
        KeyAction::EditOperatorUrl
    } else if letter(c, 'b', 'B') {
        KeyAction::EditBoothUrl
    } else if letter(c, 'k', 'K') {
        KeyAction::EditBoothToken
    } else if letter(c, 'p', 'P') {
        KeyAction::EditPollInterval
    } else {
        KeyAction::Ignore
    }
}

fn character_action(screen: Screen, c: char) -> (r: KeyAction)
    ensures
        r == char_action(screen, c),
{
    let media = screen == Screen::Messages || screen == Screen::Questions;
    if letter(c, 'r', 'R') {
        KeyAction::Refresh
    } else if letter(c, 'w', 'W') && screen == Screen::Stats {
        KeyAction::CycleStatsWindow
    } else if letter(c, 'f', 'F') && screen == Screen::Events {
        KeyAction::ToggleEventsFollow
    } else if letter(c, 'a', 'A') && screen == Screen::Messages {
        KeyAction::ApproveMessage
    } else if letter(c, 'x', 'X') && screen == Screen::Messages {
        KeyAction::RejectMessage
    } else if letter(c, 't', 'T') && screen == Screen::Messages {
        KeyAction::RetranscribeMessage
    } else if letter(c, 'm', 'M') && screen == Screen::Messages {
        KeyAction::RemoderateMessage
    } else if letter(c, 'g', 'G') && screen == Screen::Messages {
        KeyAction::TranslateMessage
    } else if letter(c, 'd', 'D') && screen == Screen::Messages {
        KeyAction::DeleteMessage
    } else if letter(c, 'a', 'A') && screen == Screen::Questions {
        KeyAction::ActivateQuestion
    } else if letter(c, 'e', 'E') && screen == Screen::Questions {
        KeyAction::DeactivateQuestion
    } else if letter(c, 'd', 'D') && screen == Screen::Questions {
        KeyAction::ArchiveQuestion
    } else if letter(c, 'n', 'N') && screen == Screen::Questions {
        KeyAction::NewQuestion
    } else if letter(c, 'p', 'P') && media {
        KeyAction::PlayAudio
    } else if c == ' ' && media {
        KeyAction::TogglePlayback
    } else if letter(c, 's', 'S') && media {
        KeyAction::StopPlayback
    } else if letter(c, 'n', 'N') && screen == Screen::Tokens {
        KeyAction::NewToken
    } else if letter(c, 'd', 'D') && screen == Screen::Tokens {
        KeyAction::RevokeToken
    } else if letter(c, 'u', 'U') && screen == Screen::Tokens {
        KeyAction::TokenUsage
    } else if letter(c, 'v', 'V') && screen == Screen::Debug {
        KeyAction::CycleLogLevel
    } else if letter(c, 'f', 'F') && screen == Screen::Debug {
        KeyAction::ToggleLive
    } else if letter(c, 'o', 'O') && screen == Screen::Debug {
        KeyAction::SimulateHookOff
    } else if letter(c, 'h', 'H') && screen == Screen::Debug {
        KeyAction::SimulateHookOn
    } else if letter(c, 'p', 'P') && screen == Screen::Debug {
        KeyAction::SimulatePlaybackEnded
    } else if letter(c, 'd', 'D') && screen == Screen::Debug {
        KeyAction::DialPrompt
    } else if letter(c, 'l', 'L') {
        KeyAction::Login
    } else if letter(c, 'o', 'O') && screen == Screen::Settings {
        KeyAction::SignOut
    } else if letter(c, 't', 'T') && screen == Screen::Settings {
        KeyAction::CycleTheme
    } else if '0' <= c && c <= '9' {
        KeyAction::JumpTo(c)
    } else {
        KeyAction::Ignore
    }
}

fn palette_action(code: KeyCode) -> (r: KeyAction)
    ensures
        r == help_action(code),
{
    match code {
        KeyCode::Esc => KeyAction::CloseHelp,
        KeyCode::Tab | KeyCode::Right => KeyAction::NextScreen,
        KeyCode::BackTab | KeyCode::Left => KeyAction::PrevScreen,
        KeyCode::Char(c) => {
            if c == '?' || c == 'q' {
                KeyAction::CloseHelp
            } else if Screen::from_nav_key(c).is_some() {
                KeyAction::JumpFromPalette(c)
            } else if letter(c, 'l', 'L') {
                KeyAction::Login
            } else if letter(c, 'o', 'O') {
                KeyAction::SignOut
            } else {
                KeyAction::Ignore
            }
        },
        _ => KeyAction::Ignore,
    }
}

fn interface_action(code: KeyCode, ctx: KeyContext) -> (r: KeyAction)
    ensures
        r == main_action(code, ctx),
{
    match code {
        KeyCode::Esc => {
            if ctx.screen == Screen::Tokens && ctx.secret_revealed {
                KeyAction::DismissSecret
            } else if ctx.login_in_progress {
                KeyAction::CancelLogin
            } else {
                KeyAction::Quit
            }
        },
        KeyCode::Tab | KeyCode::Right => KeyAction::NextScreen,
        KeyCode::BackTab | KeyCode::Left => KeyAction::PrevScreen,
        KeyCode::Down => KeyAction::SelectNext,
        KeyCode::Up => KeyAction::SelectPrev,
        KeyCode::Char(c) => {
            if c == 'q' {
                KeyAction::Quit
            } else if c == '?' {
                KeyAction::ShowHelp
            } else if letter(c, 'g', 'G') && ctx.screen != Screen::Messages {
                KeyAction::ShowHelp
            } else {
                let on_screen = if ctx.screen == Screen::Settings {
                    settings_action(c)
                } else {
                    KeyAction::Ignore
                };
                if on_screen != KeyAction::Ignore {
                    on_screen
                } else if c == 'j' {
                    KeyAction::SelectNext
                } else if c == 'k' {
                    KeyAction::SelectPrev
                } else {
                    character_action(ctx.screen, c)
                }
            }
        },
        _ => KeyAction::Ignore,
    }
}

/// What the application should do about `key`, given the state of the
/// interface. Ctrl-C always quits; an open modal, then the screen palette,
/// capture every other key; otherwise the focused screen's bindings apply
/// before the bindings shared by every screen.
pub fn route_key(key: KeyEvent, ctx: KeyContext) -> (r: KeyAction)
    ensures
        r == action_for(key, ctx),
{
    let interrupt = key.modifiers.contains(crate::keys::KeyModifiers::control())
        && key.code == KeyCode::Char('c');
    if interrupt {
        KeyAction::Quit
    } else if ctx.modal_open {
        KeyAction::ModalKey
    } else if ctx.help_open {
        palette_action(key.code)
    } else {
        interface_action(key.code, ctx)
    }
}


/// Ctrl-C always quits; an open modal takes every other key; with no modal
/// the screen palette takes them; and the palette's own keys never reach the
/// screen underneath.
pub proof fn lemma_overlays_capture_keys(key: KeyEvent, ctx: KeyContext)
    ensures
        is_interrupt(key) ==> action_for(key, ctx) == KeyAction::Quit,
        !is_interrupt(key) && ctx.modal_open ==> action_for(key, ctx) == KeyAction::ModalKey,
        !is_interrupt(key) && !ctx.modal_open && ctx.help_open ==> match action_for(key, ctx) {
            KeyAction::CloseHelp | KeyAction::NextScreen | KeyAction::PrevScreen
            | KeyAction::JumpFromPalette(_) | KeyAction::Login | KeyAction::SignOut
            | KeyAction::Ignore => true,
            _ => false,
        },
{
}


/// On the Messages screen with no modal or palette open, `a` (either case)
/// approves the selected message and `x` (either case) rejects it, whatever
/// the modifiers, the revealed secret or a login under way.
pub proof fn lemma_message_moderation_keys(key: KeyEvent, ctx: KeyContext)
    requires
        ctx.screen == Screen::Messages,
        !ctx.modal_open,
        !ctx.help_open,
    ensures
        key.code == KeyCode::Char('a') || key.code == KeyCode::Char('A') ==> action_for(key, ctx)
            == KeyAction::ApproveMessage,
        key.code == KeyCode::Char('x') || key.code == KeyCode::Char('X') ==> action_for(key, ctx)
            == KeyAction::RejectMessage,
{
}


/// Whether `code` is the letter `lower` in either case.
pub open spec fn is_letter(code: KeyCode, lower: char, upper: char) -> bool {
    code == KeyCode::Char(lower) || code == KeyCode::Char(upper)
}

/// With no modal or palette open, each screen's letter keys do what its
/// bindings say, in either case: on Messages `x` rejects, `t` re-transcribes,
/// `m` re-moderates, `g` translates and `d` deletes; on Questions `a`
/// activates, `e` deactivates, `d` archives and `n` starts a new one; on both,
/// `p` plays, space pauses and `s` stops; on API Tokens `n` creates, `d`
/// revokes and `u` shows usage; on Debug `v` cycles the log level, `f`
/// toggles live telemetry, `o`/`h` simulate hook off/on, `p` the end of
/// playback and `d` a dialled number; on Settings `u`, `b`, `k` and `p` edit
/// the operator URL, booth URL, booth token and poll interval; `w` cycles the
/// Statistics window, `f` follows Events, and `r` reloads everywhere but
/// Settings.
pub proof fn lemma_screen_bindings(key: KeyEvent, ctx: KeyContext)
    requires
        !ctx.modal_open,
        !ctx.help_open,
    ensures
        ctx.screen == Screen::Messages ==> {
            &&& is_letter(key.code, 't', 'T') ==> action_for(key, ctx) == KeyAction::RetranscribeMessage
            &&& is_letter(key.code, 'm', 'M') ==> action_for(key, ctx) == KeyAction::RemoderateMessage
            &&& is_letter(key.code, 'g', 'G') ==> action_for(key, ctx) == KeyAction::TranslateMessage
            &&& is_letter(key.code, 'd', 'D') ==> action_for(key, ctx) == KeyAction::DeleteMessage
        },
        ctx.screen == Screen::Questions ==> {
            &&& is_letter(key.code, 'a', 'A') ==> action_for(key, ctx) == KeyAction::ActivateQuestion
            &&& is_letter(key.code, 'e', 'E') ==> action_for(key, ctx) == KeyAction::DeactivateQuestion
            &&& is_letter(key.code, 'd', 'D') ==> action_for(key, ctx) == KeyAction::ArchiveQuestion
            &&& is_letter(key.code, 'n', 'N') ==> action_for(key, ctx) == KeyAction::NewQuestion
        },
        ctx.screen == Screen::Messages || ctx.screen == Screen::Questions ==> {
            &&& is_letter(key.code, 'p', 'P') ==> action_for(key, ctx) == KeyAction::PlayAudio
            &&& key.code == KeyCode::Char(' ') ==> action_for(key, ctx) == KeyAction::TogglePlayback
            &&& is_letter(key.code, 's', 'S') ==> action_for(key, ctx) == KeyAction::StopPlayback
        },
        ctx.screen == Screen::Tokens ==> {
            &&& is_letter(key.code, 'n', 'N') ==> action_for(key, ctx) == KeyAction::NewToken
            &&& is_letter(key.code, 'd', 'D') ==> action_for(key, ctx) == KeyAction::RevokeToken
            &&& is_letter(key.code, 'u', 'U') ==> action_for(key, ctx) == KeyAction::TokenUsage
        },
        ctx.screen == Screen::Debug ==> {
            &&& is_letter(key.code, 'v', 'V') ==> action_for(key, ctx) == KeyAction::CycleLogLevel
            &&& is_letter(key.code, 'f', 'F') ==> action_for(key, ctx) == KeyAction::ToggleLive
            &&& is_letter(key.code, 'o', 'O') ==> action_for(key, ctx) == KeyAction::SimulateHookOff
            &&& is_letter(key.code, 'h', 'H') ==> action_for(key, ctx) == KeyAction::SimulateHookOn
            &&& is_letter(key.code, 'p', 'P') ==> action_for(key, ctx) == KeyAction::SimulatePlaybackEnded
            &&& is_letter(key.code, 'd', 'D') ==> action_for(key, ctx) == KeyAction::DialPrompt
        },
        ctx.screen == Screen::Settings ==> {
            &&& is_letter(key.code, 'u', 'U') ==> action_for(key, ctx) == KeyAction::EditOperatorUrl
            &&& is_letter(key.code, 'b', 'B') ==> action_for(key, ctx) == KeyAction::EditBoothUrl
            &&& is_letter(key.code, 'k', 'K') ==> action_for(key, ctx) == KeyAction::EditBoothToken
            &&& is_letter(key.code, 'p', 'P') ==> action_for(key, ctx) == KeyAction::EditPollInterval
        },
        ctx.screen == Screen::Stats && is_letter(key.code, 'w', 'W') ==> action_for(key, ctx)
            == KeyAction::CycleStatsWindow,
        ctx.screen == Screen::Events && is_letter(key.code, 'f', 'F') ==> action_for(key, ctx)
            == KeyAction::ToggleEventsFollow,
        is_letter(key.code, 'r', 'R') ==> action_for(key, ctx) == KeyAction::Refresh,
{
}

} // verus!
