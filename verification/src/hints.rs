//! The key hints shown in the status bar.

use vstd::prelude::*;
use crate::screens::Screen;

verus! {

/// Which kind of modal is open, if any.
#[derive(Debug, Clone, Copy, PartialEq, Eq, Structural)]
pub enum OpenModal {
    /// No modal.
    Closed,
    /// A yes/no confirmation.
    Confirm,
    /// A text prompt.
    Prompt,
}

/// The facts about the interface that decide the status-bar hints.
#[derive(Debug, Clone, Copy, PartialEq, Eq, Structural)]
pub struct HintContext {
    /// Whether the screen palette is shown.
    pub help_open: bool,
    /// The open modal.
    pub modal: OpenModal,
    /// Whether a login is under way.
    pub login_in_progress: bool,
    /// The focused screen.
    pub screen: Screen,
    /// Whether the booth allows the simulate controls on the Debug screen.
    pub debug_controls_allowed: bool,
}

/// The hints for a screen when nothing overlays it.
pub open spec fn screen_hint_text(screen: Screen, debug_controls_allowed: bool) -> Seq<char> {
    match screen {
        Screen::Settings =>
            "  u API URL | b booth URL | k booth token | p poll ms | t theme | L/O auth | ? screens"@,
        Screen::About => "  ? screens | Tab/Right next | Shift-Tab/Left prev | q quit"@,
        Screen::Status =>
            "  r refresh | ? screens | Tab/Right next | Shift-Tab/Left prev | q quit"@,
        Screen::Messages =>
            "  ↑/↓ select | a approve | x reject | t transcribe | m moderate | g translate | d delete | p play | space pause | s stop | r reload | ? screens"@,
        Screen::Questions =>
            "  ↑/↓ select | a activate | e deactivate | d archive | n new | p play | space pause | s stop | r reload | ? screens"@,
        Screen::Sessions => "  ↑/↓ select | r reload | ? screens | Tab/Right next | q quit"@,
        Screen::Events =>
            "  ↑/↓ select | r reload | f follow | ? screens | Tab/Right next | q quit"@,
        Screen::Stats => "  r reload | w window | ? screens | Tab/Right next | q quit"@,
        Screen::LiveSystem =>
            "  r refresh | ? screens | Tab/Right next | Shift-Tab/Left prev | q quit"@,
        Screen::SystemHealth =>
            "  r refresh | ? screens | Tab/Right next | Shift-Tab/Left prev | q quit"@,
        Screen::Debug => if debug_controls_allowed {
            "  r refresh | f live | v level | o hook-off | h hook-on | p playback | d dial | ? screens"@
        } else {
            "  r refresh | f live | v level | ? screens | Tab/Right next | q quit"@
        },
        Screen::Tokens =>
            "  ↑/↓ select | n new | d revoke | u usage | r reload | Esc dismiss secret | ? screens"@,
    }
}

/// The status-bar hints: the palette's, then an open modal's, then a login's,
/// then the focused screen's.
pub open spec fn hint_text(ctx: HintContext) -> Seq<char> {
    if ctx.help_open {
        "  choose screen | L log in | O sign out | Esc/? close"@
    } else if ctx.modal == OpenModal::Confirm {
        "  y confirm | n/Esc cancel"@
    } else if ctx.modal == OpenModal::Prompt {
        "  type text | Enter submit | Esc cancel"@
    } else if ctx.login_in_progress {
        "  Esc cancel login | Tab/Right next | ? screens | q quit"@
    } else {
        screen_hint_text(ctx.screen, ctx.debug_controls_allowed)
    }
}

fn screen_hint(screen: Screen, debug_controls_allowed: bool) -> (r: &'static str)
    ensures
        r@ == screen_hint_text(screen, debug_controls_allowed),
{
    match screen {
        Screen::Settings =>
            "  u API URL | b booth URL | k booth token | p poll ms | t theme | L/O auth | ? screens",
        Screen::About => "  ? screens | Tab/Right next | Shift-Tab/Left prev | q quit",
        Screen::Status => "  r refresh | ? screens | Tab/Right next | Shift-Tab/Left prev | q quit",
        Screen::Messages =>
            "  ↑/↓ select | a approve | x reject | t transcribe | m moderate | g translate | d delete | p play | space pause | s stop | r reload | ? screens",
        Screen::Questions =>
            "  ↑/↓ select | a activate | e deactivate | d archive | n new | p play | space pause | s stop | r reload | ? screens",
        Screen::Sessions => "  ↑/↓ select | r reload | ? screens | Tab/Right next | q quit",
        Screen::Events => "  ↑/↓ select | r reload | f follow | ? screens | Tab/Right next | q quit",
        Screen::Stats => "  r reload | w window | ? screens | Tab/Right next | q quit",
        Screen::LiveSystem =>
            "  r refresh | ? screens | Tab/Right next | Shift-Tab/Left prev | q quit",
        Screen::SystemHealth =>
            "  r refresh | ? screens | Tab/Right next | Shift-Tab/Left prev | q quit",
        Screen::Debug => {
            if debug_controls_allowed {
                "  r refresh | f live | v level | o hook-off | h hook-on | p playback | d dial | ? screens"
            } else {
                "  r refresh | f live | v level | ? screens | Tab/Right next | q quit"
            }
        },
        Screen::Tokens =>
            "  ↑/↓ select | n new | d revoke | u usage | r reload | Esc dismiss secret | ? screens",
    }
}

/// Context-sensitive key hints for the status bar.
pub fn status_hints(ctx: HintContext) -> (r: &'static str)
    ensures
        r@ == hint_text(ctx),
{
    if ctx.help_open {
        return "  choose screen | L log in | O sign out | Esc/? close";
    }
    match ctx.modal {
        OpenModal::Confirm => return "  y confirm | n/Esc cancel",
        OpenModal::Prompt => return "  type text | Enter submit | Esc cancel",
        OpenModal::Closed => {},
    }
    if ctx.login_in_progress {
        return "  Esc cancel login | Tab/Right next | ? screens | q quit";
    }
    screen_hint(ctx.screen, ctx.debug_controls_allowed)
}

} // verus!
