//! Moving between screens: which screens an operator may open, and the screen
//! that the tab keys lead to when some of them are closed.

use vstd::prelude::*;
use crate::keymap::{action_for, is_interrupt, lemma_overlays_capture_keys, KeyAction, KeyContext};
use crate::keys::KeyEvent;
use crate::screens::{
    admin_only, following, lemma_nav_keys_round_trip, nav_char, preceding, screen_count, title_text, Screen,
};
use crate::text::push_str;

verus! {

/// Whether an operator may open `s`.
pub open spec fn may_open(s: Screen, is_admin: bool) -> bool {
    !admin_only(s) || is_admin
}

/// One step through the tab order, forward or backward.
pub open spec fn step(s: Screen, forward: bool) -> Screen {
    if forward {
        following(s)
    } else {
        preceding(s)
    }
}

/// The first screen that may be opened among `candidate` and the `fuel - 1`
/// screens after it in the given direction, or `fallback` when none may be.
pub open spec fn seek(
    fallback: Screen,
    candidate: Screen,
    forward: bool,
    is_admin: bool,
    fuel: nat,
) -> Screen
    decreases fuel,
{
    if fuel == 0 {
        fallback
    } else if may_open(candidate, is_admin) {
        candidate
    } else {
        seek(fallback, step(candidate, forward), forward, is_admin, (fuel - 1) as nat)
    }
}

/// The screen the tab keys lead to from `current`: the nearest screen in the
/// given direction that the operator may open, or `current` when there is none.
pub open spec fn reachable_from(current: Screen, forward: bool, is_admin: bool) -> Screen {
    seek(current, step(current, forward), forward, is_admin, screen_count())
}

/// The nearest screen from `current` in the given direction that the operator
/// may open, skipping the administrator screens for everyone else. Falls back
/// to `current` when every other screen is closed.
pub fn reachable_screen(current: Screen, forward: bool, is_admin: bool) -> (r: Screen)
    ensures
        r == reachable_from(current, forward, is_admin),
{
    let mut candidate = if forward {
        current.next()
    } else {
        current.prev()
    };
    let count = Screen::count();
    let mut left: usize = count;
    while left > 0
        invariant
            left <= screen_count(),
            seek(current, candidate, forward, is_admin, left as nat) == reachable_from(
                current,
                forward,
                is_admin,
            ),
        decreases left,
    {
        if !candidate.is_admin_only() || is_admin {
            return candidate;
        }
        candidate = if forward {
            candidate.next()
        } else {
            candidate.prev()
        };
        left = left - 1;
    }
    current
}

/// Whether an operator may open a screen they asked for.
#[derive(Debug, Clone, Copy, PartialEq, Eq, Structural)]
pub enum ScreenAccess {
    /// The screen opens.
    Open,
    /// The screen is for administrators and the operator is known not to be one.
    AdminRequired,
    /// The screen is for administrators and the operator's role is not known yet.
    PermissionsPending,
}

/// The answer to a request to open `screen`.
pub open spec fn access_for(screen: Screen, is_admin: bool, is_known: bool) -> ScreenAccess {
    if may_open(screen, is_admin) {
        ScreenAccess::Open
    } else if is_known {
        ScreenAccess::AdminRequired
    } else {
        ScreenAccess::PermissionsPending
    }
}

/// Whether the operator may open `screen`, and if not, why not.
pub fn screen_access(screen: Screen, is_admin: bool, is_known: bool) -> (r: ScreenAccess)
    ensures
        r == access_for(screen, is_admin, is_known),
{
    if !screen.is_admin_only() || is_admin {
        ScreenAccess::Open
    } else if is_known {
        ScreenAccess::AdminRequired
    } else {
        ScreenAccess::PermissionsPending
    }
}

/// The notice shown when a non-administrator asks for an administrator screen.
pub fn admin_required_notice(screen: Screen) -> (r: String)
    ensures
        r@ == title_text(screen) + " requires an administrator account."@,
{
    let mut text = String::new();
    push_str(&mut text, screen.title());
    push_str(&mut text, " requires an administrator account.");
    text
}

/// Whether the focused screen must be left because the operator has turned
/// out not to be an administrator.
pub fn must_leave_screen(screen: Screen, is_admin: bool, is_known: bool) -> (r: bool)
    ensures
        r == (admin_only(screen) && is_known && !is_admin),
{
    screen.is_admin_only() && is_known && !is_admin
}

/// The tab keys never lead to a screen the operator may not open, and for an
/// administrator they step to the neighbouring screen.
pub proof fn lemma_reachable_may_open(current: Screen, forward: bool, is_admin: bool)
    ensures
        may_open(reachable_from(current, forward, is_admin), is_admin),
        is_admin ==> reachable_from(current, forward, is_admin) == step(current, forward),
{
    let c1 = step(current, forward);
    let c2 = step(c1, forward);
    let c3 = step(c2, forward);
    assert(seek(current, c1, forward, is_admin, 12) == (if may_open(c1, is_admin) {
        c1
    } else {
        seek(current, c2, forward, is_admin, 11)
    }));
    assert(seek(current, c2, forward, is_admin, 11) == (if may_open(c2, is_admin) {
        c2
    } else {
        seek(current, c3, forward, is_admin, 10)
    }));
    assert(seek(current, c3, forward, is_admin, 10) == (if may_open(c3, is_admin) {
        c3
    } else {
        seek(current, step(c3, forward), forward, is_admin, 9)
    }));
}


/// Where the interface looks: the screen on show and whether the screen
/// palette is open over it.
#[derive(Debug, Clone, Copy, PartialEq, Eq, Structural)]
pub struct Focus {
    /// The screen on show.
    pub screen: Screen,
    /// Whether the screen palette is open.
    pub show_help: bool,
}

/// The screen a palette key leads to from `current`: the screen with that
/// key when the operator may open it, `current` otherwise.
pub open spec fn jumped(current: Screen, key: char, is_admin: bool, is_known: bool) -> Screen {
    if exists|s: Screen| nav_char(s) == key {
        let s = choose|s: Screen| nav_char(s) == key;
        if access_for(s, is_admin, is_known) == ScreenAccess::Open {
            s
        } else {
            current
        }
    } else {
        current
    }
}

/// Where the interface looks after `action`: the palette opens or closes,
/// the tab keys move to the nearest screen that may be opened, a palette key
/// jumps to its screen when it may be opened (and, from the palette, closes
/// it); every other action leaves it where it was.
pub open spec fn focus_after(f: Focus, action: KeyAction, is_admin: bool, is_known: bool) -> Focus {
    match action {
        KeyAction::ShowHelp => Focus { show_help: true, ..f },
        KeyAction::CloseHelp => Focus { show_help: false, ..f },
        KeyAction::NextScreen => Focus { screen: reachable_from(f.screen, true, is_admin), ..f },
        KeyAction::PrevScreen => Focus { screen: reachable_from(f.screen, false, is_admin), ..f },
        KeyAction::JumpTo(c) => Focus { screen: jumped(f.screen, c, is_admin, is_known), ..f },
        KeyAction::JumpFromPalette(c) => Focus {
            screen: jumped(f.screen, c, is_admin, is_known),
            show_help: false,
        },
        _ => f,
    }
}

fn jump(current: Screen, key: char, is_admin: bool, is_known: bool) -> (r: Screen)
    ensures
        r == jumped(current, key, is_admin, is_known),
{
    match Screen::from_nav_key(key) {
        Some(s) => {
            proof {
                let t = choose|t: Screen| nav_char(t) == key;
                lemma_nav_keys_round_trip(s, t);
            }
            match screen_access(s, is_admin, is_known) {
                ScreenAccess::Open => s,
                _ => current,
            }
        },
        None => current,
    }
}

/// Move where the interface looks, as `action` asks.
pub fn move_focus(f: Focus, action: KeyAction, is_admin: bool, is_known: bool) -> (r: Focus)
    ensures
        r == focus_after(f, action, is_admin, is_known),
{
    match action {
        KeyAction::ShowHelp => Focus { show_help: true, ..f },
        KeyAction::CloseHelp => Focus { show_help: false, ..f },
        KeyAction::NextScreen => Focus { screen: reachable_screen(f.screen, true, is_admin), ..f },
        KeyAction::PrevScreen => Focus { screen: reachable_screen(f.screen, false, is_admin), ..f },
        KeyAction::JumpTo(c) => Focus { screen: jump(f.screen, c, is_admin, is_known), ..f },
        KeyAction::JumpFromPalette(c) => Focus { screen: jump(f.screen, c, is_admin, is_known), show_help: false },
        _ => f,
    }
}

/// While a modal is open, no key moves the interface: every key but Ctrl-C
/// goes to the modal and Ctrl-C quits, so the screen on show and the palette
/// stay as they were.
pub proof fn lemma_modal_holds_focus(key: KeyEvent, ctx: KeyContext, f: Focus, is_admin: bool, is_known: bool)
    requires
        ctx.modal_open,
    ensures
        action_for(key, ctx) == KeyAction::ModalKey || (is_interrupt(key) && action_for(key, ctx)
            == KeyAction::Quit),
        focus_after(f, action_for(key, ctx), is_admin, is_known) == f,
{
    lemma_overlays_capture_keys(key, ctx);
}

} // verus!
