use tb_operator::hints::{status_hints, HintContext, OpenModal};
use tb_operator::keymap::{route_key, KeyAction, KeyContext};
use tb_operator::keys::{KeyCode, KeyEvent, KeyModifiers};
use tb_operator::nav::{
    admin_required_notice, move_focus, must_leave_screen, reachable_screen, screen_access, Focus,
    ScreenAccess,
};
use tb_operator::screens::Screen;

fn ctx(screen: Screen) -> KeyContext {
    KeyContext {
        screen,
        modal_open: false,
        help_open: false,
        secret_revealed: false,
        login_in_progress: false,
    }
}

fn key(code: KeyCode) -> KeyEvent {
    KeyEvent::new(code, KeyModifiers::none())
}

#[test]
fn non_admins_skip_admin_screens_both_ways() {
    assert_eq!(reachable_screen(Screen::SystemHealth, true, false), Screen::Settings);
    assert_eq!(reachable_screen(Screen::Settings, false, false), Screen::SystemHealth);
    assert_eq!(reachable_screen(Screen::Settings, true, false), Screen::About);
    assert_eq!(reachable_screen(Screen::About, true, false), Screen::Status);
}

#[test]
fn admins_step_to_the_neighbour() {
    assert_eq!(reachable_screen(Screen::SystemHealth, true, true), Screen::Debug);
    assert_eq!(reachable_screen(Screen::Status, false, true), Screen::About);
    for screen in Screen::all() {
        assert_eq!(reachable_screen(*screen, true, true), screen.next());
        assert_eq!(reachable_screen(*screen, false, true), screen.prev());
    }
}

#[test]
fn the_tab_keys_never_land_on_a_closed_screen() {
    for screen in Screen::all() {
        for forward in [true, false] {
            let to = reachable_screen(*screen, forward, false);
            assert!(!to.is_admin_only());
            assert_ne!(to, *screen);
        }
    }
}

#[test]
fn screen_access_explains_refusals() {
    assert_eq!(screen_access(Screen::Status, false, false), ScreenAccess::Open);
    assert_eq!(screen_access(Screen::Tokens, true, true), ScreenAccess::Open);
    assert_eq!(screen_access(Screen::Tokens, false, true), ScreenAccess::AdminRequired);
    assert_eq!(screen_access(Screen::Debug, false, false), ScreenAccess::PermissionsPending);
    assert_eq!(
        admin_required_notice(Screen::Tokens),
        "API Tokens requires an administrator account."
    );
}

#[test]
fn admin_screens_are_left_once_the_role_is_known() {
    assert!(must_leave_screen(Screen::Debug, false, true));
    assert!(!must_leave_screen(Screen::Debug, false, false));
    assert!(!must_leave_screen(Screen::Debug, true, true));
    assert!(!must_leave_screen(Screen::Status, false, true));
}

#[test]
fn nav_keys_round_trip() {
    for screen in Screen::all() {
        assert_eq!(Screen::from_nav_key(screen.nav_key()), Some(*screen));
    }
    assert_eq!(Screen::from_nav_key('x'), None);
    assert_eq!(Screen::from_nav_key('1'), Some(Screen::Status));
    assert_eq!(Screen::from_nav_key('0'), Some(Screen::Tokens));
    assert_eq!(Screen::count(), 12);
    assert_eq!(Screen::from_nav_key('a'), Some(Screen::About));
    assert!(Screen::Tokens.is_admin_only());
    assert!(!Screen::Settings.is_admin_only());
}

#[test]
fn ctrl_c_quits_even_with_a_modal_open() {
    let mut c = ctx(Screen::Messages);
    c.modal_open = true;
    let ctrl_c = KeyEvent::new(KeyCode::Char('c'), KeyModifiers::control());
    assert_eq!(route_key(ctrl_c, c), KeyAction::Quit);
    assert_eq!(route_key(key(KeyCode::Char('q')), c), KeyAction::ModalKey);
}

#[test]
fn the_palette_captures_keys() {
    let mut c = ctx(Screen::Status);
    c.help_open = true;
    assert_eq!(route_key(key(KeyCode::Esc), c), KeyAction::CloseHelp);
    assert_eq!(route_key(key(KeyCode::Char('q')), c), KeyAction::CloseHelp);
    assert_eq!(route_key(key(KeyCode::Char('3')), c), KeyAction::JumpFromPalette('3'));
    assert_eq!(route_key(key(KeyCode::Char('s')), c), KeyAction::JumpFromPalette('s'));
    assert_eq!(route_key(key(KeyCode::Char('L')), c), KeyAction::Login);
    assert_eq!(route_key(key(KeyCode::Char('o')), c), KeyAction::SignOut);
    assert_eq!(route_key(key(KeyCode::Tab), c), KeyAction::NextScreen);
    assert_eq!(route_key(key(KeyCode::Char('z')), c), KeyAction::Ignore);
}

#[test]
fn screen_bindings_come_before_shared_ones() {
    assert_eq!(route_key(key(KeyCode::Char('g')), ctx(Screen::Messages)), KeyAction::TranslateMessage);
    assert_eq!(route_key(key(KeyCode::Char('g')), ctx(Screen::Status)), KeyAction::ShowHelp);
    assert_eq!(route_key(key(KeyCode::Char('k')), ctx(Screen::Settings)), KeyAction::EditBoothToken);
    assert_eq!(route_key(key(KeyCode::Char('k')), ctx(Screen::Messages)), KeyAction::SelectPrev);
    assert_eq!(route_key(key(KeyCode::Char('p')), ctx(Screen::Settings)), KeyAction::EditPollInterval);
    assert_eq!(route_key(key(KeyCode::Char('p')), ctx(Screen::Questions)), KeyAction::PlayAudio);
    assert_eq!(route_key(key(KeyCode::Char('p')), ctx(Screen::Debug)), KeyAction::SimulatePlaybackEnded);
    assert_eq!(route_key(key(KeyCode::Char('o')), ctx(Screen::Debug)), KeyAction::SimulateHookOff);
    assert_eq!(route_key(key(KeyCode::Char('o')), ctx(Screen::Settings)), KeyAction::SignOut);
    assert_eq!(route_key(key(KeyCode::Char('t')), ctx(Screen::Settings)), KeyAction::CycleTheme);
    assert_eq!(route_key(key(KeyCode::Char('t')), ctx(Screen::Messages)), KeyAction::RetranscribeMessage);
    assert_eq!(route_key(key(KeyCode::Char('d')), ctx(Screen::Tokens)), KeyAction::RevokeToken);
    assert_eq!(route_key(key(KeyCode::Char('R')), ctx(Screen::Stats)), KeyAction::Refresh);
    assert_eq!(route_key(key(KeyCode::Char('w')), ctx(Screen::Stats)), KeyAction::CycleStatsWindow);
    assert_eq!(route_key(key(KeyCode::Char('w')), ctx(Screen::Events)), KeyAction::Ignore);
    assert_eq!(route_key(key(KeyCode::Char('4')), ctx(Screen::Events)), KeyAction::JumpTo('4'));
    assert_eq!(route_key(key(KeyCode::Char('s')), ctx(Screen::Events)), KeyAction::Ignore);
    assert_eq!(route_key(key(KeyCode::Char(' ')), ctx(Screen::Messages)), KeyAction::TogglePlayback);
    assert_eq!(route_key(key(KeyCode::Down), ctx(Screen::Tokens)), KeyAction::SelectNext);
    assert_eq!(route_key(key(KeyCode::BackTab), ctx(Screen::Tokens)), KeyAction::PrevScreen);
}

#[test]
fn escape_dismisses_then_cancels_then_quits() {
    let mut c = ctx(Screen::Tokens);
    c.secret_revealed = true;
    c.login_in_progress = true;
    assert_eq!(route_key(key(KeyCode::Esc), c), KeyAction::DismissSecret);
    c.screen = Screen::Status;
    assert_eq!(route_key(key(KeyCode::Esc), c), KeyAction::CancelLogin);
    c.login_in_progress = false;
    assert_eq!(route_key(key(KeyCode::Esc), c), KeyAction::Quit);
}

#[test]
fn status_hints_follow_the_overlay_then_the_screen() {
    let mut h = HintContext {
        help_open: true,
        modal: OpenModal::Prompt,
        login_in_progress: true,
        screen: Screen::Debug,
        debug_controls_allowed: true,
    };
    assert_eq!(status_hints(h), "  choose screen | L log in | O sign out | Esc/? close");
    h.help_open = false;
    assert_eq!(status_hints(h), "  type text | Enter submit | Esc cancel");
    h.modal = OpenModal::Confirm;
    assert_eq!(status_hints(h), "  y confirm | n/Esc cancel");
    h.modal = OpenModal::Closed;
    assert_eq!(status_hints(h), "  Esc cancel login | Tab/Right next | ? screens | q quit");
    h.login_in_progress = false;
    assert_eq!(
        status_hints(h),
        "  r refresh | f live | v level | o hook-off | h hook-on | p playback | d dial | ? screens"
    );
    h.debug_controls_allowed = false;
    assert_eq!(
        status_hints(h),
        "  r refresh | f live | v level | ? screens | Tab/Right next | q quit"
    );
    h.screen = Screen::Stats;
    assert_eq!(status_hints(h), "  r reload | w window | ? screens | Tab/Right next | q quit");
}

#[test]
fn focus_moves_with_tab_and_palette_keys() {
    let start = Focus { screen: Screen::Status, show_help: true };
    let jumped = move_focus(start, KeyAction::JumpFromPalette('a'), false, true);
    assert_eq!(jumped, Focus { screen: Screen::About, show_help: false });
    let refused = move_focus(start, KeyAction::JumpTo('0'), false, true);
    assert_eq!(refused.screen, Screen::Status);
    let next = move_focus(start, KeyAction::NextScreen, true, true);
    assert_eq!(next.screen, Screen::Messages);
    let closed = move_focus(start, KeyAction::CloseHelp, false, true);
    assert!(!closed.show_help);
    assert_eq!(move_focus(start, KeyAction::ModalKey, false, true), start);
}
