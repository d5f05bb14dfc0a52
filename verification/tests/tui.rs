use typing_test_tui::keys::{KeyCode, KeyEvent, KeyModifiers};
use typing_test_tui::model::Mode;
use typing_test_tui::text::{decimal_string, split_on, str_eq};
use typing_test_tui::tui::{
    backend_domain, cursor_visible_at, cursor_visible_since_epoch, handle_action, route_key, should_draw_cursor, ws_url, Action,
    ActionEffect, RootKeyAction, RootModel,
};

#[test]
fn urls() {
    assert_eq!(ws_url(true), "ws://localhost:8080/ws");
    assert_eq!(ws_url(false), "wss://typing-test-tui-backend.onrender.com/ws");
    assert_eq!(backend_domain(true), "localhost:8080");
}

#[test]
fn cursor_blinks_on_even_seconds() {
    assert!(cursor_visible_at(0));
    assert!(!cursor_visible_at(1));
    assert!(cursor_visible_at(1_700_000_000));
    assert!(cursor_visible_since_epoch(None));
    assert!(cursor_visible_since_epoch(Some(4)));
    assert!(!cursor_visible_since_epoch(Some(7)));
    let _ = should_draw_cursor();
}

#[test]
fn root_keys() {
    let ctrl = KeyModifiers::control();
    let none = KeyModifiers::none();
    let mut ctrl_shift = KeyModifiers::control();
    ctrl_shift.shift = true;
    assert_eq!(route_key(&KeyEvent { code: KeyCode::Char('c'), modifiers: ctrl }, true), RootKeyAction::Quit);
    assert_eq!(route_key(&KeyEvent { code: KeyCode::Char('p'), modifiers: ctrl }, true), RootKeyAction::OpenMultiplayer);
    assert_eq!(route_key(&KeyEvent { code: KeyCode::Char('p'), modifiers: ctrl }, false), RootKeyAction::SwitchToSinglePlayer);
    assert_eq!(route_key(&KeyEvent { code: KeyCode::Char('c'), modifiers: none }, true), RootKeyAction::Forward);
    assert_eq!(route_key(&KeyEvent { code: KeyCode::Char('c'), modifiers: ctrl_shift }, true), RootKeyAction::Forward);
    assert_eq!(route_key(&KeyEvent { code: KeyCode::Enter, modifiers: ctrl }, true), RootKeyAction::Forward);
}

#[test]
fn root_actions() {
    let mut m = RootModel { exit: false, screen: 1u8, mode: Mode::Quote };
    assert_eq!(handle_action(&mut m, Action::SwitchScreen(2)), ActionEffect::Nothing);
    assert_eq!(m.screen, 2);
    assert_eq!(handle_action(&mut m, Action::ConfigModeUpdate(Mode::Words(25))), ActionEffect::SaveConfigMode(Mode::Words(25)));
    assert_eq!(m.mode, Mode::Words(25));
    assert_eq!(handle_action(&mut m, Action::SwitchToSinglePlayer), ActionEffect::BuildSinglePlayer(Mode::Words(25)));
    assert!(!m.exit);
    assert_eq!(handle_action(&mut m, Action::Quit), ActionEffect::Nothing);
    assert!(m.exit);
    assert_eq!(m.screen, 2);
}

#[test]
fn text_helpers() {
    assert_eq!(decimal_string(0), "0");
    assert_eq!(decimal_string(1907), "1907");
    assert_eq!(decimal_string(u64::MAX), u64::MAX.to_string());
    assert_eq!(split_on("a  b", ' '), vec!["a", "", "b"]);
    assert_eq!(split_on("", ' '), vec![""]);
    assert_eq!(split_on(" x ", ' '), vec!["", "x", ""]);
    assert!(str_eq("abc", "abc"));
    assert!(!str_eq("abc", "abd"));
    assert!(!str_eq("abc", "ab"));
}
