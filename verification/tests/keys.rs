use harview::handler::{
    handle_key_events, Command, KeyCode, KeyEvent, KeyModifiers, ALT, CONTROL, NONE, SHIFT,
};
use harview::tabs::TabBarState;

fn key(code: KeyCode) -> KeyEvent {
    KeyEvent { code, modifiers: KeyModifiers { bits: NONE } }
}

fn key_with(code: KeyCode, bits: u8) -> KeyEvent {
    KeyEvent { code, modifiers: KeyModifiers { bits } }
}

#[test]
fn q_quits() {
    assert_eq!(handle_key_events(key(KeyCode::Char('q'))), Some(Command::Quit));
    assert_eq!(handle_key_events(key(KeyCode::Char('Q'))), None);
}

#[test]
fn control_c_quits_in_either_case() {
    assert_eq!(handle_key_events(key_with(KeyCode::Char('c'), CONTROL)), Some(Command::Quit));
    assert_eq!(handle_key_events(key_with(KeyCode::Char('C'), CONTROL)), Some(Command::Quit));
}

#[test]
fn c_without_control_alone_is_ignored() {
    assert_eq!(handle_key_events(key(KeyCode::Char('c'))), None);
    assert_eq!(handle_key_events(key(KeyCode::Char('C'))), None);
    assert_eq!(handle_key_events(key_with(KeyCode::Char('c'), SHIFT)), None);
    assert_eq!(handle_key_events(key_with(KeyCode::Char('c'), CONTROL | ALT)), None);
    assert_eq!(handle_key_events(key_with(KeyCode::Char('C'), CONTROL | SHIFT)), None);
}

#[test]
fn line_keys_move_by_one() {
    assert_eq!(handle_key_events(key(KeyCode::Char('j'))), Some(Command::TableFocusDelta(1)));
    assert_eq!(handle_key_events(key(KeyCode::Down)), Some(Command::TableFocusDelta(1)));
    assert_eq!(handle_key_events(key(KeyCode::Char('k'))), Some(Command::TableFocusDelta(-1)));
    assert_eq!(handle_key_events(key(KeyCode::Up)), Some(Command::TableFocusDelta(-1)));
}

#[test]
fn page_keys_move_by_three() {
    assert_eq!(handle_key_events(key(KeyCode::Char('d'))), Some(Command::TableFocusDelta(3)));
    assert_eq!(handle_key_events(key(KeyCode::Char('u'))), Some(Command::TableFocusDelta(-3)));
}

#[test]
fn g_keys_jump_to_the_ends() {
    assert_eq!(handle_key_events(key(KeyCode::Char('g'))), Some(Command::TableFocusTop));
    assert_eq!(handle_key_events(key(KeyCode::Char('G'))), Some(Command::TableFocusBottom));
}

#[test]
fn digits_choose_tabs() {
    assert_eq!(
        handle_key_events(key(KeyCode::Char('1'))),
        Some(Command::SetTabBarState(TabBarState::Headers))
    );
    assert_eq!(
        handle_key_events(key(KeyCode::Char('2'))),
        Some(Command::SetTabBarState(TabBarState::Cookies))
    );
    assert_eq!(
        handle_key_events(key(KeyCode::Char('3'))),
        Some(Command::SetTabBarState(TabBarState::Request))
    );
    assert_eq!(
        handle_key_events(key(KeyCode::Char('4'))),
        Some(Command::SetTabBarState(TabBarState::Response))
    );
    assert_eq!(handle_key_events(key(KeyCode::Char('5'))), None);
    assert_eq!(handle_key_events(key(KeyCode::Char('0'))), None);
}

#[test]
fn bindings_do_not_look_at_modifiers() {
    assert_eq!(
        handle_key_events(key_with(KeyCode::Char('j'), CONTROL)),
        Some(Command::TableFocusDelta(1))
    );
    assert_eq!(
        handle_key_events(key_with(KeyCode::Char('G'), SHIFT)),
        Some(Command::TableFocusBottom)
    );
    assert_eq!(handle_key_events(key_with(KeyCode::Up, ALT)), Some(Command::TableFocusDelta(-1)));
}

#[test]
fn other_keys_are_ignored() {
    let ignored = [
        KeyCode::Backspace,
        KeyCode::Enter,
        KeyCode::Left,
        KeyCode::Right,
        KeyCode::Home,
        KeyCode::End,
        KeyCode::PageUp,
        KeyCode::PageDown,
        KeyCode::Tab,
        KeyCode::BackTab,
        KeyCode::Delete,
        KeyCode::Insert,
        KeyCode::F(1),
        KeyCode::Char('x'),
        KeyCode::Char('J'),
        KeyCode::Char(' '),
        KeyCode::Null,
        KeyCode::Esc,
        KeyCode::Other,
    ];
    for code in ignored {
        assert_eq!(handle_key_events(key(code)), None);
    }
}
