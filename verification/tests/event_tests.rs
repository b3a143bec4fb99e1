use std::time::Duration;

use lantern_teleport::event::{
    is_backspace_key, is_down_key, is_enter_key, is_escape_key, is_left_key, is_printable_char,
    is_quit_key, is_right_key, is_search_key, is_up_key, EventHandler, KeyAction, KeyCode,
    KeyEvent, Polled, TerminalEvent, MODIFIER_CONTROL, MODIFIER_NONE, MODIFIER_SHIFT,
};

fn key(code: KeyCode) -> KeyEvent {
    KeyEvent { code, modifiers: MODIFIER_NONE }
}

fn with(code: KeyCode, modifiers: u8) -> KeyEvent {
    KeyEvent { code, modifiers }
}

#[test]
fn quit_keys() {
    assert!(is_quit_key(with(KeyCode::Char('c'), MODIFIER_CONTROL)));
    assert!(is_quit_key(key(KeyCode::Char('q'))));
    assert!(!is_quit_key(key(KeyCode::Char('c'))));
    assert!(!is_quit_key(with(KeyCode::Char('q'), MODIFIER_CONTROL)));
    assert!(!is_quit_key(with(KeyCode::Char('c'), MODIFIER_CONTROL | MODIFIER_SHIFT)));
    assert!(!is_quit_key(key(KeyCode::Esc)));
}

#[test]
fn direction_keys() {
    assert!(is_up_key(key(KeyCode::Up)));
    assert!(is_up_key(key(KeyCode::Char('k'))));
    assert!(!is_up_key(with(KeyCode::Up, MODIFIER_SHIFT)));
    assert!(!is_up_key(key(KeyCode::Down)));
    assert!(is_down_key(key(KeyCode::Down)));
    assert!(is_down_key(key(KeyCode::Char('j'))));
    assert!(!is_down_key(with(KeyCode::Char('j'), MODIFIER_CONTROL)));
    assert!(is_left_key(key(KeyCode::Left)));
    assert!(is_left_key(key(KeyCode::Char('h'))));
    assert!(!is_left_key(key(KeyCode::Right)));
    assert!(is_right_key(key(KeyCode::Right)));
    assert!(is_right_key(key(KeyCode::Char('l'))));
    assert!(!is_right_key(key(KeyCode::Char('L'))));
}

#[test]
fn other_keys() {
    assert!(is_enter_key(key(KeyCode::Enter)));
    assert!(!is_enter_key(with(KeyCode::Enter, MODIFIER_SHIFT)));
    assert!(is_escape_key(key(KeyCode::Esc)));
    assert!(!is_escape_key(key(KeyCode::Enter)));
    assert!(is_search_key(key(KeyCode::Char('/'))));
    assert!(!is_search_key(with(KeyCode::Char('/'), MODIFIER_SHIFT)));
    assert!(is_backspace_key(key(KeyCode::Backspace)));
    assert!(!is_backspace_key(with(KeyCode::Backspace, 4)));
    assert!(!is_backspace_key(key(KeyCode::Other)));
}

#[test]
fn printable_characters() {
    assert_eq!(is_printable_char(key(KeyCode::Char('a'))), Some('a'));
    assert_eq!(is_printable_char(with(KeyCode::Char('A'), MODIFIER_SHIFT)), Some('A'));
    assert_eq!(is_printable_char(with(KeyCode::Char('a'), MODIFIER_CONTROL)), None);
    assert_eq!(is_printable_char(with(KeyCode::Char('a'), MODIFIER_SHIFT | MODIFIER_CONTROL)), None);
    assert_eq!(is_printable_char(key(KeyCode::Enter)), None);
}

#[test]
fn keys_read_as_commands() {
    assert_eq!(KeyAction::from_key_event(key(KeyCode::Char('q'))), Some(KeyAction::Quit));
    assert_eq!(
        KeyAction::from_key_event(with(KeyCode::Char('c'), MODIFIER_CONTROL)),
        Some(KeyAction::Quit)
    );
    assert_eq!(KeyAction::from_key_event(key(KeyCode::Char('k'))), Some(KeyAction::Up));
    assert_eq!(KeyAction::from_key_event(key(KeyCode::Down)), Some(KeyAction::Down));
    assert_eq!(KeyAction::from_key_event(key(KeyCode::Char('h'))), Some(KeyAction::Left));
    assert_eq!(KeyAction::from_key_event(key(KeyCode::Right)), Some(KeyAction::Right));
    assert_eq!(KeyAction::from_key_event(key(KeyCode::Enter)), Some(KeyAction::Enter));
    assert_eq!(KeyAction::from_key_event(key(KeyCode::Esc)), Some(KeyAction::Escape));
    assert_eq!(KeyAction::from_key_event(key(KeyCode::Char('/'))), Some(KeyAction::Search));
    assert_eq!(KeyAction::from_key_event(key(KeyCode::Backspace)), Some(KeyAction::Backspace));
    assert_eq!(KeyAction::from_key_event(key(KeyCode::Char('x'))), Some(KeyAction::Char('x')));
    assert_eq!(
        KeyAction::from_key_event(with(KeyCode::Char('X'), MODIFIER_SHIFT)),
        Some(KeyAction::Char('X'))
    );
    assert_eq!(KeyAction::from_key_event(key(KeyCode::Other)), None);
    assert_eq!(KeyAction::from_key_event(with(KeyCode::Char('x'), MODIFIER_CONTROL)), None);
}

#[test]
fn keys_read_as_text_while_searching() {
    for c in ['q', 'j', 'k', 'h', 'l', '/', 'a'] {
        assert_eq!(KeyAction::from_search_key_event(key(KeyCode::Char(c))), Some(KeyAction::Char(c)));
    }
    assert_eq!(
        KeyAction::from_search_key_event(with(KeyCode::Char('c'), MODIFIER_CONTROL)),
        Some(KeyAction::Quit)
    );
    assert_eq!(KeyAction::from_search_key_event(key(KeyCode::Up)), Some(KeyAction::Up));
    assert_eq!(KeyAction::from_search_key_event(key(KeyCode::Down)), Some(KeyAction::Down));
    assert_eq!(KeyAction::from_search_key_event(key(KeyCode::Enter)), Some(KeyAction::Enter));
    assert_eq!(KeyAction::from_search_key_event(key(KeyCode::Esc)), Some(KeyAction::Escape));
    assert_eq!(
        KeyAction::from_search_key_event(key(KeyCode::Backspace)),
        Some(KeyAction::Backspace)
    );
    assert_eq!(KeyAction::from_search_key_event(key(KeyCode::Other)), None);
}

#[test]
fn a_wait_without_event_is_a_tick() {
    let events = EventHandler::new(Duration::from_millis(250));
    assert_eq!(events.tick_rate(), Duration::from_millis(250));
    assert_eq!(events.next(Polled::Nothing), TerminalEvent::Tick);
    assert_eq!(events.next(Polled::Other), TerminalEvent::Tick);
    assert_eq!(events.next(Polled::Resize(80, 24)), TerminalEvent::Resize(80, 24));
    let pressed = key(KeyCode::Enter);
    assert_eq!(events.next(Polled::Key(pressed)), TerminalEvent::Key(pressed));
    assert_eq!(events.next(Polled::Mouse), TerminalEvent::Mouse);
}
