//! Keys and terminal events as plain values, and what each key asks for.

use std::time::Duration;
use vstd::prelude::*;

verus! {

/// No modifier key is held.
pub const MODIFIER_NONE: u8 = 0b0000_0000;

/// The shift key is held.
pub const MODIFIER_SHIFT: u8 = 0b0000_0001;

/// The control key is held.
pub const MODIFIER_CONTROL: u8 = 0b0000_0010;

/// Which key was pressed.
#[derive(Debug, Clone, Copy, PartialEq, Eq)]
pub enum KeyCode {
    /// A character key.
    Char(char),
    /// The up arrow.
    Up,
    /// The down arrow.
    Down,
    /// The left arrow.
    Left,
    /// The right arrow.
    Right,
    /// The enter key.
    Enter,
    /// The escape key.
    Esc,
    /// The backspace key.
    Backspace,
    /// Any other key.
    Other,
}

/// A key press: the key, and the modifier keys held with it as a set of bits
/// (`MODIFIER_SHIFT`, `MODIFIER_CONTROL`, and higher bits for the others).
#[derive(Debug, Clone, Copy, PartialEq, Eq)]
pub struct KeyEvent {
    /// The key itself.
    pub code: KeyCode,
    /// The modifier keys held.
    pub modifiers: u8,
}

/// What the terminal reported.
#[derive(Debug, Clone, Copy, PartialEq, Eq)]
pub enum TerminalEvent {
    /// A key was pressed.
    Key(KeyEvent),
    /// The mouse did something.
    Mouse,
    /// The terminal now has this many columns and rows.
    Resize(u16, u16),
    /// Nothing happened within one tick.
    Tick,
}

/// What a wait for the terminal came to.
#[derive(Debug, Clone, Copy, PartialEq, Eq)]
pub enum Polled {
    /// A key was pressed.
    Key(KeyEvent),
    /// The mouse did something.
    Mouse,
    /// The terminal now has this many columns and rows.
    Resize(u16, u16),
    /// Something else happened that the session takes no notice of.
    Other,
    /// Nothing happened within one tick.
    Nothing,
}

/// Waits for terminal events, at most one tick at a time.
#[derive(Debug, Clone, Copy, PartialEq, Eq)]
pub struct EventHandler {
    tick_rate: Duration,
}

impl EventHandler {
    /// A handler that waits `tick_rate` for an event before it reports a tick.
    pub fn new(tick_rate: Duration) -> (handler: EventHandler)
        ensures
            handler.tick() == tick_rate,
    {
        EventHandler { tick_rate }
    }

    /// The length of a tick.
    pub closed spec fn tick(self) -> Duration {
        self.tick_rate
    }

    /// The length of a tick.
    pub fn tick_rate(&self) -> (tick: Duration)
        ensures
            tick == self.tick(),
    {
        self.tick_rate
    }

    /// The event that a wait came to: keys, the mouse and a new size are
    /// handed on, and everything else counts as a tick, as does a wait in
    /// which nothing happened.
    pub fn next(&self, polled: Polled) -> (event: TerminalEvent)
        ensures
            event == match polled {
                Polled::Key(key) => TerminalEvent::Key(key),
                Polled::Mouse => TerminalEvent::Mouse,
                Polled::Resize(width, height) => TerminalEvent::Resize(width, height),
                Polled::Other => TerminalEvent::Tick,
                Polled::Nothing => TerminalEvent::Tick,
            },
    {
        match polled {
            Polled::Key(key) => TerminalEvent::Key(key),
            Polled::Mouse => TerminalEvent::Mouse,
            Polled::Resize(width, height) => TerminalEvent::Resize(width, height),
            _ => TerminalEvent::Tick,
        }
    }
}

/// The key is the character `c` with no modifier held.
pub open spec fn is_plain_char(key: KeyEvent, c: char) -> bool {
    key.code == KeyCode::Char(c) && key.modifiers == MODIFIER_NONE
}

/// Tells whether the key is the character `c` with no modifier held.
fn plain_char(key: KeyEvent, c: char) -> (yes: bool)
    ensures
        yes == is_plain_char(key, c),
{
    match key.code {
        KeyCode::Char(pressed) => pressed == c && key.modifiers == MODIFIER_NONE,
        _ => false,
    }
}

/// Quit: control with `c`, or a plain `q`.
pub open spec fn quit_key(key: KeyEvent) -> bool {
    (key.code == KeyCode::Char('c') && key.modifiers == MODIFIER_CONTROL) || is_plain_char(
        key,
        'q',
    )
}

/// Up: the up arrow or `k`, with no modifier.
pub open spec fn up_key(key: KeyEvent) -> bool {
    key.modifiers == MODIFIER_NONE && (key.code == KeyCode::Up || key.code == KeyCode::Char('k'))
}

/// Down: the down arrow or `j`, with no modifier.
pub open spec fn down_key(key: KeyEvent) -> bool {
    key.modifiers == MODIFIER_NONE && (key.code == KeyCode::Down || key.code == KeyCode::Char(
        'j',
    ))
}

/// Left: the left arrow or `h`, with no modifier.
pub open spec fn left_key(key: KeyEvent) -> bool {
    key.modifiers == MODIFIER_NONE && (key.code == KeyCode::Left || key.code == KeyCode::Char(
        'h',
    ))
}

/// Right: the right arrow or `l`, with no modifier.
pub open spec fn right_key(key: KeyEvent) -> bool {
    key.modifiers == MODIFIER_NONE && (key.code == KeyCode::Right || key.code == KeyCode::Char(
        'l',
    ))
}

/// The character that the key types: that of a character key pressed with no
/// modifier or with shift alone.
pub open spec fn printable_char(key: KeyEvent) -> Option<char> {
    match key.code {
        KeyCode::Char(c) => if key.modifiers == MODIFIER_NONE || key.modifiers == MODIFIER_SHIFT {
            Some(c)
        } else {
            None
        },
        _ => None,
    }
}

/// Tells whether the key asks to quit.
pub fn is_quit_key(key: KeyEvent) -> (yes: bool)
    ensures
        yes == quit_key(key),
{
    let control_c = match key.code {
        KeyCode::Char(pressed) => pressed == 'c' && key.modifiers == MODIFIER_CONTROL,
        _ => false,
    };
    control_c || plain_char(key, 'q')
}

/// Tells whether the key moves up.
pub fn is_up_key(key: KeyEvent) -> (yes: bool)
    ensures
        yes == up_key(key),
{
    match key.code {
        KeyCode::Up => key.modifiers == MODIFIER_NONE,
        _ => plain_char(key, 'k'),
    }
}

/// Tells whether the key moves down.
pub fn is_down_key(key: KeyEvent) -> (yes: bool)
    ensures
        yes == down_key(key),
{
    match key.code {
        KeyCode::Down => key.modifiers == MODIFIER_NONE,
        _ => plain_char(key, 'j'),
    }
}

/// Tells whether the key moves left.
pub fn is_left_key(key: KeyEvent) -> (yes: bool)
    ensures
        yes == left_key(key),
{
    match key.code {
        KeyCode::Left => key.modifiers == MODIFIER_NONE,
        _ => plain_char(key, 'h'),
    }
}

/// Tells whether the key moves right.
pub fn is_right_key(key: KeyEvent) -> (yes: bool)
    ensures
        yes == right_key(key),
{
    match key.code {
        KeyCode::Right => key.modifiers == MODIFIER_NONE,
        _ => plain_char(key, 'l'),
    }
}

/// Tells whether the key is enter with no modifier.
pub fn is_enter_key(key: KeyEvent) -> (yes: bool)
    ensures
        yes == (key.code == KeyCode::Enter && key.modifiers == MODIFIER_NONE),
{
    match key.code {
        KeyCode::Enter => key.modifiers == MODIFIER_NONE,
        _ => false,
    }
}

/// Tells whether the key is escape with no modifier.
pub fn is_escape_key(key: KeyEvent) -> (yes: bool)
    ensures
        yes == (key.code == KeyCode::Esc && key.modifiers == MODIFIER_NONE),
{
    match key.code {
        KeyCode::Esc => key.modifiers == MODIFIER_NONE,
        _ => false,
    }
}

/// Tells whether the key starts a search: a plain `/`.
pub fn is_search_key(key: KeyEvent) -> (yes: bool)
    ensures
        yes == is_plain_char(key, '/'),
{
    plain_char(key, '/')
}

/// Tells whether the key is backspace with no modifier.
pub fn is_backspace_key(key: KeyEvent) -> (yes: bool)
    ensures
        yes == (key.code == KeyCode::Backspace && key.modifiers == MODIFIER_NONE),
{
    match key.code {
        KeyCode::Backspace => key.modifiers == MODIFIER_NONE,
        _ => false,
    }
}

/// The character that the key types, if it types one.
pub fn is_printable_char(key: KeyEvent) -> (typed: Option<char>)
    ensures
        typed == printable_char(key),
{
    match key.code {
        KeyCode::Char(c) => if key.modifiers == MODIFIER_NONE || key.modifiers == MODIFIER_SHIFT {
            Some(c)
        } else {
            None
        },
        _ => None,
    }
}

/// What a key asks the session to do.
#[derive(Debug, Clone, Copy, PartialEq, Eq)]
pub enum KeyAction {
    /// End the session.
    Quit,
    /// Move the selection up.
    Up,
    /// Move the selection down.
    Down,
    /// Move the choice to the left.
    Left,
    /// Move the choice to the right.
    Right,
    /// Confirm.
    Enter,
    /// Cancel or go back.
    Escape,
    /// Start a search.
    Search,
    /// Delete the last character of the search text.
    Backspace,
    /// Add a character to the search text.
    Char(char),
}

impl KeyAction {
    /// What a key asks for while nothing is being typed. The keys are tried in
    /// a fixed order: quit, then the four directions, enter, escape, search,
    /// backspace, and last the character that the key types.
    pub open spec fn of_key(key: KeyEvent) -> Option<KeyAction> {
        if quit_key(key) {
            Some(KeyAction::Quit)
        } else if up_key(key) {
            Some(KeyAction::Up)
        } else if down_key(key) {
            Some(KeyAction::Down)
        } else if left_key(key) {
            Some(KeyAction::Left)
        } else if right_key(key) {
            Some(KeyAction::Right)
        } else if key.code == KeyCode::Enter && key.modifiers == MODIFIER_NONE {
            Some(KeyAction::Enter)
        } else if key.code == KeyCode::Esc && key.modifiers == MODIFIER_NONE {
            Some(KeyAction::Escape)
        } else if is_plain_char(key, '/') {
            Some(KeyAction::Search)
        } else if key.code == KeyCode::Backspace && key.modifiers == MODIFIER_NONE {
            Some(KeyAction::Backspace)
        } else {
            match printable_char(key) {
                Some(c) => Some(KeyAction::Char(c)),
                None => None,
            }
        }
    }

    /// What a key asks for while the search text is being typed: a key that
    /// types a character types it, whatever it stands for elsewhere, so that
    /// of the quit keys only control with `c` is left; every other key is read
    /// as elsewhere.
    pub open spec fn of_search_key(key: KeyEvent) -> Option<KeyAction> {
        match printable_char(key) {
            Some(c) => Some(KeyAction::Char(c)),
            None => Self::of_key(key),
        }
    }

    /// Reads a key while nothing is being typed.
    pub fn from_key_event(key: KeyEvent) -> (action: Option<KeyAction>)
        ensures
            action == Self::of_key(key),
    {
        if is_quit_key(key) {
            Some(KeyAction::Quit)
        } else if is_up_key(key) {
            Some(KeyAction::Up)
        } else if is_down_key(key) {
            Some(KeyAction::Down)
        } else if is_left_key(key) {
            Some(KeyAction::Left)
        } else if is_right_key(key) {
            Some(KeyAction::Right)
        } else if is_enter_key(key) {
            Some(KeyAction::Enter)
        } else if is_escape_key(key) {
            Some(KeyAction::Escape)
        } else if is_search_key(key) {
            Some(KeyAction::Search)
        } else if is_backspace_key(key) {
            Some(KeyAction::Backspace)
        } else {
            match is_printable_char(key) {
                Some(c) => Some(KeyAction::Char(c)),
                None => None,
            }
        }
    }

    /// Reads a key while the search text is being typed.
    pub fn from_search_key_event(key: KeyEvent) -> (action: Option<KeyAction>)
        ensures
            action == Self::of_search_key(key),
    {
        match is_printable_char(key) {
            Some(c) => Some(KeyAction::Char(c)),
            None => Self::from_key_event(key),
        }
    }
}

} // verus!
