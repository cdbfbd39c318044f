use vstd::prelude::*;

verus! {

/// The editor's interpretation context.
#[derive(Clone, Copy, Debug, PartialEq, Eq, Structural)]
pub enum Mode {
    /// Navigation and commands.
    Normal,
    /// Literal character entry.
    Insert,
}

/// A semantic command, the only way the editing state changes.
#[derive(Clone, Copy, Debug, PartialEq, Eq, Structural)]
pub enum Action {
    MoveLeft,
    MoveUp,
    MoveRight,
    MoveDown,
    MoveToLineBegin,
    /// Removes the character before the cursor.
    DeleteChar,
    /// Splits the line at the cursor, carrying its indentation over.
    InsertNewLine,
    ChangeMode(Mode),
    InsertChar(char),
    Quit,
}

/// A key press, as far as the editor tells keys apart.
#[derive(Clone, Copy, Debug, PartialEq, Eq, Structural)]
pub enum Key {
    Char(char),
    Left,
    Right,
    Up,
    Down,
    Esc,
    Backspace,
    Enter,
    Other,
}

/// An input event from the terminal.
#[derive(Clone, Copy, Debug, PartialEq, Eq, Structural)]
pub enum Event {
    Key(Key),
    /// New terminal size: columns, then rows.
    Resize(u16, u16),
    Other,
}

/// The action that `key` stands for in normal mode.
pub open spec fn normal_key_action(key: Key) -> Option<Action> {
    match key {
        Key::Char('q') => Some(Action::Quit),
        Key::Char('i') => Some(Action::ChangeMode(Mode::Insert)),
        Key::Char('o') => Some(Action::InsertNewLine),
        Key::Char('0') => Some(Action::MoveToLineBegin),
        Key::Char('h') | Key::Left => Some(Action::MoveLeft),
        Key::Char('l') | Key::Right => Some(Action::MoveRight),
        Key::Char('k') | Key::Up => Some(Action::MoveUp),
        Key::Char('j') | Key::Down => Some(Action::MoveDown),
        _ => None,
    }
}

/// The action that `key` stands for in insert mode.
pub open spec fn insert_key_action(key: Key) -> Option<Action> {
    match key {
        Key::Esc => Some(Action::ChangeMode(Mode::Normal)),
        Key::Backspace => Some(Action::DeleteChar),
        Key::Enter => Some(Action::InsertNewLine),
        Key::Char(c) => Some(Action::InsertChar(c)),
        _ => None,
    }
}

/// The action that `event` stands for in `mode`; only key presses have one.
pub open spec fn event_action(mode: Mode, event: Event) -> Option<Action> {
    match event {
        Event::Key(key) => match mode {
            Mode::Normal => normal_key_action(key),
            Mode::Insert => insert_key_action(key),
        },
        _ => None,
    }
}

pub fn handle_normal_mode(event: Event) -> (r: Option<Action>)
    ensures
        r == event_action(Mode::Normal, event),
{
    match event {
        Event::Key(key) => match key {
            Key::Char('q') => Some(Action::Quit),
            Key::Char('i') => Some(Action::ChangeMode(Mode::Insert)),
            Key::Char('o') => Some(Action::InsertNewLine),
            Key::Char('0') => Some(Action::MoveToLineBegin),
            Key::Char('h') | Key::Left => Some(Action::MoveLeft),
            Key::Char('l') | Key::Right => Some(Action::MoveRight),
            Key::Char('k') | Key::Up => Some(Action::MoveUp),
            Key::Char('j') | Key::Down => Some(Action::MoveDown),
            _ => None,
        },
        _ => None,
    }
}

pub fn handle_insert_mode(event: Event) -> (r: Option<Action>)
    ensures
        r == event_action(Mode::Insert, event),
{
    match event {
        Event::Key(key) => match key {
            Key::Esc => Some(Action::ChangeMode(Mode::Normal)),
            Key::Backspace => Some(Action::DeleteChar),
            Key::Enter => Some(Action::InsertNewLine),
            Key::Char(c) => Some(Action::InsertChar(c)),
            _ => None,
        },
        _ => None,
    }
}

} // verus!
