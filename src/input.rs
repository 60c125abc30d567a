use vstd::prelude::*;

use crate::mode::Mode;

verus! {

/// The code of a pressed key, as far as the bindings tell keys apart.
#[derive(Clone, Copy, Debug, PartialEq, Eq, Structural)]
pub enum Key {
    Char(char),
    Up,
    Down,
    Left,
    Right,
    Esc,
    Enter,
    /// Any key that no binding names (function keys, Tab, Backspace, ...).
    Other,
}

/// One input event from the terminal.
#[derive(Clone, Copy, Debug, PartialEq, Eq, Structural)]
pub enum Event {
    Key(Key),
    /// Anything that is not a key press: a resize, the mouse, a paste, focus.
    Other,
}

/// One unit of intended change, produced from an event and consumed once.
#[derive(Clone, Copy, Debug, PartialEq, Eq, Structural)]
pub enum Action {
    Quit,
    ChangeMode(Mode),
    MoveUp,
    MoveDown,
    MoveLeft,
    MoveRight,
    AddChar(char),
    NewLine,
}

/// The Normal-mode binding table.
pub open spec fn normal_binding(k: Key) -> Option<Action> {
    match k {
        Key::Char('q') => Some(Action::Quit),
        Key::Char('i') => Some(Action::ChangeMode(Mode::Insert)),
        Key::Up | Key::Char('k') => Some(Action::MoveUp),
        Key::Down | Key::Char('j') => Some(Action::MoveDown),
        Key::Left | Key::Char('h') => Some(Action::MoveLeft),
        Key::Right | Key::Char('l') => Some(Action::MoveRight),
        _ => None,
    }
}

/// The Insert-mode binding table.
pub open spec fn insert_binding(k: Key) -> Option<Action> {
    match k {
        Key::Esc => Some(Action::ChangeMode(Mode::Normal)),
        Key::Char(c) => Some(Action::AddChar(c)),
        Key::Up => Some(Action::MoveUp),
        Key::Down => Some(Action::MoveDown),
        Key::Left => Some(Action::MoveLeft),
        Key::Right => Some(Action::MoveRight),
        Key::Enter => Some(Action::NewLine),
        Key::Other => None,
    }
}

/// The action, if any, that an event stands for in a mode. Events that are
/// not key presses stand for nothing in every mode.
pub open spec fn dispatch(m: Mode, e: Event) -> Option<Action> {
    match e {
        Event::Key(k) => match m {
            Mode::Normal => normal_binding(k),
            Mode::Insert => insert_binding(k),
        },
        Event::Other => None,
    }
}

/// Classifies an event under the Normal-mode bindings.
pub fn handle_normal_event(e: &Event) -> (r: Option<Action>)
    ensures
        r == dispatch(Mode::Normal, *e),
{
    match e {
        Event::Key(k) => match k {
            Key::Char('q') => Some(Action::Quit),
            Key::Char('i') => Some(Action::ChangeMode(Mode::Insert)),
            Key::Up | Key::Char('k') => Some(Action::MoveUp),
            Key::Down | Key::Char('j') => Some(Action::MoveDown),
            Key::Left | Key::Char('h') => Some(Action::MoveLeft),
            Key::Right | Key::Char('l') => Some(Action::MoveRight),
            _ => None,
        },
        Event::Other => None,
    }
}

/// Classifies an event under the Insert-mode bindings.
pub fn handle_insert_event(e: &Event) -> (r: Option<Action>)
    ensures
        r == dispatch(Mode::Insert, *e),
{
    match e {
        Event::Key(k) => match k {
            Key::Esc => Some(Action::ChangeMode(Mode::Normal)),
            Key::Char(c) => Some(Action::AddChar(*c)),
            Key::Up => Some(Action::MoveUp),
            Key::Down => Some(Action::MoveDown),
            Key::Left => Some(Action::MoveLeft),
            Key::Right => Some(Action::MoveRight),
            Key::Enter => Some(Action::NewLine),
            Key::Other => None,
        },
        Event::Other => None,
    }
}

/// Classifies an event under the bindings of the given mode.
pub fn handle_event(m: Mode, e: &Event) -> (r: Option<Action>)
    ensures
        r == dispatch(m, *e),
{
    match m {
        Mode::Normal => handle_normal_event(e),
        Mode::Insert => handle_insert_event(e),
    }
}

} // verus!
