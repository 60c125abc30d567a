use vstd::prelude::*;

use crate::input::{dispatch, handle_event, Action, Event};
use crate::mode::{style_of, Mode};
use crate::terminal::{commands_view, queue, Command, CommandView};

verus! {

/// A cell position on the terminal, `(0, 0)` at the top left.
#[derive(Clone, Copy, Debug, PartialEq, Eq, Structural)]
pub struct Cursor {
    pub x: u16,
    pub y: u16,
}

/// The editor's state: its mode, its cursor, and the terminal size taken
/// once when it was made.
///
/// Coordinates grow without a ceiling of the editor's own; they stop only at
/// the largest value a terminal cell coordinate can hold.
#[derive(Clone, Copy, Debug, PartialEq, Eq, Structural)]
pub struct Editor {
    pub mode: Mode,
    pub cursor: Cursor,
    pub width: u16,
    pub height: u16,
}

/// Whether the run loop goes on after an action.
#[derive(Clone, Copy, Debug, PartialEq, Eq, Structural)]
pub enum Flow {
    Continue,
    Quit,
}

/// One less, but never below zero.
pub open spec fn dec(v: u16) -> u16 {
    if v == 0 { 0 } else { (v - 1) as u16 }
}

/// One more, held at the largest coordinate.
pub open spec fn inc(v: u16) -> u16 {
    if v == u16::MAX { u16::MAX } else { (v + 1) as u16 }
}

/// The cursor after a character was written at `c` on a terminal `width`
/// cells wide: one step right, or the start of the next row once it is
/// past the right edge.
pub open spec fn advance(c: Cursor, width: u16) -> Cursor {
    if c.x + 1 > width {
        Cursor { x: 0, y: inc(c.y) }
    } else {
        Cursor { x: (c.x + 1) as u16, y: c.y }
    }
}

/// The state after an action.
pub open spec fn next_state(e: Editor, a: Action) -> Editor {
    let c = e.cursor;
    match a {
        Action::Quit => e,
        Action::ChangeMode(m) => Editor { mode: m, ..e },
        Action::MoveUp => Editor { cursor: Cursor { y: dec(c.y), ..c }, ..e },
        Action::MoveDown => Editor { cursor: Cursor { y: inc(c.y), ..c }, ..e },
        Action::MoveLeft => Editor { cursor: Cursor { x: dec(c.x), ..c }, ..e },
        Action::MoveRight => Editor { cursor: Cursor { x: inc(c.x), ..c }, ..e },
        Action::AddChar(_) => Editor { cursor: advance(c, e.width), ..e },
        Action::NewLine => Editor { cursor: Cursor { x: 0, y: inc(c.y) }, ..e },
    }
}

/// The terminal commands that an action queues, given the state before it.
pub open spec fn effects(e: Editor, a: Action) -> Seq<CommandView> {
    match a {
        Action::ChangeMode(m) => seq![CommandView::SetCursorStyle(style_of(m))],
        Action::AddChar(ch) => seq![
            CommandView::MoveTo(e.cursor.x, e.cursor.y),
            CommandView::Print(ch),
        ],
        _ => Seq::empty(),
    }
}

/// Whether an action ends the run loop.
pub open spec fn flow_of(a: Action) -> Flow {
    match a {
        Action::Quit => Flow::Quit,
        _ => Flow::Continue,
    }
}

/// The state after applying the actions in order.
pub open spec fn apply_all(e: Editor, acts: Seq<Action>) -> Editor
    decreases acts.len(),
{
    if acts.len() == 0 {
        e
    } else {
        apply_all(next_state(e, acts[0]), acts.drop_first())
    }
}

fn dec_u16(v: u16) -> (r: u16)
    ensures
        r == dec(v),
{
    if v == 0 { 0 } else { v - 1 }
}

fn inc_u16(v: u16) -> (r: u16)
    ensures
        r == inc(v),
{
    if v == u16::MAX { u16::MAX } else { v + 1 }
}

impl Editor {
    /// A fresh editor on a terminal of the given size: Normal mode, cursor at
    /// the top left.
    pub fn new(width: u16, height: u16) -> (r: Editor)
        ensures
            r.mode == Mode::Normal,
            r.cursor == (Cursor { x: 0, y: 0 }),
            r.width == width,
            r.height == height,
    {
        Editor { mode: Mode::Normal, cursor: Cursor { x: 0, y: 0 }, width, height }
    }

    /// The action, if any, that an event stands for in the current mode.
    pub fn handle_event(&self, e: &Event) -> (r: Option<Action>)
        ensures
            r == dispatch(self.mode, *e),
    {
        handle_event(self.mode, e)
    }

    /// Applies one action: updates the state and queues the action's terminal
    /// commands on `out`. A mode change queues the new mode's cursor style in
    /// the same step. Every action succeeds.
    pub fn apply(&mut self, a: Action, out: &mut Vec<Command>) -> (r: Flow)
        ensures
            *final(self) == next_state(*old(self), a),
            commands_view(final(out)@) == commands_view(old(out)@) + effects(*old(self), a),
            r == flow_of(a),
    {
        let ghost before = out@;
        match a {
            Action::Quit => {
                return Flow::Quit;
            },
            Action::ChangeMode(m) => {
                queue(out, Command::SetCursorStyle(m.get_cursor_style()));
                self.mode = m;
            },
            Action::MoveUp => {
                self.cursor.y = dec_u16(self.cursor.y);
            },
            Action::MoveDown => {
                self.cursor.y = inc_u16(self.cursor.y);
            },
            Action::MoveLeft => {
                self.cursor.x = dec_u16(self.cursor.x);
            },
            Action::MoveRight => {
                self.cursor.x = inc_u16(self.cursor.x);
            },
            Action::AddChar(c) => {
                queue(out, Command::MoveTo(self.cursor.x, self.cursor.y));
                queue(out, Command::Print(c));
                if self.cursor.x as u32 + 1 > self.width as u32 {
                    self.cursor.y = inc_u16(self.cursor.y);
                    self.cursor.x = 0;
                } else {
                    self.cursor.x = self.cursor.x + 1;
                }
            },
            Action::NewLine => {
                self.cursor.x = 0;
                self.cursor.y = inc_u16(self.cursor.y);
            },
        }
        assert(commands_view(out@) =~= commands_view(before) + effects(*old(self), a));
        Flow::Continue
    }

    /// Handles one input event: classifies it in the current mode and applies
    /// the action, if any. An event that stands for no action changes nothing.
    pub fn step(&mut self, e: &Event, out: &mut Vec<Command>) -> (r: Flow)
        ensures
            match dispatch(old(self).mode, *e) {
                Some(a) => {
                    &&& *final(self) == next_state(*old(self), a)
                    &&& commands_view(final(out)@) == commands_view(old(out)@) + effects(
                        *old(self),
                        a,
                    )
                    &&& r == flow_of(a)
                },
                None => {
                    &&& *final(self) == *old(self)
                    &&& final(out)@ == old(out)@
                    &&& r == Flow::Continue
                },
            },
    {
        match self.handle_event(e) {
            Some(a) => self.apply(a, out),
            None => Flow::Continue,
        }
    }
}

} // verus!
