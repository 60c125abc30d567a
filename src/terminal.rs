use vstd::prelude::*;

use crate::mode::CursorStyle;

verus! {

/// A terminal colour used by the status line.
#[derive(Clone, Copy, Debug, PartialEq, Eq, Structural)]
pub enum Color {
    Black,
    Grey,
    DarkCyan,
}

/// How a piece of text is drawn.
#[derive(Clone, Copy, Debug, PartialEq, Eq, Structural)]
pub struct Style {
    pub fg: Color,
    pub bg: Color,
    pub bold: bool,
}

/// One queued operation on the terminal. A caller performs these in order;
/// nothing becomes visible before a `Flush`.
#[derive(Debug, PartialEq, Eq)]
pub enum Command {
    SetCursorStyle(CursorStyle),
    /// Moves the write cursor to column `.0`, row `.1`.
    MoveTo(u16, u16),
    Print(char),
    PrintStyled(Vec<char>, Style),
    Flush,
}

/// What a command means, with its text as a sequence.
pub enum CommandView {
    SetCursorStyle(CursorStyle),
    MoveTo(u16, u16),
    Print(char),
    PrintStyled(Seq<char>, Style),
    Flush,
}

impl View for Command {
    type V = CommandView;

    open spec fn view(&self) -> CommandView {
        match self {
            Command::SetCursorStyle(s) => CommandView::SetCursorStyle(*s),
            Command::MoveTo(x, y) => CommandView::MoveTo(*x, *y),
            Command::Print(c) => CommandView::Print(*c),
            Command::PrintStyled(t, s) => CommandView::PrintStyled(t@, *s),
            Command::Flush => CommandView::Flush,
        }
    }
}

/// The meaning of a queue of commands.
pub open spec fn commands_view(q: Seq<Command>) -> Seq<CommandView> {
    q.map_values(|c: Command| c@)
}

/// Queuing a command adds its meaning at the end.
pub proof fn lemma_commands_view_push(q: Seq<Command>, c: Command)
    ensures
        commands_view(q.push(c)) == commands_view(q).push(c@),
{
    assert(commands_view(q.push(c)) =~= commands_view(q).push(c@));
}

/// Queues one command.
pub fn queue(out: &mut Vec<Command>, c: Command)
    ensures
        final(out)@ == old(out)@.push(c),
        commands_view(final(out)@) == commands_view(old(out)@).push(c@),
{
    let ghost before = out@;
    out.push(c);
    proof {
        lemma_commands_view_push(before, c);
    }
}

} // verus!
