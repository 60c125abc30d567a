//! Properties that relate several calls, or hold of every input.
use vstd::prelude::*;

use crate::editor::{apply_all, effects, next_state, Cursor, Editor};
use crate::input::{dispatch, Action, Event};
use crate::mode::{style_of, Mode};
use crate::render::{
    filler_segment, filler_width, lemma_position_segment_len, mode_segment, placeholder,
    status_commands, status_segments, total_width, STATUS_MIN_WIDTH,
};
use crate::terminal::CommandView;

verus! {

/// Moving up any number of times from the top row keeps the cursor on the
/// top row.
pub proof fn lemma_move_up_stays_at_top(e: Editor, acts: Seq<Action>)
    requires
        e.cursor.y == 0,
        forall|i: int| 0 <= i < acts.len() ==> acts[i] == Action::MoveUp,
    ensures
        apply_all(e, acts).cursor.y == 0,
    decreases acts.len(),
{
    if acts.len() > 0 {
        lemma_move_up_stays_at_top(next_state(e, acts[0]), acts.drop_first());
    }
}

/// Moving left any number of times from the first column keeps the cursor
/// in the first column.
pub proof fn lemma_move_left_stays_at_edge(e: Editor, acts: Seq<Action>)
    requires
        e.cursor.x == 0,
        forall|i: int| 0 <= i < acts.len() ==> acts[i] == Action::MoveLeft,
    ensures
        apply_all(e, acts).cursor.x == 0,
    decreases acts.len(),
{
    if acts.len() > 0 {
        lemma_move_left_stays_at_edge(next_state(e, acts[0]), acts.drop_first());
    }
}

/// Changing to the same mode twice leaves the state of changing once, and
/// each of the two changes queues the mode's cursor style exactly once.
pub proof fn lemma_change_mode_idempotent(e: Editor, m: Mode)
    ensures
        next_state(next_state(e, Action::ChangeMode(m)), Action::ChangeMode(m)) == next_state(
            e,
            Action::ChangeMode(m),
        ),
        next_state(e, Action::ChangeMode(m)).mode == m,
        effects(e, Action::ChangeMode(m)) == seq![CommandView::SetCursorStyle(style_of(m))],
        effects(next_state(e, Action::ChangeMode(m)), Action::ChangeMode(m)) == seq![
            CommandView::SetCursorStyle(style_of(m)),
        ],
{
}

/// An event that is not a key press stands for no action, in every mode.
pub proof fn lemma_non_key_event_ignored(m: Mode)
    ensures
        dispatch(m, Event::Other) is None,
{
}

/// A character written with the cursor at the terminal's width is written
/// there, and the cursor wraps to the start of the next row.
pub proof fn lemma_add_char_wraps_at_width(e: Editor, c: char)
    requires
        e.cursor.x == e.width,
        e.cursor.y < u16::MAX,
    ensures
        next_state(e, Action::AddChar(c)).cursor == (Cursor { x: 0, y: (e.cursor.y + 1) as u16 }),
        effects(e, Action::AddChar(c)) == seq![
            CommandView::MoveTo(e.cursor.x, e.cursor.y),
            CommandView::Print(c),
        ],
{
}

/// A character written one cell before the terminal's width moves the
/// cursor one cell right, on the same row.
pub proof fn lemma_add_char_no_wrap_before_width(e: Editor, c: char)
    requires
        e.width >= 1,
        e.cursor.x == e.width - 1,
    ensures
        next_state(e, Action::AddChar(c)).cursor == (Cursor { x: e.width, y: e.cursor.y }),
{
}

/// On every terminal at least `STATUS_MIN_WIDTH` wide and two rows high the
/// status line is drawn, and its segments (mode, separator, filler,
/// separator, position) span exactly the terminal's width.
pub proof fn lemma_status_line_spans_width(e: Editor)
    requires
        e.width >= STATUS_MIN_WIDTH,
        e.height >= 2,
    ensures
        status_commands(e).len() == 6,
        status_segments(e).len() == 5,
        forall|i: int|
            0 <= i < 5 ==> ((#[trigger] status_commands(e)[i + 1]) matches CommandView::PrintStyled(
                t,
                _,
            ) && t == status_segments(e)[i]),
        total_width(status_segments(e)) == e.width,
{
    lemma_position_segment_len(e.cursor);
    assert(mode_segment(e.mode).len() == 8);
    assert(filler_width(e) >= placeholder().len());
    assert(filler_segment(e).len() == filler_width(e));
    reveal_with_fuel(total_width, 6);
    let segs = status_segments(e);
    assert(segs.drop_first().drop_first().drop_first().drop_first().drop_first().len() == 0);
}

} // verus!
