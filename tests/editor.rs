use modal_editor::editor::{Cursor, Editor, Flow};
use modal_editor::input::{Action, Event, Key};
use modal_editor::mode::{CursorStyle, Mode};
use modal_editor::terminal::Command;

fn at(width: u16, x: u16, y: u16) -> Editor {
    let mut e = Editor::new(width, 24);
    e.cursor = Cursor { x, y };
    e
}

#[test]
fn new_editor_starts_normal_at_origin() {
    let e = Editor::new(80, 24);
    assert_eq!(e.mode, Mode::Normal);
    assert_eq!(e.cursor, Cursor { x: 0, y: 0 });
    assert_eq!((e.width, e.height), (80, 24));
}

#[test]
fn move_up_saturates_at_top() {
    let mut e = at(80, 3, 0);
    let mut out = Vec::new();
    for _ in 0..5 {
        assert_eq!(e.apply(Action::MoveUp, &mut out), Flow::Continue);
        assert_eq!(e.cursor.y, 0);
    }
    assert_eq!(e.cursor.x, 3);
    assert!(out.is_empty());
}

#[test]
fn move_left_saturates_at_edge() {
    let mut e = at(80, 0, 4);
    let mut out = Vec::new();
    for _ in 0..5 {
        e.apply(Action::MoveLeft, &mut out);
        assert_eq!(e.cursor.x, 0);
    }
    assert_eq!(e.cursor.y, 4);
}

#[test]
fn moves_in_four_directions() {
    let mut e = at(80, 2, 2);
    let mut out = Vec::new();
    e.apply(Action::MoveDown, &mut out);
    assert_eq!(e.cursor, Cursor { x: 2, y: 3 });
    e.apply(Action::MoveRight, &mut out);
    assert_eq!(e.cursor, Cursor { x: 3, y: 3 });
    e.apply(Action::MoveUp, &mut out);
    assert_eq!(e.cursor, Cursor { x: 3, y: 2 });
    e.apply(Action::MoveLeft, &mut out);
    assert_eq!(e.cursor, Cursor { x: 2, y: 2 });
    assert!(out.is_empty());
}

#[test]
fn moves_hold_at_largest_coordinate() {
    let mut e = at(80, u16::MAX, u16::MAX);
    let mut out = Vec::new();
    e.apply(Action::MoveDown, &mut out);
    e.apply(Action::MoveRight, &mut out);
    assert_eq!(e.cursor, Cursor { x: u16::MAX, y: u16::MAX });
}

#[test]
fn change_mode_twice_equals_once_and_styles_each_time() {
    let mut once = Editor::new(80, 24);
    let mut out_once = Vec::new();
    once.apply(Action::ChangeMode(Mode::Insert), &mut out_once);

    let mut twice = Editor::new(80, 24);
    let mut out_twice = Vec::new();
    twice.apply(Action::ChangeMode(Mode::Insert), &mut out_twice);
    twice.apply(Action::ChangeMode(Mode::Insert), &mut out_twice);

    assert_eq!(once, twice);
    assert_eq!(once.mode, Mode::Insert);
    assert_eq!(out_once, vec![Command::SetCursorStyle(CursorStyle::BlinkingBar)]);
    assert_eq!(
        out_twice,
        vec![
            Command::SetCursorStyle(CursorStyle::BlinkingBar),
            Command::SetCursorStyle(CursorStyle::BlinkingBar),
        ]
    );
}

#[test]
fn add_char_at_width_wraps() {
    let mut e = at(80, 80, 5);
    let mut out = Vec::new();
    assert_eq!(e.apply(Action::AddChar('a'), &mut out), Flow::Continue);
    assert_eq!(e.cursor, Cursor { x: 0, y: 6 });
    assert_eq!(out, vec![Command::MoveTo(80, 5), Command::Print('a')]);
}

#[test]
fn add_char_before_width_does_not_wrap() {
    let mut e = at(80, 79, 5);
    let mut out = Vec::new();
    e.apply(Action::AddChar('b'), &mut out);
    assert_eq!(e.cursor, Cursor { x: 80, y: 5 });
    assert_eq!(out, vec![Command::MoveTo(79, 5), Command::Print('b')]);
}

#[test]
fn add_char_at_largest_column_wraps() {
    let mut e = at(u16::MAX, u16::MAX, 1);
    let mut out = Vec::new();
    e.apply(Action::AddChar('c'), &mut out);
    assert_eq!(e.cursor, Cursor { x: 0, y: 2 });
}

#[test]
fn new_line_goes_to_start_of_next_row() {
    let mut e = at(80, 17, 3);
    let mut out = Vec::new();
    e.apply(Action::NewLine, &mut out);
    assert_eq!(e.cursor, Cursor { x: 0, y: 4 });
    assert!(out.is_empty());
}

#[test]
fn quit_changes_nothing_and_stops() {
    let mut e = at(80, 7, 8);
    let before = e;
    let mut out = Vec::new();
    assert_eq!(e.apply(Action::Quit, &mut out), Flow::Quit);
    assert_eq!(e, before);
    assert!(out.is_empty());
}

#[test]
fn step_ignores_unbound_and_non_key_events() {
    let mut e = at(80, 7, 8);
    let before = e;
    let mut out = Vec::new();
    assert_eq!(e.step(&Event::Other, &mut out), Flow::Continue);
    assert_eq!(e.step(&Event::Key(Key::Char('z')), &mut out), Flow::Continue);
    assert_eq!(e.step(&Event::Key(Key::Enter), &mut out), Flow::Continue);
    assert_eq!(e, before);
    assert!(out.is_empty());
}

#[test]
fn handle_event_uses_current_mode() {
    let mut e = Editor::new(80, 24);
    assert_eq!(e.handle_event(&Event::Key(Key::Char('j'))), Some(Action::MoveDown));
    e.mode = Mode::Insert;
    assert_eq!(e.handle_event(&Event::Key(Key::Char('j'))), Some(Action::AddChar('j')));
}
