use modal_editor::input::{handle_event, handle_insert_event, handle_normal_event, Action, Event, Key};
use modal_editor::mode::{CursorStyle, Mode};

fn key(k: Key) -> Event {
    Event::Key(k)
}

#[test]
fn normal_mode_bindings() {
    let cases = [
        (Key::Char('q'), Some(Action::Quit)),
        (Key::Char('i'), Some(Action::ChangeMode(Mode::Insert))),
        (Key::Up, Some(Action::MoveUp)),
        (Key::Char('k'), Some(Action::MoveUp)),
        (Key::Down, Some(Action::MoveDown)),
        (Key::Char('j'), Some(Action::MoveDown)),
        (Key::Left, Some(Action::MoveLeft)),
        (Key::Char('h'), Some(Action::MoveLeft)),
        (Key::Right, Some(Action::MoveRight)),
        (Key::Char('l'), Some(Action::MoveRight)),
        (Key::Char('x'), None),
        (Key::Esc, None),
        (Key::Enter, None),
        (Key::Other, None),
    ];
    for (k, expected) in cases {
        assert_eq!(handle_normal_event(&key(k)), expected, "{:?}", k);
    }
}

#[test]
fn insert_mode_bindings() {
    let cases = [
        (Key::Esc, Some(Action::ChangeMode(Mode::Normal))),
        (Key::Char('q'), Some(Action::AddChar('q'))),
        (Key::Char('i'), Some(Action::AddChar('i'))),
        (Key::Char(' '), Some(Action::AddChar(' '))),
        (Key::Up, Some(Action::MoveUp)),
        (Key::Down, Some(Action::MoveDown)),
        (Key::Left, Some(Action::MoveLeft)),
        (Key::Right, Some(Action::MoveRight)),
        (Key::Enter, Some(Action::NewLine)),
        (Key::Other, None),
    ];
    for (k, expected) in cases {
        assert_eq!(handle_insert_event(&key(k)), expected, "{:?}", k);
    }
}

#[test]
fn bindings_do_not_leak_across_modes() {
    assert_eq!(handle_event(Mode::Normal, &key(Key::Down)), Some(Action::MoveDown));
    assert_eq!(handle_event(Mode::Normal, &key(Key::Char('j'))), Some(Action::MoveDown));
    assert_eq!(handle_event(Mode::Insert, &key(Key::Char('j'))), Some(Action::AddChar('j')));
    assert_eq!(handle_event(Mode::Insert, &key(Key::Down)), Some(Action::MoveDown));
}

#[test]
fn non_key_events_give_no_action() {
    assert_eq!(handle_event(Mode::Normal, &Event::Other), None);
    assert_eq!(handle_event(Mode::Insert, &Event::Other), None);
}

#[test]
fn cursor_style_and_label_follow_mode() {
    assert_eq!(Mode::Normal.get_cursor_style(), CursorStyle::SteadyBlock);
    assert_eq!(Mode::Insert.get_cursor_style(), CursorStyle::BlinkingBar);
    assert_eq!(Mode::Normal.label(), "NORMAL");
    assert_eq!(Mode::Insert.label(), "INSERT");
}
