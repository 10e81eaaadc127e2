use kekvim::{CursorStyle, Document, Editor, Frame, Key, Mode, Position, Row};

fn doc_of(lines: &[&str]) -> Document {
    let mut rows = Vec::new();
    for line in lines {
        rows.push(Row { text: (*line).to_string() });
    }
    Document { rows }
}

#[test]
fn new_session_starts_at_origin_navigating() {
    let ed = Editor::new(Document::new());
    assert!(!ed.should_quit);
    assert_eq!(ed.mode, Mode::Navigation);
    assert_eq!(ed.cursor_position, Position::default());
    assert_eq!(ed.cursor_position, Position { x: 0, y: 0 });
    assert!(ed.document.rows.is_empty());
}

#[test]
fn default_session_has_empty_document() {
    let ed = Editor::default();
    assert!(ed.document.rows.is_empty());
    assert_eq!(ed.cursor_position, Position { x: 0, y: 0 });
}

#[test]
fn up_at_origin_stays_at_origin() {
    let mut ed = Editor::new(Document::new());
    let style = ed.process_keypress(Key::Char('k'), 80, 24);
    assert_eq!(ed.cursor_position, Position { x: 0, y: 0 });
    assert_eq!(style, None);
}

#[test]
fn left_at_origin_stays_at_origin() {
    let mut ed = Editor::new(Document::new());
    ed.process_keypress(Key::Char('h'), 80, 24);
    assert_eq!(ed.cursor_position, Position { x: 0, y: 0 });
}

#[test]
fn right_clamps_at_last_column() {
    let mut ed = Editor::new(Document::new());
    ed.cursor_position = Position { x: 8, y: 3 };
    ed.process_keypress(Key::Char('l'), 10, 5);
    assert_eq!(ed.cursor_position, Position { x: 9, y: 3 });
    ed.process_keypress(Key::Char('l'), 10, 5);
    assert_eq!(ed.cursor_position, Position { x: 9, y: 3 });
}

#[test]
fn down_clamps_at_last_usable_row() {
    let mut ed = Editor::new(Document::new());
    ed.cursor_position = Position { x: 0, y: 3 };
    ed.process_keypress(Key::Char('j'), 10, 5);
    assert_eq!(ed.cursor_position, Position { x: 0, y: 4 });
    ed.process_keypress(Key::Char('j'), 10, 5);
    assert_eq!(ed.cursor_position, Position { x: 0, y: 4 });
}

#[test]
fn movement_sequence_stays_in_bounds() {
    let mut ed = Editor::new(Document::new());
    for key in ['j', 'j', 'j', 'l', 'l', 'k', 'h', 'k', 'k', 'k'] {
        ed.process_keypress(Key::Char(key), 3, 3);
        assert!(ed.cursor_position.x <= 2);
        assert!(ed.cursor_position.y <= 2);
    }
    assert_eq!(ed.cursor_position, Position { x: 1, y: 0 });
}

#[test]
fn entering_insertion_switches_mode_and_glyph() {
    let mut ed = Editor::new(Document::new());
    let style = ed.process_keypress(Key::Char('i'), 80, 24);
    assert_eq!(ed.mode, Mode::Insertion);
    assert_eq!(style, Some(CursorStyle::Bar));
}

#[test]
fn insertion_mode_suppresses_movement() {
    let mut ed = Editor::new(Document::new());
    ed.cursor_position = Position { x: 4, y: 4 };
    ed.process_keypress(Key::Char('i'), 80, 24);
    for key in ['j', 'k', 'h', 'l'] {
        let style = ed.process_keypress(Key::Char(key), 80, 24);
        assert_eq!(ed.cursor_position, Position { x: 4, y: 4 });
        assert_eq!(style, None);
    }
    let style = ed.process_keypress(Key::Esc, 80, 24);
    assert_eq!(ed.mode, Mode::Navigation);
    assert_eq!(style, Some(CursorStyle::Block));
}

#[test]
fn second_insertion_keypress_changes_nothing() {
    let mut ed = Editor::new(Document::new());
    ed.process_keypress(Key::Char('i'), 80, 24);
    let style = ed.process_keypress(Key::Char('i'), 80, 24);
    assert_eq!(ed.mode, Mode::Insertion);
    assert_eq!(style, None);
}

#[test]
fn escape_in_navigation_keeps_navigation() {
    let mut ed = Editor::new(Document::new());
    let style = ed.process_keypress(Key::Esc, 80, 24);
    assert_eq!(ed.mode, Mode::Navigation);
    assert_eq!(style, Some(CursorStyle::Block));
}

#[test]
fn control_q_sets_quit_flag() {
    let mut ed = Editor::new(Document::new());
    assert!(!ed.should_quit);
    ed.process_keypress(Key::Ctrl('q'), 80, 24);
    assert!(ed.should_quit);
}

#[test]
fn other_keys_are_ignored() {
    let mut ed = Editor::new(doc_of(&["line"]));
    ed.cursor_position = Position { x: 2, y: 1 };
    for key in [Key::Ctrl('x'), Key::Char('z'), Key::Other] {
        let style = ed.process_keypress(key, 80, 24);
        assert!(!ed.should_quit);
        assert_eq!(ed.mode, Mode::Navigation);
        assert_eq!(ed.cursor_position, Position { x: 2, y: 1 });
        assert_eq!(style, None);
    }
}

#[test]
fn quit_renders_goodbye_message() {
    let mut ed = Editor::new(Document::new());
    ed.process_keypress(Key::Ctrl('q'), 80, 24);
    let frame = ed.refresh_screen(80, 24);
    assert_eq!(frame, Frame::Goodbye { message: "Succesfully exited...".to_string() });
}

#[test]
fn run_moves_cursor_and_renders_next_frame() {
    let mut ed = Editor::new(Document::new());
    let (style, frame) = ed.run(Key::Char('j'), 80, 24);
    assert_eq!(style, None);
    assert_eq!(ed.cursor_position, Position { x: 0, y: 1 });
    match frame {
        Frame::Draw { rows, cursor } => {
            assert_eq!(rows.len(), 23);
            assert_eq!(cursor, Position { x: 0, y: 1 });
        }
        Frame::Goodbye { .. } => panic!("session is not quitting"),
    }
}

#[test]
fn run_on_quit_key_yields_goodbye_frame() {
    let mut ed = Editor::new(doc_of(&["one", "two"]));
    let (style, frame) = ed.run(Key::Ctrl('q'), 80, 24);
    assert_eq!(style, None);
    assert!(ed.should_quit);
    assert_eq!(frame, Frame::Goodbye { message: "Succesfully exited...".to_string() });
}
