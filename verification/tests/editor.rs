use sodium::cursor::Direction;
use sodium::editor::{Editor, Request, ScreenRow};
use sodium::state::{Key, Position, State};
use sodium::terminal::Size;
use sodium::Document;

const SCREEN: Size = Size { height: 3, width: 4 };

fn session_rows(editor: &Editor) -> Vec<String> {
    let document = editor.document();
    (0..document.len()).map(|y| document.line(y).unwrap().as_str().to_string()).collect()
}

fn typed(editor: &mut Editor, keys: &[Key]) {
    for &key in keys {
        editor.process_insert_keypress(key, &SCREEN);
    }
}

fn origin() -> Position {
    Position::default()
}

#[test]
fn new_editor_starts_in_the_top_left_corner() {
    let editor = Editor::new(Document::open("f", "ab"));
    assert_eq!(editor.cursor(), Position { x: 0, y: 0 });
    assert_eq!(editor.offset(), Position { x: 0, y: 0 });
    assert!(!editor.should_quit());
    assert_eq!(session_rows(&editor), ["ab"]);
    assert_eq!(origin(), Position { x: 0, y: 0 });
}

#[test]
fn typing_puts_characters_in_and_moves_the_cursor_on() {
    let mut editor = Editor::new(Document::default());
    typed(&mut editor, &[Key::Char('h'), Key::Char('i')]);
    assert_eq!(session_rows(&editor), ["hi"]);
    assert_eq!(editor.cursor(), Position { x: 2, y: 0 });
    assert!(editor.document().is_changed());
}

#[test]
fn enter_splits_the_row_and_goes_to_the_next() {
    let mut editor = Editor::new(Document::open("f", "ab"));
    typed(&mut editor, &[Key::Right, Key::Char('\n')]);
    assert_eq!(session_rows(&editor), ["a", "b"]);
    assert_eq!(editor.cursor(), Position { x: 0, y: 1 });
    typed(&mut editor, &[Key::Char('c')]);
    assert_eq!(session_rows(&editor), ["a", "cb"]);
    assert_eq!(editor.cursor(), Position { x: 1, y: 1 });
}

#[test]
fn delete_takes_out_what_stands_at_the_cursor() {
    let mut editor = Editor::new(Document::open("f", "ab\ncd"));
    typed(&mut editor, &[Key::Delete]);
    assert_eq!(session_rows(&editor), ["b", "cd"]);
    assert_eq!(editor.cursor(), Position { x: 0, y: 0 });
    typed(&mut editor, &[Key::Right, Key::Delete]);
    assert_eq!(session_rows(&editor), ["bcd"]);
    assert_eq!(editor.cursor(), Position { x: 1, y: 0 });
}

#[test]
fn backspace_takes_out_what_stands_before_the_cursor() {
    let mut editor = Editor::new(Document::open("f", "ab\ncd"));
    typed(&mut editor, &[Key::Backspace]);
    assert_eq!(session_rows(&editor), ["ab", "cd"]);
    assert!(!editor.document().is_changed());
    typed(&mut editor, &[Key::Right, Key::Backspace]);
    assert_eq!(session_rows(&editor), ["b", "cd"]);
    assert_eq!(editor.cursor(), Position { x: 0, y: 0 });
    typed(&mut editor, &[Key::Down, Key::Backspace]);
    assert_eq!(session_rows(&editor), ["bcd"]);
    assert_eq!(editor.cursor(), Position { x: 1, y: 0 });
    assert!(editor.document().is_changed());
}

#[test]
fn movement_keys_move_the_cursor() {
    let mut editor = Editor::new(Document::open("f", "abc\nde\nf\ng\nh"));
    typed(&mut editor, &[Key::End]);
    assert_eq!(editor.cursor(), Position { x: 4, y: 0 });
    typed(&mut editor, &[Key::Down]);
    assert_eq!(editor.cursor(), Position { x: 3, y: 1 });
    typed(&mut editor, &[Key::Home]);
    assert_eq!(editor.cursor(), Position { x: 1, y: 1 });
    typed(&mut editor, &[Key::Left, Key::Left]);
    assert_eq!(editor.cursor(), Position { x: 3, y: 0 });
    typed(&mut editor, &[Key::PageDown]);
    assert_eq!(editor.cursor(), Position { x: 2, y: 3 });
    typed(&mut editor, &[Key::PageUp, Key::Up]);
    assert_eq!(editor.cursor(), Position { x: 2, y: 0 });
    assert!(!editor.document().is_changed());
}

#[test]
fn the_window_follows_the_cursor() {
    let mut editor = Editor::new(Document::open("f", "abcdefgh\nb\nc\nd\ne"));
    typed(&mut editor, &[Key::Right, Key::Right, Key::Right]);
    assert_eq!(editor.offset(), Position { x: 0, y: 0 });
    typed(&mut editor, &[Key::Right, Key::Right]);
    assert_eq!(editor.cursor(), Position { x: 5, y: 0 });
    assert_eq!(editor.offset(), Position { x: 2, y: 0 });
    typed(&mut editor, &[Key::PageDown, Key::Down]);
    assert_eq!(editor.cursor(), Position { x: 2, y: 4 });
    assert_eq!(editor.offset(), Position { x: 2, y: 2 });
    typed(&mut editor, &[Key::Left, Key::Left, Key::Left, Key::Left]);
    assert_eq!(editor.cursor(), Position { x: 0, y: 3 });
    assert_eq!(editor.offset(), Position { x: 0, y: 2 });
}

#[test]
fn escape_ends_the_session() {
    let mut editor = Editor::new(Document::open("f", "ab"));
    assert_eq!(editor.process_insert_keypress(Key::Other, &SCREEN), Request::Nothing);
    assert!(!editor.should_quit());
    assert_eq!(editor.process_insert_keypress(Key::Esc, &SCREEN), Request::Nothing);
    assert!(editor.should_quit());
    assert_eq!(session_rows(&editor), ["ab"]);
}

#[test]
fn control_s_asks_for_a_save() {
    let mut editor = Editor::new(Document::open("f", "ab"));
    assert_eq!(editor.process_insert_keypress(Key::Ctrl('s'), &SCREEN), Request::Save);
    assert_eq!(editor.process_insert_keypress(Key::Ctrl('q'), &SCREEN), Request::Nothing);
    assert_eq!(editor.process_insert_keypress(Key::Char('s'), &SCREEN), Request::Nothing);
    assert_eq!(session_rows(&editor), ["sab"]);
}

#[test]
fn editor_move_and_scroll_by_hand() {
    let mut editor = Editor::new(Document::open("f", "abcdefgh"));
    for _ in 0..6 {
        editor.move_cursor(Direction::Right, &SCREEN);
    }
    assert_eq!(editor.cursor(), Position { x: 6, y: 0 });
    assert_eq!(editor.offset(), Position { x: 0, y: 0 });
    editor.scroll(&SCREEN);
    assert_eq!(editor.offset(), Position { x: 3, y: 0 });
    editor.scroll(&SCREEN);
    assert_eq!(editor.offset(), Position { x: 3, y: 0 });
}

#[test]
fn save_of_an_unnamed_document_needs_an_answer() {
    let mut editor = Editor::new(Document::default());
    assert!(editor.save_asks_name());
    assert_eq!(editor.suggested_name(), "");
    assert!(!editor.take_name(None));
    assert!(editor.document().filename().is_none());
    assert!(editor.save().is_none());
    assert!(editor.take_name(Some(String::from("out.txt"))));
    assert_eq!(editor.document().filename().map(|name| name.as_str()), Some("out.txt"));
    assert!(!editor.save_asks_name());
    assert_eq!(editor.save().unwrap().path, "out.txt");
}

#[test]
fn save_of_a_document_with_a_pending_name_suggests_it() {
    let mut editor = Editor::new(Document::new("draft.txt"));
    assert!(editor.save_asks_name());
    assert_eq!(editor.suggested_name(), "draft.txt");
    assert!(editor.take_name(Some(String::from("final.txt"))));
    assert_eq!(editor.document().filename().map(|name| name.as_str()), Some("final.txt"));
    assert!(editor.take_name(None));
    assert!(editor.document().filename().is_none());
    assert_eq!(editor.suggested_name(), "");
}

#[test]
fn mark_saved_after_typing() {
    let mut editor = Editor::new(Document::new("f"));
    typed(&mut editor, &[Key::Char('a'), Key::Char('\n'), Key::Char('b')]);
    assert!(editor.document().is_changed());
    let write = editor.save().unwrap();
    assert_eq!(write.path, "f");
    assert_eq!(write.text, "a\nb\n");
    editor.mark_saved();
    assert!(!editor.document().is_changed());
    assert_eq!(editor.cursor(), Position { x: 1, y: 1 });
}

#[test]
fn the_modes_are_four() {
    let modes = [State::Normal, State::Replace, State::Insert, State::Prompt];
    for (i, first) in modes.iter().enumerate() {
        for (j, second) in modes.iter().enumerate() {
            assert_eq!(first == second, i == j);
        }
    }
}

fn shown(editor: &Editor, row: u16) -> Option<String> {
    match editor.screen_row(row, &SCREEN) {
        ScreenRow::Text(drawing) => Some(drawing),
        ScreenRow::Welcome => Some(String::from("<welcome>")),
        ScreenRow::Blank => None,
    }
}

#[test]
fn screen_rows_show_the_part_of_the_document_in_the_window() {
    let mut editor = Editor::new(Document::open("f", "abcdefgh\n\tb\nc\nd\ne"));
    assert_eq!(shown(&editor, 0), Some(String::from("abcd")));
    assert_eq!(shown(&editor, 1), Some(String::from("    b")));
    assert_eq!(shown(&editor, 2), Some(String::from("c")));
    assert_eq!(shown(&editor, 4), Some(String::from("e")));
    assert_eq!(shown(&editor, 5), None);
    assert_eq!(shown(&editor, u16::MAX), None);
    typed(&mut editor, &[Key::Right, Key::Right, Key::Right, Key::Right, Key::Right]);
    typed(&mut editor, &[Key::PageDown, Key::Down]);
    assert_eq!(editor.offset(), Position { x: 2, y: 2 });
    assert_eq!(shown(&editor, 0), Some(String::new()));
    assert_eq!(shown(&editor, 2), Some(String::new()));
    assert_eq!(shown(&editor, 3), None);
    assert_eq!(editor.screen_cursor(), Position { x: 0, y: 2 });
}

#[test]
fn an_empty_document_shows_the_greeting_a_third_down() {
    let editor = Editor::new(Document::default());
    assert_eq!(shown(&editor, 0), None);
    assert_eq!(shown(&editor, 1), Some(String::from("<welcome>")));
    assert_eq!(shown(&editor, 2), None);
    let filled = Editor::new(Document::open("f", "a"));
    assert_eq!(shown(&filled, 1), None);
}

#[test]
fn screen_cursor_counts_from_the_window_corner() {
    let mut editor = Editor::new(Document::open("f", "abcdefgh"));
    assert_eq!(editor.screen_cursor(), Position { x: 0, y: 0 });
    typed(&mut editor, &[Key::End]);
    assert_eq!(editor.cursor(), Position { x: 9, y: 0 });
    assert_eq!(editor.offset(), Position { x: 6, y: 0 });
    assert_eq!(editor.screen_cursor(), Position { x: 3, y: 0 });
    editor.move_cursor(Direction::Home, &SCREEN);
    assert_eq!(editor.screen_cursor(), Position { x: 0, y: 0 });
}

#[test]
fn startup_without_a_file_name_has_an_unnamed_document() {
    let (editor, message) = Editor::startup(None, None);
    assert!(editor.document().is_empty());
    assert!(editor.document().filename().is_none());
    assert!(!editor.document().has_pending_name());
    assert!(!editor.document().is_changed());
    assert_eq!(message, " HELP: Ctrl-s = save | Esc = quit");
    assert_eq!(editor.cursor(), Position { x: 0, y: 0 });
    let (other, _) = Editor::startup(None, Some("ignored"));
    assert!(other.document().is_empty());
}

#[test]
fn startup_with_a_file_opens_it() {
    let (editor, message) = Editor::startup(Some("notes.txt"), Some("a\nbb"));
    assert_eq!(session_rows(&editor), ["a", "bb"]);
    assert_eq!(editor.document().filename().map(|name| name.as_str()), Some("notes.txt"));
    assert!(editor.document().has_pending_name());
    assert!(!editor.document().is_changed());
    assert!(!editor.should_quit());
    assert_eq!(message, " HELP: Ctrl-s = save | Esc = quit");
}

#[test]
fn startup_with_a_file_that_cannot_be_read_says_so() {
    let (editor, message) = Editor::startup(Some("missing.txt"), None);
    assert!(editor.document().is_empty());
    assert_eq!(editor.document().filename().map(|name| name.as_str()), Some("missing.txt"));
    assert!(editor.document().has_pending_name());
    assert_eq!(message, "ERR: Could not open file: missing.txt");
}
