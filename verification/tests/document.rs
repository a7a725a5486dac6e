use sodium::state::{Position, SearchDirection};
use sodium::{Document, Line};

fn written(document: &Document) -> Option<(String, String)> {
    document.save().map(|write| (write.path, write.text))
}

fn rows(document: &Document) -> Vec<String> {
    (0..document.len()).map(|y| document.line(y).unwrap().as_str().to_string()).collect()
}

#[test]
fn new_document_is_empty_and_bound_to_its_file() {
    let document = Document::new("notes.txt");
    assert!(document.is_empty());
    assert_eq!(document.len(), 0);
    assert_eq!(document.filename().map(|name| name.as_str()), Some("notes.txt"));
    assert!(document.has_pending_name());
    assert!(!document.is_changed());
    assert!(document.line(0).is_none());
}

#[test]
fn default_document_has_no_file() {
    let document = Document::default();
    assert!(document.is_empty());
    assert!(document.filename().is_none());
    assert!(!document.has_pending_name());
    assert!(!document.is_changed());
    assert!(document.save().is_none());
}

#[test]
fn loaded_document_has_one_row_per_line() {
    let document = Document::open("f", "a\nbb\nccc");
    assert_eq!(document.len(), 3);
    assert_eq!(document.line(1).unwrap().len(), 2);
    assert_eq!(rows(&document), ["a", "bb", "ccc"]);
    assert!(!document.is_changed());
    assert_eq!(document.filename().map(|name| name.as_str()), Some("f"));
    assert!(document.line(3).is_none());
}

#[test]
fn loading_splits_on_line_feeds_only() {
    assert_eq!(rows(&Document::open("f", "")), Vec::<String>::new());
    assert_eq!(rows(&Document::open("f", "\n")), [""]);
    assert_eq!(rows(&Document::open("f", "a")), ["a"]);
    assert_eq!(rows(&Document::open("f", "a\n")), ["a"]);
    assert_eq!(rows(&Document::open("f", "a\n\n")), ["a", ""]);
    assert_eq!(rows(&Document::open("f", "\n\nb")), ["", "", "b"]);
    assert_eq!(rows(&Document::open("f", "a\r\nb\r")), ["a\r", "b\r"]);
    assert_eq!(rows(&Document::open("f", "é\nö")), ["é", "ö"]);
}

#[test]
fn insert_newline_splits_the_row() {
    let mut document = Document::open("f", "ab");
    document.insert(&Position { x: 1, y: 0 }, '\n');
    assert_eq!(rows(&document), ["a", "b"]);
    assert!(document.is_changed());
}

#[test]
fn insert_newline_at_the_ends_of_a_row() {
    let mut document = Document::open("f", "ab\ncd");
    document.insert(&Position { x: 0, y: 1 }, '\n');
    assert_eq!(rows(&document), ["ab", "", "cd"]);
    document.insert(&Position { x: 2, y: 0 }, '\n');
    assert_eq!(rows(&document), ["ab", "", "", "cd"]);
    document.insert(&Position { x: 50, y: 3 }, '\n');
    assert_eq!(rows(&document), ["ab", "", "", "cd", ""]);
}

#[test]
fn insert_newline_at_the_place_of_appending_adds_two_empty_rows() {
    let mut document = Document::open("f", "ab");
    document.insert(&Position { x: 0, y: 1 }, '\n');
    assert_eq!(rows(&document), ["ab", "", ""]);
}

#[test]
fn insert_puts_a_character_into_its_row() {
    let mut document = Document::open("f", "ab\ncd");
    document.insert(&Position { x: 1, y: 1 }, 'X');
    assert_eq!(rows(&document), ["ab", "cXd"]);
    document.insert(&Position { x: 9, y: 0 }, 'Y');
    assert_eq!(rows(&document), ["abY", "cXd"]);
    assert!(document.is_changed());
}

#[test]
fn insert_at_the_place_of_appending_adds_a_row() {
    let mut document = Document::default();
    document.insert(&Position { x: 0, y: 0 }, 'a');
    assert_eq!(rows(&document), ["a"]);
    document.insert(&Position { x: 7, y: 1 }, 'b');
    assert_eq!(rows(&document), ["a", "b"]);
    assert!(document.is_changed());
}

#[test]
fn insert_beyond_the_place_of_appending_does_nothing() {
    let mut document = Document::open("f", "ab");
    document.insert(&Position { x: 0, y: 2 }, 'x');
    document.insert(&Position { x: 0, y: usize::MAX }, '\n');
    assert_eq!(rows(&document), ["ab"]);
    assert!(!document.is_changed());
}

#[test]
fn delete_at_the_end_of_a_row_joins_the_next_row() {
    let mut document = Document::open("f", "ab\ncd\nef");
    document.delete(&Position { x: 2, y: 0 });
    assert_eq!(rows(&document), ["abcd", "ef"]);
    assert_eq!(document.line(0).unwrap().len(), 4);
    assert!(document.is_changed());
}

#[test]
fn delete_inside_a_row_takes_out_one_cluster() {
    let mut document = Document::open("f", "abc\nde\u{301}f");
    document.delete(&Position { x: 1, y: 0 });
    assert_eq!(rows(&document), ["ac", "de\u{301}f"]);
    document.delete(&Position { x: 1, y: 1 });
    assert_eq!(rows(&document), ["ac", "df"]);
}

#[test]
fn delete_at_the_end_of_the_last_row_changes_no_row() {
    let mut document = Document::open("f", "ab\ncd");
    document.delete(&Position { x: 2, y: 1 });
    assert_eq!(rows(&document), ["ab", "cd"]);
    assert!(document.is_changed());
    document.delete(&Position { x: 40, y: 0 });
    assert_eq!(rows(&document), ["ab", "cd"]);
}

#[test]
fn delete_outside_the_rows_does_nothing() {
    let mut document = Document::open("f", "ab");
    document.delete(&Position { x: 0, y: 1 });
    document.delete(&Position { x: 0, y: usize::MAX });
    assert_eq!(rows(&document), ["ab"]);
    assert!(!document.is_changed());
    let mut empty = Document::default();
    empty.delete(&Position { x: 0, y: 0 });
    assert!(empty.is_empty());
    assert!(!empty.is_changed());
}

#[test]
fn find_forward_goes_down_the_rows() {
    let document = Document::open("f", "a\nbb\nccc");
    let origin = Position { x: 0, y: 0 };
    assert_eq!(
        document.find("bb", &origin, SearchDirection::Forward),
        Some(Position { x: 0, y: 1 })
    );
    assert_eq!(
        document.find("cc", &origin, SearchDirection::Forward),
        Some(Position { x: 0, y: 2 })
    );
    assert_eq!(document.find("zz", &origin, SearchDirection::Forward), None);
    assert_eq!(document.find("zz", &origin, SearchDirection::Backward), None);
}

#[test]
fn find_forward_starts_at_the_column_in_the_first_row_only() {
    let document = Document::open("f", "ab ab\nab");
    let find = |x, y| document.find("ab", &Position { x, y }, SearchDirection::Forward);
    assert_eq!(find(0, 0), Some(Position { x: 0, y: 0 }));
    assert_eq!(find(1, 0), Some(Position { x: 3, y: 0 }));
    assert_eq!(find(3, 0), Some(Position { x: 3, y: 0 }));
    assert_eq!(find(4, 0), Some(Position { x: 0, y: 1 }));
    assert_eq!(find(99, 0), Some(Position { x: 0, y: 1 }));
    assert_eq!(find(1, 1), None);
}

#[test]
fn find_does_not_go_round() {
    let document = Document::open("f", "needle\nhay\nhay");
    assert_eq!(document.find("needle", &Position { x: 1, y: 0 }, SearchDirection::Forward), None);
    assert_eq!(document.find("needle", &Position { x: 0, y: 2 }, SearchDirection::Forward), None);
    assert_eq!(document.find("hay", &Position { x: 0, y: 1 }, SearchDirection::Backward), None);
    assert_eq!(document.find("hay", &Position { x: 0, y: 3 }, SearchDirection::Forward), None);
    assert_eq!(document.find("hay", &Position { x: 0, y: 4 }, SearchDirection::Backward), None);
}

#[test]
fn find_backward_goes_up_the_rows() {
    let document = Document::open("f", "ab ab\nxx\nab");
    let find = |x, y| document.find("ab", &Position { x, y }, SearchDirection::Backward);
    assert_eq!(find(0, 0), None);
    assert_eq!(find(1, 0), Some(Position { x: 0, y: 0 }));
    assert_eq!(find(3, 0), Some(Position { x: 0, y: 0 }));
    assert_eq!(find(4, 0), Some(Position { x: 3, y: 0 }));
    assert_eq!(find(0, 1), Some(Position { x: 3, y: 0 }));
    assert_eq!(find(0, 2), Some(Position { x: 3, y: 0 }));
    assert_eq!(find(1, 2), Some(Position { x: 0, y: 2 }));
    // From the place of appending the search begins at the end of the last row.
    assert_eq!(find(0, 3), Some(Position { x: 0, y: 2 }));
    assert_eq!(find(0, 4), None);
}

#[test]
fn find_in_an_empty_document_finds_nothing() {
    let document = Document::default();
    let origin = Position { x: 0, y: 0 };
    assert_eq!(document.find("a", &origin, SearchDirection::Forward), None);
    assert_eq!(document.find("a", &origin, SearchDirection::Backward), None);
    assert_eq!(document.find("", &origin, SearchDirection::Forward), None);
}

#[test]
fn save_ends_each_row_with_a_line_feed() {
    let document = Document::open("notes/f.txt", "a\nbb\nccc");
    assert_eq!(
        written(&document),
        Some((String::from("notes/f.txt"), String::from("a\nbb\nccc\n")))
    );
    let text = |source| written(&Document::open("f", source)).unwrap().1;
    assert_eq!(text(""), "");
    assert_eq!(text("\n"), "\n");
    assert_eq!(text("a\n\nb"), "a\n\nb\n");
    assert_eq!(written(&Document::new("g")), Some((String::from("g"), String::new())));
}

#[test]
fn mark_saved_clears_the_change() {
    let mut document = Document::open("f", "a");
    document.insert(&Position { x: 1, y: 0 }, 'b');
    assert!(document.is_changed());
    document.mark_saved();
    assert!(!document.is_changed());
    assert_eq!(rows(&document), ["ab"]);
    assert_eq!(document.filename().map(|name| name.as_str()), Some("f"));
}

#[test]
fn set_filename_binds_the_document() {
    let mut document = Document::default();
    document.set_filename(Some(String::from("out.txt")));
    assert_eq!(document.filename().map(|name| name.as_str()), Some("out.txt"));
    assert_eq!(written(&document), Some((String::from("out.txt"), String::new())));
    document.set_filename(None);
    assert!(document.save().is_none());
    assert!(document.filename().is_none());
    assert!(!document.is_changed());
}

#[test]
fn save_then_open_gives_the_same_rows() {
    for source in ["", "a", "a\nbb\nccc", "\n\n", "tab\there\r\nnext", "é\n\nö\n"] {
        let mut document = Document::open("f", source);
        document.insert(&Position { x: 0, y: 0 }, 'x');
        document.insert(&Position { x: 1, y: 0 }, '\n');
        let written = document.save().unwrap().text;
        let reopened = Document::open("f", &written);
        assert_eq!(rows(&reopened), rows(&document));
        assert_eq!(reopened.save().unwrap().text, written);
    }
}

#[test]
fn line_from_and_document_rows_agree() {
    let document = Document::open("f", "héllo\nwörld");
    let line = Line::from("wörld");
    assert_eq!(document.line(1).unwrap().as_bytes(), line.as_bytes());
    assert_eq!(document.line(1).unwrap().len(), line.len());
}
