//! The editing session: a document, the cursor in it and the window on it,
//! moved on by one key at a time.

use crate::cursor::{move_cursor, moved, Direction};
use crate::document::{
    file_text, lines_of, rows_after_delete, rows_after_insert, Document, FileWrite,
};
use crate::line::{lemma_columns_fit, rendered};
use crate::search::{Search, SearchOutcome};
use crate::state::{Key, Position};
use crate::terminal::Size;
use crate::viewport::{scroll, scrolled, shows};
use vstd::prelude::*;
use vstd::string::*;

verus! {

/// What the session asks of its caller after a key.
#[derive(Clone, Copy, Debug, PartialEq, Eq, Structural)]
pub enum Request {
    /// Nothing but to draw the screen again.
    Nothing,
    /// To save the document.
    Save,
}

/// The movement that a key stands for, if it stands for one.
pub open spec fn direction_of(key: Key) -> Option<Direction> {
    match key {
        Key::Up => Some(Direction::Up),
        Key::Down => Some(Direction::Down),
        Key::Left => Some(Direction::Left),
        Key::Right => Some(Direction::Right),
        Key::PageUp => Some(Direction::PageUp),
        Key::PageDown => Some(Direction::PageDown),
        Key::Home => Some(Direction::Home),
        Key::End => Some(Direction::End),
        _ => None,
    }
}

/// Whether backspace has anything before the cursor to go back to.
pub open spec fn can_go_back(cursor: Position) -> bool {
    cursor.x > 0 || cursor.y > 0
}

/// Where a key makes its change to the rows: a character is put in, and
/// delete acts, at the cursor; backspace acts one step to the left of it.
pub open spec fn edit_place(rows: Seq<Seq<char>>, cursor: Position, key: Key, page: nat) -> (
    nat,
    nat,
) {
    match key {
        Key::Backspace => moved(cursor, Direction::Left, rows, page),
        _ => (cursor.x as nat, cursor.y as nat),
    }
}

/// The rows after a key: a character is put in at the cursor, delete takes
/// out what stands at the cursor, backspace what stands before it. No other
/// key changes the rows.
pub open spec fn rows_after_key(rows: Seq<Seq<char>>, cursor: Position, key: Key, page: nat) -> Seq<
    Seq<char>,
> {
    let (x, y) = edit_place(rows, cursor, key, page);
    match key {
        Key::Char(c) => rows_after_insert(rows, x, y, c),
        Key::Delete => rows_after_delete(rows, x, y),
        Key::Backspace => if can_go_back(cursor) {
            rows_after_delete(rows, x, y)
        } else {
            rows
        },
        _ => rows,
    }
}

/// Whether a key marks the document as changed: a character does where the
/// cursor stands on a row or at the place of appending, delete and backspace
/// do where they act on a row.
pub open spec fn key_changes(rows: Seq<Seq<char>>, cursor: Position, key: Key, page: nat) -> bool {
    let (x, y) = edit_place(rows, cursor, key, page);
    match key {
        Key::Char(c) => y <= rows.len(),
        Key::Delete => y < rows.len(),
        Key::Backspace => can_go_back(cursor) && y < rows.len(),
        _ => false,
    }
}

/// The cursor after a key: behind a character that was put in, one step to
/// the left after backspace, and where a movement key takes it. The rows
/// that it moves over are those after the key.
pub open spec fn cursor_after_key(rows: Seq<Seq<char>>, cursor: Position, key: Key, page: nat) -> (
    nat,
    nat,
) {
    match key {
        Key::Char(c) => moved(cursor, Direction::Right, rows_after_key(rows, cursor, key, page), page),
        Key::Backspace => if can_go_back(cursor) {
            moved(cursor, Direction::Left, rows, page)
        } else {
            (cursor.x as nat, cursor.y as nat)
        },
        _ => match direction_of(key) {
            Some(direction) => moved(cursor, direction, rows, page),
            None => (cursor.x as nat, cursor.y as nat),
        },
    }
}

/// What one row of the window shows.
pub enum ScreenRow {
    /// The part of a row of the document that lies in the window, as it is
    /// drawn.
    Text(String),
    /// The greeting, which an empty document shows a third of the way down.
    Welcome,
    /// Nothing: the document ends above this row.
    Blank,
}

/// An editing session.
pub struct Editor {
    quit: bool,
    cur_pos: Position,
    document: Document,
    offset: Position,
}

impl Editor {
    /// The document of the session.
    pub closed spec fn doc(&self) -> Document {
        self.document
    }

    /// Where the cursor stands in the document.
    pub closed spec fn cursor_place(&self) -> Position {
        self.cur_pos
    }

    /// The top left corner of the window.
    pub closed spec fn corner(&self) -> Position {
        self.offset
    }

    /// Whether the session is over.
    pub closed spec fn quitting(&self) -> bool {
        self.quit
    }

    /// The document is well formed.
    pub open spec fn wf(&self) -> bool {
        self.doc().wf()
    }

    /// The cursor lies inside the window, in each direction in which the
    /// window has a cell at all.
    pub open spec fn shows_cursor(&self, window: Size) -> bool {
        &&& window.width > 0 ==> shows(
            self.cursor_place().x as nat,
            window.width as nat,
            self.corner().x as nat,
        )
        &&& window.height > 0 ==> shows(
            self.cursor_place().y as nat,
            window.height as nat,
            self.corner().y as nat,
        )
    }

    /// A session on `document`, with the cursor and the window in the top
    /// left corner.
    pub fn new(document: Document) -> (editor: Editor)
        requires
            document.wf(),
        ensures
            editor.wf(),
            editor.doc() == document,
            editor.cursor_place() == (Position { x: 0, y: 0 }),
            editor.corner() == (Position { x: 0, y: 0 }),
            !editor.quitting(),
    {
        Editor {
            quit: false,
            cur_pos: Position { x: 0, y: 0 },
            document,
            offset: Position { x: 0, y: 0 },
        }
    }

    /// Begins a session for the file named on the command line, if one was
    /// named, and gives the first message for the message bar with it.
    /// `text` is what was read from that file, or nothing where the file
    /// could not be read.
    ///
    /// With the file's text the session is on the document that
    /// [`Document::open`] makes of it. Without it, the session is on an empty
    /// document bound to the file, and the message says that the file could
    /// not be opened. Without a file name the document is bound to no file.
    pub fn startup(file_name: Option<&str>, text: Option<&str>) -> (begun: (Editor, String))
        ensures
            begun.0.wf(),
            begun.0.cursor_place() == (Position { x: 0, y: 0 }),
            begun.0.corner() == (Position { x: 0, y: 0 }),
            !begun.0.quitting(),
            !begun.0.doc().dirty(),
            begun.0.doc()@ == match (file_name, text) {
                (Some(_), Some(read)) => lines_of(read@),
                _ => Seq::<Seq<char>>::empty(),
            },
            begun.0.doc().file() == match file_name {
                Some(name) => Some(name@),
                None => None,
            },
            begun.0.doc().pending_name() == file_name is Some,
            begun.1@ == match (file_name, text) {
                (Some(name), None) => "ERR: Could not open file: "@ + name@,
                _ => " HELP: Ctrl-s = save | Esc = quit"@,
            },
    {
        let help = String::from_str(" HELP: Ctrl-s = save | Esc = quit");
        match file_name {
            Some(name) => match text {
                Some(read) => (Editor::new(Document::open(name, read)), help),
                None => {
                    let complaint = String::from_str("ERR: Could not open file: ").concat(name);
                    (Editor::new(Document::new(name)), complaint)
                },
            },
            None => (Editor::new(Document::default()), help),
        }
    }

    /// The document of the session.
    pub fn document(&self) -> (document: &Document)
        ensures
            *document == self.doc(),
    {
        &self.document
    }

    /// Where the cursor stands in the document.
    pub fn cursor(&self) -> (cursor: Position)
        ensures
            cursor == self.cursor_place(),
    {
        self.cur_pos
    }

    /// The top left corner of the window.
    pub fn offset(&self) -> (offset: Position)
        ensures
            offset == self.corner(),
    {
        self.offset
    }

    /// Whether escape has ended the session.
    pub fn should_quit(&self) -> (quit: bool)
        ensures
            quit == self.quitting(),
    {
        self.quit
    }

    /// Begins a search from where the cursor stands.
    pub fn begin_search(&self) -> (search: Search)
        ensures
            search == (Search {
                origin: self.cursor_place(),
                cursor: self.cursor_place(),
                offset: self.corner(),
            }),
    {
        Search::begin(self.cur_pos, self.offset)
    }

    /// Shows where a search in progress stands: the cursor and the window
    /// go where the search has them.
    pub fn follow_search(&mut self, search: &Search)
        ensures
            final(self).cursor_place() == search.cursor,
            final(self).corner() == search.offset,
            final(self).doc() == old(self).doc(),
            final(self).quitting() == old(self).quitting(),
    {
        self.cur_pos = search.cursor;
        self.offset = search.offset;
    }

    /// Ends a search and takes over where it leaves the cursor and the
    /// window: on the match if the search was accepted, else back where the
    /// search began. Says whether the search was accepted.
    pub fn end_search(&mut self, search: Search, accepted: bool, window: &Size) -> (kept: bool)
        ensures
            kept == accepted,
            final(self).cursor_place() == if accepted {
                search.cursor
            } else {
                search.origin
            },
            final(self).corner() == if accepted {
                search.offset
            } else {
                scrolled(search.origin, *window, search.offset)
            },
            final(self).doc() == old(self).doc(),
            final(self).quitting() == old(self).quitting(),
    {
        match search.finish(accepted, window) {
            SearchOutcome::Accepted { cursor, offset } => {
                self.cur_pos = cursor;
                self.offset = offset;
                true
            },
            SearchOutcome::Aborted { cursor, offset } => {
                self.cur_pos = cursor;
                self.offset = offset;
                false
            },
        }
    }

    /// Whether a save has to ask for a file name first: it has where the
    /// document is bound to no file, or to one whose name awaits
    /// confirmation.
    pub fn save_asks_name(&self) -> (asks: bool)
        ensures
            asks == (self.doc().file() is None || self.doc().pending_name()),
    {
        self.document.filename().is_none() || self.document.has_pending_name()
    }

    /// The text that the question for a file name begins with: the name
    /// that awaits confirmation, or nothing.
    pub fn suggested_name(&self) -> (name: String)
        ensures
            name@ == match self.doc().file() {
                Some(file) if self.doc().pending_name() => file,
                _ => Seq::<char>::empty(),
            },
    {
        if self.document.has_pending_name() {
            match self.document.filename() {
                Some(file) => file.clone(),
                None => String::new(),
            }
        } else {
            String::new()
        }
    }

    /// Takes the answer to the question for a file name and says whether the
    /// save goes on. A document without a file gives the save up when there
    /// is no answer. In every other case the answer becomes the file that
    /// the document is bound to, and be it none.
    pub fn take_name(&mut self, answer: Option<String>) -> (go_on: bool)
        ensures
            go_on == (old(self).doc().file() is Some || answer is Some),
            final(self).doc().file() == if go_on {
                match answer {
                    Some(file) => Some(file@),
                    None => None,
                }
            } else {
                old(self).doc().file()
            },
            final(self).doc()@ == old(self).doc()@,
            final(self).wf() == old(self).wf(),
            final(self).doc().dirty() == old(self).doc().dirty(),
            final(self).doc().pending_name() == old(self).doc().pending_name(),
            final(self).cursor_place() == old(self).cursor_place(),
            final(self).corner() == old(self).corner(),
            final(self).quitting() == old(self).quitting(),
    {
        if self.document.filename().is_none() && answer.is_none() {
            return false;
        }
        self.document.set_filename(answer);
        true
    }

    /// What a save has to write, if the document is bound to a file. See
    /// [`Document::save`].
    pub fn save(&self) -> (request: Option<FileWrite>)
        requires
            self.wf(),
        ensures
            match request {
                Some(write) => self.doc().file() == Some(write.path@) && write.text@ == file_text(
                    self.doc()@,
                ),
                None => self.doc().file() is None,
            },
    {
        self.document.save()
    }

    /// Takes note that the document was written to its file.
    pub fn mark_saved(&mut self)
        ensures
            !final(self).doc().dirty(),
            final(self).doc()@ == old(self).doc()@,
            final(self).wf() == old(self).wf(),
            final(self).doc().file() == old(self).doc().file(),
            final(self).doc().pending_name() == old(self).doc().pending_name(),
            final(self).cursor_place() == old(self).cursor_place(),
            final(self).corner() == old(self).corner(),
            final(self).quitting() == old(self).quitting(),
    {
        self.document.mark_saved();
    }

    /// Where the cursor stands in the window: its place in the document,
    /// counted from the window's top left corner.
    pub fn screen_cursor(&self) -> (place: Position)
        ensures
            place.x == if self.cursor_place().x >= self.corner().x {
                self.cursor_place().x - self.corner().x
            } else {
                0
            },
            place.y == if self.cursor_place().y >= self.corner().y {
                self.cursor_place().y - self.corner().y
            } else {
                0
            },
    {
        Position {
            x: self.cur_pos.x.saturating_sub(self.offset.x),
            y: self.cur_pos.y.saturating_sub(self.offset.y),
        }
    }

    /// What row `row` of the window shows: the row of the document that lies
    /// `row` rows below the window's top, from the window's left edge on and
    /// as wide as the window; or, below the document's end, nothing, but for
    /// the greeting of an empty document.
    pub fn screen_row(&self, row: u16, window: &Size) -> (shown: ScreenRow)
        requires
            self.wf(),
        ensures
            match shown {
                ScreenRow::Text(drawing) => {
                    &&& row + self.corner().y < self.doc()@.len()
                    &&& drawing@ == rendered(
                        self.doc()@[row + self.corner().y],
                        self.corner().x as nat,
                        (self.corner().x + window.width) as nat,
                    )
                },
                ScreenRow::Welcome => {
                    &&& row + self.corner().y >= self.doc()@.len()
                    &&& self.doc()@.len() == 0
                    &&& row == window.height / 3
                },
                ScreenRow::Blank => {
                    &&& row + self.corner().y >= self.doc()@.len()
                    &&& !(self.doc()@.len() == 0 && row == window.height / 3)
                },
            },
    {
        let rows = self.document.len();
        let line = match (row as usize).checked_add(self.offset.y) {
            Some(y) => self.document.line(y),
            None => None,
        };
        match line {
            Some(line) => {
                let start = self.offset.x;
                let end = start.saturating_add(window.width as usize);
                proof {
                    lemma_columns_fit(*line);
                }
                ScreenRow::Text(line.render(start, end))
            },
            None => if rows == 0 && row == window.height / 3 {
                ScreenRow::Welcome
            } else {
                ScreenRow::Blank
            },
        }
    }

    /// Moves the window so that it shows the cursor. See [`scrolled`].
    pub fn scroll(&mut self, window: &Size)
        ensures
            final(self).corner() == scrolled(old(self).cursor_place(), *window, old(self).corner()),
            final(self).shows_cursor(*window),
            final(self).cursor_place() == old(self).cursor_place(),
            final(self).doc() == old(self).doc(),
            final(self).quitting() == old(self).quitting(),
    {
        self.offset = scroll(&self.cur_pos, window, &self.offset);
    }

    /// Moves the cursor as [`moved`] says.
    pub fn move_cursor(&mut self, direction: Direction, window: &Size)
        requires
            old(self).wf(),
        ensures
            (final(self).cursor_place().x as nat, final(self).cursor_place().y as nat) == moved(
                old(self).cursor_place(),
                direction,
                old(self).doc()@,
                window.height as nat,
            ),
            final(self).corner() == old(self).corner(),
            final(self).doc() == old(self).doc(),
            final(self).quitting() == old(self).quitting(),
    {
        self.cur_pos = move_cursor(&self.cur_pos, direction, &self.document, window);
    }

    /// Takes one key: changes the rows, moves the cursor, lets the window
    /// follow, and says what is left for the caller to do.
    ///
    /// Escape ends the session. Control with `s` asks for the document to be
    /// saved. What the other keys do to the rows and the cursor is in
    /// [`rows_after_key`] and [`cursor_after_key`].
    pub fn process_insert_keypress(&mut self, key: Key, window: &Size) -> (request: Request)
        requires
            old(self).wf(),
        ensures
            final(self).wf(),
            final(self).doc()@ == rows_after_key(
                old(self).doc()@,
                old(self).cursor_place(),
                key,
                window.height as nat,
            ),
            (final(self).cursor_place().x as nat, final(self).cursor_place().y as nat)
                == cursor_after_key(
                old(self).doc()@,
                old(self).cursor_place(),
                key,
                window.height as nat,
            ),
            final(self).corner() == scrolled(final(self).cursor_place(), *window, old(self).corner()),
            final(self).shows_cursor(*window),
            final(self).quitting() == (old(self).quitting() || key == Key::Esc),
            request == if key == Key::Ctrl('s') {
                Request::Save
            } else {
                Request::Nothing
            },
            final(self).doc().dirty() == (old(self).doc().dirty() || key_changes(
                old(self).doc()@,
                old(self).cursor_place(),
                key,
                window.height as nat,
            )),
            final(self).doc().file() == old(self).doc().file(),
            final(self).doc().pending_name() == old(self).doc().pending_name(),
    {
        let mut request = Request::Nothing;
        match key {
            Key::Esc => {
                self.quit = true;
            },
            Key::Char(c) => {
                self.document.insert(&self.cur_pos, c);
                self.move_cursor(Direction::Right, window);
            },
            Key::Delete => {
                self.document.delete(&self.cur_pos);
            },
            Key::Backspace => {
                if self.cur_pos.x > 0 || self.cur_pos.y > 0 {
                    self.move_cursor(Direction::Left, window);
                    self.document.delete(&self.cur_pos);
                }
            },
            Key::Ctrl(c) => {
                if c == 's' {
                    request = Request::Save;
                }
            },
            Key::Up => {
                self.move_cursor(Direction::Up, window);
            },
            Key::Down => {
                self.move_cursor(Direction::Down, window);
            },
            Key::Left => {
                self.move_cursor(Direction::Left, window);
            },
            Key::Right => {
                self.move_cursor(Direction::Right, window);
            },
            Key::PageUp => {
                self.move_cursor(Direction::PageUp, window);
            },
            Key::PageDown => {
                self.move_cursor(Direction::PageDown, window);
            },
            Key::End => {
                self.move_cursor(Direction::End, window);
            },
            Key::Home => {
                self.move_cursor(Direction::Home, window);
            },
            Key::Other => {},
        }
        self.scroll(window);
        request
    }
}

} // verus!
