//! A document: the rows of a file, in order, with its name and whether it
//! was changed.

use crate::grapheme::{grapheme_clusters, lemma_join_insert, push_char};
use crate::line::{
    deleted, found, found_before, inserted, left_of, lemma_edits_by_offset,
    lemma_found_before_stands, lemma_found_stands, right_of, stands_at, Line,
};
use crate::substring::occurs_at;
use crate::state::{Position, SearchDirection};
use vstd::prelude::*;
use vstd::string::*;

verus! {

/// The rows after `c` was put in at column `x` of row `y`.
///
/// A row beyond the place of appending leaves the rows as they are. A line
/// feed cuts row `y` in two before column `x`, and the right half becomes the
/// row after it. Any other character goes into row `y`. At the place of
/// appending an empty row is added first.
pub open spec fn rows_after_insert(rows: Seq<Seq<char>>, x: nat, y: nat, c: char) -> Seq<
    Seq<char>,
> {
    let row = y as int;
    if row > rows.len() {
        rows
    } else if c == '\n' {
        let padded = if row == rows.len() {
            rows.push(Seq::empty())
        } else {
            rows
        };
        padded.update(row, left_of(padded[row], x)).insert(row + 1, right_of(padded[row], x))
    } else if row == rows.len() {
        rows.push(seq![c])
    } else {
        rows.update(row, inserted(rows[row], x, c))
    }
}

/// The rows after a deletion at column `x` of row `y`.
///
/// A row that is not there leaves the rows as they are. At the end of a row
/// that has a row below it, the row below is joined to it. Anywhere else the
/// cluster at column `x` leaves row `y`.
pub open spec fn rows_after_delete(rows: Seq<Seq<char>>, x: nat, y: nat) -> Seq<Seq<char>> {
    let row = y as int;
    if row >= rows.len() {
        rows
    } else if x == grapheme_clusters(rows[row]).len() && row + 1 < rows.len() {
        rows.update(row, rows[row] + rows[row + 1]).remove(row + 1)
    } else {
        rows.update(row, deleted(rows[row], x))
    }
}

/// The offset of the first line feed in `text`, or the length of `text`
/// where it holds none.
pub open spec fn line_end(text: Seq<char>) -> nat
    decreases text.len(),
{
    if text.len() == 0 || text[0] == '\n' {
        0
    } else {
        1 + line_end(text.drop_first())
    }
}

/// The rows of a file that holds `text`: the stretches between line feeds.
/// A line feed ends a row, so a text that ends with one has no empty row after
/// it. No other character ends a row, a carriage return neither.
pub open spec fn lines_of(text: Seq<char>) -> Seq<Seq<char>>
    decreases text.len(),
{
    let end = line_end(text);
    if text.len() == 0 {
        Seq::empty()
    } else if end < text.len() {
        seq![text.take(end as int)] + lines_of(text.skip(end as int + 1))
    } else {
        seq![text]
    }
}

/// The text of a file that holds `rows`: each row followed by a line feed.
pub open spec fn file_text(rows: Seq<Seq<char>>) -> Seq<char> {
    rows.map_values(|row: Seq<char>| row.push('\n')).flatten()
}

/// No row holds a line feed.
pub open spec fn no_line_feeds(rows: Seq<Seq<char>>) -> bool {
    forall|i: int, j: int|
        0 <= i < rows.len() && 0 <= j < rows[i].len() ==> #[trigger] rows[i][j] != '\n'
}

/// The first match at or after column `x` of row `y`, or in a row below it:
/// the column within its row, then the row. Below row `y` each row is
/// searched from its first column.
pub open spec fn found_forward(rows: Seq<Seq<char>>, query: Seq<char>, x: nat, y: nat) -> Option<
    (nat, nat),
>
    decreases rows.len() - y,
{
    if y >= rows.len() {
        None
    } else {
        match found(rows[y as int], query, x) {
            Some(column) => Some((column, y)),
            None => found_forward(rows, query, 0, y + 1),
        }
    }
}

/// The last match that begins before column `x` of row `y`, or in a row above
/// it: the column within its row, then the row. Above row `y` each row is
/// searched from its end.
pub open spec fn found_backward(rows: Seq<Seq<char>>, query: Seq<char>, x: nat, y: nat) -> Option<
    (nat, nat),
>
    decreases y,
{
    match found_before(rows[y as int], query, x) {
        Some(column) => Some((column, y)),
        None => if y == 0 {
            None
        } else {
            let above = (y - 1) as nat;
            found_backward(rows, query, grapheme_clusters(rows[above as int]).len(), above)
        },
    }
}

/// What a search for `query` from column `x` of row `y` finds.
///
/// Forward, the match nearest at or after the start; backward, the match
/// nearest before it. A backward search from the place of appending begins
/// at the end of the last row. The search stops at the first and at the last
/// row: it never goes round.
pub open spec fn found_from(
    rows: Seq<Seq<char>>,
    query: Seq<char>,
    x: nat,
    y: nat,
    direction: SearchDirection,
) -> Option<(nat, nat)> {
    match direction {
        SearchDirection::Forward => found_forward(rows, query, x, y),
        SearchDirection::Backward => if y < rows.len() {
            found_backward(rows, query, x, y)
        } else if y == rows.len() && y > 0 {
            let last = (y - 1) as nat;
            found_backward(rows, query, grapheme_clusters(rows[last as int]).len(), last)
        } else {
            None
        },
    }
}

/// Where `head` holds no line feed, the first line of `head + rest` ends
/// where that of `rest` does.
pub proof fn lemma_line_end_after(head: Seq<char>, rest: Seq<char>)
    requires
        forall|j: int| 0 <= j < head.len() ==> head[j] != '\n',
    ensures
        line_end(head + rest) == head.len() + line_end(rest),
    decreases head.len(),
{
    if head.len() > 0 {
        assert((head + rest).drop_first() =~= head.drop_first() + rest);
        lemma_line_end_after(head.drop_first(), rest);
    }
}

/// A row without a line feed, a line feed, and more text: the row is the
/// first row of the whole, and the rows of the rest follow.
pub proof fn lemma_lines_of_row(row: Seq<char>, rest: Seq<char>)
    requires
        forall|j: int| 0 <= j < row.len() ==> row[j] != '\n',
    ensures
        lines_of(row.push('\n') + rest) == seq![row] + lines_of(rest),
{
    let text = row.push('\n') + rest;
    let tail = seq!['\n'] + rest;
    assert(text =~= row + tail);
    lemma_line_end_after(row, tail);
    assert(text.take(row.len() as int) =~= row);
    assert(text.skip(row.len() as int + 1) =~= rest);
}

/// Text without a line feed is one row, or none where it is empty.
pub proof fn lemma_lines_of_last(row: Seq<char>)
    requires
        forall|j: int| 0 <= j < row.len() ==> row[j] != '\n',
    ensures
        lines_of(row) == if row.len() == 0 {
            Seq::<Seq<char>>::empty()
        } else {
            seq![row]
        },
{
    lemma_line_end_after(row, Seq::empty());
}

/// Writing rows to a file and reading the file again gives the same rows,
/// as long as no row holds a line feed.
pub proof fn lemma_rows_written_and_read(rows: Seq<Seq<char>>)
    requires
        no_line_feeds(rows),
    ensures
        lines_of(file_text(rows)) == rows,
    decreases rows.len(),
{
    if rows.len() > 0 {
        let ended = rows.map_values(|row: Seq<char>| row.push('\n'));
        let rest = rows.drop_first();
        let rest_ended = rest.map_values(|row: Seq<char>| row.push('\n'));
        assert(ended.drop_first() =~= rest_ended);
        assert forall|i: int, j: int|
            0 <= i < rest.len() && 0 <= j < rest[i].len() implies #[trigger] rest[i][j] != '\n' by {
            assert(rest[i][j] == rows[i + 1][j]);
        }
        lemma_rows_written_and_read(rest);
        lemma_lines_of_row(rows[0], file_text(rest));
    }
}

/// What a save has to write, and to which file.
pub struct FileWrite {
    /// The name of the file.
    pub path: String,
    /// The whole text of the file.
    pub text: String,
}

/// The rows of a file, with the file's name and two flags.
pub struct Document {
    lines: Vec<Line>,
    filename: Option<String>,
    name: bool,
    changed: bool,
}

impl View for Document {
    type V = Seq<Seq<char>>;

    /// The text of each row.
    closed spec fn view(&self) -> Seq<Seq<char>> {
        self.lines@.map_values(|line: Line| line@)
    }
}

impl Document {
    /// Every row is a well-formed line.
    pub closed spec fn lines_wf(&self) -> bool {
        forall|i: int| 0 <= i < self.lines@.len() ==> (#[trigger] self.lines@[i]).wf()
    }

    /// Every row is a well-formed line, and none of them holds a line feed:
    /// a line feed never goes into a row, it makes two rows of one.
    pub open spec fn wf(&self) -> bool {
        &&& self.lines_wf()
        &&& no_line_feeds(self@)
    }

    /// The name of the file that the document is saved to, if it has one.
    pub closed spec fn file(&self) -> Option<Seq<char>> {
        match self.filename {
            Some(name) => Some(name@),
            None => None,
        }
    }

    /// Whether the file name still awaits confirmation when the document is
    /// saved.
    pub closed spec fn pending_name(&self) -> bool {
        self.name
    }

    /// Whether the rows were changed since the document was loaded or saved.
    pub closed spec fn dirty(&self) -> bool {
        self.changed
    }

    /// An empty document that is bound to the file `filename`, which need not
    /// exist yet.
    pub fn new(filename: &str) -> (document: Document)
        ensures
            document.wf(),
            document@ == Seq::<Seq<char>>::empty(),
            document.file() == Some(filename@),
            document.pending_name(),
            !document.dirty(),
    {
        Document {
            lines: Vec::new(),
            filename: Some(String::from_str(filename)),
            name: true,
            changed: false,
        }
    }

    /// Puts `c` in at `at`. See [`rows_after_insert`].
    pub fn insert(&mut self, at: &Position, c: char)
        requires
            old(self).wf(),
        ensures
            final(self).wf(),
            final(self)@ == rows_after_insert(old(self)@, at.x as nat, at.y as nat, c),
            final(self).dirty() == (old(self).dirty() || at.y <= old(self)@.len()),
            final(self).file() == old(self).file(),
            final(self).pending_name() == old(self).pending_name(),
    {
        if at.y > self.lines.len() {
            return;
        }
        self.changed = true;
        if c == '\n' {
            self.insert_newline(at);
            return;
        }
        if at.y == self.lines.len() {
            let mut line = Line::default();
            proof {
                lemma_join_insert(line.clusters(), 0, seq![c]);
            }
            line.insert(0, c);
            self.lines.push(line);
        } else {
            proof {
                lemma_edits_by_offset(self.lines@[at.y as int], at.x as nat, c);
            }
            let line = &mut self.lines[at.y];
            line.insert(at.x, c);
        }
        assert(self@ =~= rows_after_insert(old(self)@, at.x as nat, at.y as nat, c));
    }

    /// Opens the text of the file `filename` as a document: `text` is what
    /// was read from the file. The document has the rows of `text`, is bound
    /// to the file and not yet changed.
    pub fn open(filename: &str, text: &str) -> (document: Document)
        ensures
            document.wf(),
            document@ == lines_of(text@),
            document.file() == Some(filename@),
            document.pending_name(),
            !document.dirty(),
    {
        let mut lines: Vec<Line> = Vec::new();
        let mut current = String::new();
        assert(text@.skip(0) =~= text@);
        for c in it: text.chars()
            invariant
                it.seq() == text@,
                forall|i: int| 0 <= i < lines@.len() ==> (#[trigger] lines@[i]).wf(),
                no_line_feeds(lines@.map_values(|line: Line| line@)),
                forall|j: int| 0 <= j < current@.len() ==> current@[j] != '\n',
                lines_of(text@) == lines@.map_values(|line: Line| line@) + lines_of(
                    current@ + text@.skip(it.index() as int),
                ),
        {
            let ghost rest = text@.skip(it.index() + 1);
            let ghost rows = lines@.map_values(|line: Line| line@);
            assert(text@.skip(it.index() as int) =~= seq![c] + rest);
            if c == '\n' {
                proof {
                    assert(current@ + (seq![c] + rest) =~= current@.push('\n') + rest);
                    lemma_lines_of_row(current@, rest);
                }
                lines.push(Line::from(current.as_str()));
                current = String::new();
                proof {
                    assert(lines@.map_values(|line: Line| line@) =~= rows + seq![lines@.last()@]);
                }
            } else {
                let ghost before = current@;
                push_char(&mut current, c);
                assert(current@ + rest =~= before + (seq![c] + rest));
            }
        }
        proof {
            lemma_lines_of_last(current@);
        }
        if !current.as_str().is_empty() {
            lines.push(Line::from(current.as_str()));
        }
        assert(lines@.map_values(|line: Line| line@) =~= lines_of(text@));
        Document { lines, filename: Some(String::from_str(filename)), name: true, changed: false }
    }

    /// Prepares a save: says what is to be written, namely each row followed
    /// by a line feed, and to which file. A document that is bound to no file
    /// has nothing to write. Once the text is written, [`Document::mark_saved`]
    /// takes note of it.
    pub fn save(&self) -> (request: Option<FileWrite>)
        requires
            self.wf(),
        ensures
            match request {
                Some(write) => self.file() == Some(write.path@) && write.text@ == file_text(self@),
                None => self.file() is None,
            },
    {
        let path = match &self.filename {
            Some(name) => name.clone(),
            None => {
                return None;
            },
        };
        let mut text = String::new();
        let ghost ended = self@.map_values(|row: Seq<char>| row.push('\n'));
        let mut index: usize = 0;
        while index < self.lines.len()
            invariant
                index <= self.lines.len(),
                ended == self@.map_values(|row: Seq<char>| row.push('\n')),
                ended.len() == self.lines.len(),
                text@ == ended.take(index as int).flatten(),
            decreases self.lines.len() - index,
        {
            text.append(self.lines[index].as_str());
            push_char(&mut text, '\n');
            proof {
                assert(ended.take(index + 1) =~= ended.take(index as int).push(ended[index as int]));
                ended.take(index as int).lemma_flatten_push(ended[index as int]);
            }
            index += 1;
        }
        assert(ended.take(ended.len() as int) =~= ended);
        Some(FileWrite { path, text })
    }

    /// Takes note that the rows were written to the file: the document is no
    /// longer changed.
    pub fn mark_saved(&mut self)
        ensures
            !final(self).dirty(),
            final(self)@ == old(self)@,
            final(self).wf() == old(self).wf(),
            final(self).file() == old(self).file(),
            final(self).pending_name() == old(self).pending_name(),
    {
        self.changed = false;
    }

    /// Takes out what stands at `at`. See [`rows_after_delete`].
    pub fn delete(&mut self, at: &Position)
        requires
            old(self).wf(),
        ensures
            final(self).wf(),
            final(self)@ == rows_after_delete(old(self)@, at.x as nat, at.y as nat),
            final(self).dirty() == (old(self).dirty() || at.y < old(self)@.len()),
            final(self).file() == old(self).file(),
            final(self).pending_name() == old(self).pending_name(),
    {
        let len = self.lines.len();
        if at.y >= len {
            return;
        }
        self.changed = true;
        if at.x == self.lines[at.y].len() && at.y + 1 < len {
            let next_line = self.lines.remove(at.y + 1);
            let line = &mut self.lines[at.y];
            line.append(&next_line);
        } else {
            proof {
                lemma_edits_by_offset(self.lines@[at.y as int], at.x as nat, '\n');
            }
            let line = &mut self.lines[at.y];
            line.delete(at.x);
        }
        assert(self@ =~= rows_after_delete(old(self)@, at.x as nat, at.y as nat));
    }

    /// Searches the rows for `query` from `from` on, forward or backward.
    /// See [`found_from`].
    pub fn find(&self, query: &str, from: &Position, direction: SearchDirection) -> (hit: Option<
        Position,
    >)
        requires
            self.wf(),
        ensures
            match hit {
                Some(place) => found_from(self@, query@, from.x as nat, from.y as nat, direction)
                    == Some((place.x as nat, place.y as nat)),
                None => found_from(self@, query@, from.x as nat, from.y as nat, direction) is None,
            },
    {
        match direction {
            SearchDirection::Forward => {
                let mut x: usize = from.x;
                let mut y: usize = from.y;
                while y < self.lines.len()
                    invariant
                        self.wf(),
                        found_from(self@, query@, from.x as nat, from.y as nat, direction)
                            == found_forward(self@, query@, x as nat, y as nat),
                    decreases self.lines.len() - y,
                {
                    match self.lines[y].find(query, x) {
                        Some(column) => {
                            return Some(Position { x: column, y });
                        },
                        None => {},
                    }
                    y += 1;
                    x = 0;
                }
                None
            },
            SearchDirection::Backward => {
                let rows = self.lines.len();
                if from.y > rows || rows == 0 {
                    return None;
                }
                let mut below: usize = rows;
                let mut limit: usize = from.x;
                if from.y == rows {
                    limit = self.lines[rows - 1].len();
                } else {
                    below = from.y + 1;
                }
                while below > 0
                    invariant
                        self.wf(),
                        below <= self.lines.len(),
                        found_from(self@, query@, from.x as nat, from.y as nat, direction) == if below
                            == 0 {
                            None
                        } else {
                            found_backward(self@, query@, limit as nat, (below - 1) as nat)
                        },
                    decreases below,
                {
                    below -= 1;
                    match self.lines[below].find_before(query, limit) {
                        Some(column) => {
                            return Some(Position { x: column, y: below });
                        },
                        None => {},
                    }
                    if below > 0 {
                        limit = self.lines[below - 1].len();
                    }
                }
                None
            },
        }
    }

    /// The row at `index`, if the document has that many rows.
    pub fn line(&self, index: usize) -> (row: Option<&Line>)
        requires
            self.wf(),
        ensures
            match row {
                Some(line) => index < self@.len() && line@ == self@[index as int] && line.wf(),
                None => index >= self@.len(),
            },
    {
        if index < self.lines.len() {
            Some(&self.lines[index])
        } else {
            None
        }
    }

    /// Whether the document has no rows.
    pub fn is_empty(&self) -> (empty: bool)
        ensures
            empty == (self@.len() == 0),
    {
        self.lines.len() == 0
    }

    /// The number of rows.
    pub fn len(&self) -> (rows: usize)
        ensures
            rows == self@.len(),
    {
        self.lines.len()
    }

    /// Whether the rows were changed since the document was loaded or saved.
    pub fn is_changed(&self) -> (changed: bool)
        ensures
            changed == self.dirty(),
    {
        self.changed
    }

    /// The name of the file that the document is bound to, if any.
    pub fn filename(&self) -> (name: Option<&String>)
        ensures
            match name {
                Some(file) => self.file() == Some(file@),
                None => self.file() is None,
            },
    {
        self.filename.as_ref()
    }

    /// Binds the document to another file, or to none.
    pub fn set_filename(&mut self, filename: Option<String>)
        ensures
            final(self).file() == match filename {
                Some(file) => Some(file@),
                None => None,
            },
            final(self)@ == old(self)@,
            final(self).wf() == old(self).wf(),
            final(self).dirty() == old(self).dirty(),
            final(self).pending_name() == old(self).pending_name(),
    {
        self.filename = filename;
    }

    /// Whether the file name still awaits confirmation when the document is
    /// saved.
    pub fn has_pending_name(&self) -> (pending: bool)
        ensures
            pending == self.pending_name(),
    {
        self.name
    }

    /// Cuts row `at.y` in two before column `at.x` and makes the right half
    /// the row after it. At the place of appending an empty row is added
    /// first.
    fn insert_newline(&mut self, at: &Position)
        requires
            old(self).wf(),
            at.y <= old(self)@.len(),
        ensures
            final(self).wf(),
            final(self)@ == rows_after_insert(old(self)@, at.x as nat, at.y as nat, '\n'),
            final(self).dirty() == old(self).dirty(),
            final(self).file() == old(self).file(),
            final(self).pending_name() == old(self).pending_name(),
    {
        if at.y == self.lines.len() {
            self.lines.push(Line::default());
        }
        assert(at.y < self.lines.len());
        proof {
            lemma_edits_by_offset(self.lines@[at.y as int], at.x as nat, '\n');
        }
        let new_line = self.lines[at.y].split(at.x);
        self.lines.insert(at.y + 1, new_line);
        assert(self@ =~= rows_after_insert(old(self)@, at.x as nat, at.y as nat, '\n'));
    }
}

/// Saving a document and opening the file that was written gives a document
/// with the same rows.
pub proof fn lemma_save_then_open(document: Document)
    requires
        document.wf(),
    ensures
        lines_of(file_text(document@)) == document@,
{
    lemma_rows_written_and_read(document@);
}

/// What a search forward finds lies on a row of the document, at or after
/// the place where the search began, and the query stands there.
proof fn lemma_forward_stands(document: Document, query: Seq<char>, x: nat, y: nat)
    requires
        document.wf(),
        found_forward(document@, query, x, y) is Some,
    ensures
        ({
            let (column, row) = found_forward(document@, query, x, y)->0;
            &&& row < document@.len()
            &&& stands_at(document@[row as int], query, column)
            &&& row > y || (row == y && column >= x)
        }),
    decreases document@.len() - y,
{
    if found(document@[y as int], query, x) is Some {
        lemma_found_stands(document.lines@[y as int], query, x);
    } else {
        lemma_forward_stands(document, query, 0, y + 1);
    }
}

/// What a search backward finds lies on a row of the document, before the
/// place where the search began, and the query stands there.
proof fn lemma_backward_stands(document: Document, query: Seq<char>, x: nat, y: nat)
    requires
        document.wf(),
        y < document@.len(),
        found_backward(document@, query, x, y) is Some,
    ensures
        ({
            let (column, row) = found_backward(document@, query, x, y)->0;
            &&& row < document@.len()
            &&& stands_at(document@[row as int], query, column)
            &&& row < y || (row == y && column < x)
        }),
    decreases y,
{
    lemma_found_before_stands(document@[y as int], query, x);
    if found_before(document@[y as int], query, x) is None {
        let above = (y - 1) as nat;
        lemma_backward_stands(
            document,
            query,
            grapheme_clusters(document@[above as int]).len(),
            above,
        );
    }
}

/// What a search finds is a place of the document where the query stands:
/// a search forward finds it at or after the place where it began, a search
/// backward before that place.
pub proof fn lemma_found_from_stands(
    document: Document,
    query: Seq<char>,
    x: nat,
    y: nat,
    direction: SearchDirection,
)
    requires
        document.wf(),
        found_from(document@, query, x, y, direction) is Some,
    ensures
        ({
            let (column, row) = found_from(document@, query, x, y, direction)->0;
            &&& row < document@.len()
            &&& stands_at(document@[row as int], query, column)
            &&& match direction {
                SearchDirection::Forward => row > y || (row == y && column >= x),
                SearchDirection::Backward => row < y || (row == y && column < x),
            }
        }),
{
    match direction {
        SearchDirection::Forward => {
            lemma_forward_stands(document, query, x, y);
        },
        SearchDirection::Backward => {
            if y < document@.len() {
                lemma_backward_stands(document, query, x, y);
            } else {
                let last = (y - 1) as nat;
                lemma_backward_stands(
                    document,
                    query,
                    grapheme_clusters(document@[last as int]).len(),
                    last,
                );
            }
        },
    }
}

/// A query that stands in no row of the document is found by no search.
pub proof fn lemma_absent_is_not_found(
    document: Document,
    query: Seq<char>,
    x: nat,
    y: nat,
    direction: SearchDirection,
)
    requires
        document.wf(),
        forall|row: int, at: int| 0 <= row < document@.len() ==> !occurs_at(document@[row], query, at),
    ensures
        found_from(document@, query, x, y, direction) is None,
{
    if found_from(document@, query, x, y, direction) is Some {
        lemma_found_from_stands(document, query, x, y, direction);
    }
}

impl Default for Document {
    /// An empty document that is bound to no file.
    fn default() -> (document: Document)
        ensures
            document.wf(),
            document@ == Seq::<Seq<char>>::empty(),
            document.file() is None,
            !document.pending_name(),
            !document.dirty(),
    {
        Document { lines: Vec::new(), filename: None, name: false, changed: false }
    }
}

} // verus!
