//! One editable line of text, addressed by grapheme cluster.

use crate::grapheme::{
    append_range, grapheme_clusters, is_partition, lemma_cut, lemma_join_halves, lemma_join_insert,
    lemma_join_prefix, lemma_join_remove, lemma_join_step, lemma_starts_increase, push_char,
    split_graphemes, start_of, texts,
};
use crate::substring::{
    chars_of, find_first, first_occurrence, is_first_occurrence, occurs_at, stands_here,
};
use vstd::prelude::*;
use vstd::std_specs::convert::FromSpecImpl;
use vstd::string::*;

verus! {

/// The smaller of two counts.
pub open spec fn at_most(value: nat, limit: nat) -> nat {
    if value < limit {
        value
    } else {
        limit
    }
}

/// `text` with `c` put in as a cluster of its own before the cluster at
/// column `at`, or at the end where `at` is no column of `text`.
pub open spec fn inserted(text: Seq<char>, at: nat, c: char) -> Seq<char> {
    let parts = grapheme_clusters(text);
    parts.insert(at_most(at, parts.len()) as int, seq![c]).flatten()
}

/// `text` without the cluster at column `at`; `text` itself where `at` is no
/// column of it.
pub open spec fn deleted(text: Seq<char>, at: nat) -> Seq<char> {
    let parts = grapheme_clusters(text);
    if at < parts.len() {
        parts.remove(at as int).flatten()
    } else {
        text
    }
}

/// The clusters of `text` before column `at`, joined.
pub open spec fn left_of(text: Seq<char>, at: nat) -> Seq<char> {
    let parts = grapheme_clusters(text);
    parts.take(at_most(at, parts.len()) as int).flatten()
}

/// The clusters of `text` from column `at` on, joined.
pub open spec fn right_of(text: Seq<char>, at: nat) -> Seq<char> {
    let parts = grapheme_clusters(text);
    parts.skip(at_most(at, parts.len()) as int).flatten()
}

/// What a tab is drawn as.
pub open spec fn tab_blanks() -> Seq<char> {
    seq![' ', ' ', ' ', ' ']
}

/// A cluster as it is drawn: a tab becomes four blanks, any other cluster
/// stays as it is.
pub open spec fn drawn(cluster: Seq<char>) -> Seq<char> {
    if cluster == seq!['\t'] {
        tab_blanks()
    } else {
        cluster
    }
}

/// The columns of `text` from `start` up to `end`, drawn and joined. `end` is
/// cut down to the number of columns and `start` to `end`.
pub open spec fn rendered(text: Seq<char>, start: nat, end: nat) -> Seq<char> {
    let parts = grapheme_clusters(text);
    let stop = at_most(end, parts.len());
    let first = at_most(start, stop);
    parts.subrange(first as int, stop as int).map_values(|cluster: Seq<char>| drawn(cluster)).flatten()
}

/// Piece `index` begins at character offset `offset`.
pub open spec fn begins_at(parts: Seq<Seq<char>>, index: int, offset: int) -> bool {
    0 <= index < parts.len() && start_of(parts, index) == offset
}

/// The piece that begins at character offset `offset`, if one does.
pub open spec fn piece_at(parts: Seq<Seq<char>>, offset: int) -> Option<int> {
    if exists|index: int| begins_at(parts, index, offset) {
        Some(choose|index: int| begins_at(parts, index, offset))
    } else {
        None
    }
}

/// The column of the first place at or after column `after` where `query`
/// stands in `text`. The search runs over the characters from column `after`
/// on; a first occurrence that begins inside a cluster is no match, and
/// neither is anything when `after` is no column of `text`.
pub open spec fn found(text: Seq<char>, query: Seq<char>, after: nat) -> Option<nat> {
    let parts = grapheme_clusters(text);
    if after >= parts.len() {
        None
    } else {
        let tail = parts.skip(after as int);
        match first_occurrence(tail.flatten(), query) {
            Some(offset) => match piece_at(tail, offset) {
                Some(index) => Some((after + index) as nat),
                None => None,
            },
            None => None,
        }
    }
}

/// `query` stands in `text` and begins with the cluster at column `column`.
pub open spec fn stands_at(text: Seq<char>, query: Seq<char>, column: nat) -> bool {
    let parts = grapheme_clusters(text);
    column < parts.len() && occurs_at(text, query, start_of(parts, column as int))
}

/// The last column before column `before` at which `query` stands in `text`.
pub open spec fn found_before(text: Seq<char>, query: Seq<char>, before: nat) -> Option<nat>
    decreases before,
{
    if before == 0 {
        None
    } else if stands_at(text, query, (before - 1) as nat) {
        Some((before - 1) as nat)
    } else {
        found_before(text, query, (before - 1) as nat)
    }
}

/// Columns beyond the last one hold no match: a search from further right
/// finds what a search from the end of the text finds.
proof fn lemma_found_before_end(text: Seq<char>, query: Seq<char>, before: nat)
    requires
        before >= grapheme_clusters(text).len(),
    ensures
        found_before(text, query, before) == found_before(
            text,
            query,
            grapheme_clusters(text).len(),
        ),
    decreases before,
{
    if before > grapheme_clusters(text).len() {
        lemma_found_before_end(text, query, (before - 1) as nat);
    }
}

/// After `c` was put in at column `at` of `text`, it is the cluster at column
/// `at` of the new text, all by itself, and begins where the old cluster at
/// `at` began. A mark that joins the cluster before it, or a character that
/// draws its neighbours into one cluster, does not stand alone.
pub open spec fn stands_alone(text: Seq<char>, at: nat, c: char) -> bool {
    let before = grapheme_clusters(text);
    let after = grapheme_clusters(inserted(text, at, c));
    &&& at < after.len()
    &&& after[at as int] == seq![c]
    &&& start_of(after, at as int) == start_of(before, at as int)
}

/// A line of text together with the number of grapheme clusters in it.
pub struct Line {
    string: String,
    len: usize,
}

impl View for Line {
    type V = Seq<char>;

    closed spec fn view(&self) -> Seq<char> {
        self.string@
    }
}

impl Line {
    /// The count that the line keeps beside its text.
    pub closed spec fn cached_len(&self) -> nat {
        self.len as nat
    }

    /// The grapheme clusters of the line's text.
    pub open spec fn clusters(&self) -> Seq<Seq<char>> {
        grapheme_clusters(self@)
    }

    /// The kept count is the number of grapheme clusters of the text, and
    /// those clusters cut the text into non-empty pieces.
    pub open spec fn wf(&self) -> bool {
        &&& self.cached_len() == self.clusters().len()
        &&& is_partition(self.clusters(), self@)
    }

    /// Counts the clusters of the text anew.
    fn recount(&mut self)
        ensures
            final(self).wf(),
            final(self)@ == old(self)@,
    {
        self.len = split_graphemes(self.string.as_str()).len();
    }

    /// Takes `text` as the line's new text.
    fn replace(&mut self, text: String)
        ensures
            final(self).wf(),
            final(self)@ == text@,
    {
        self.string = text;
        self.recount();
    }

    /// The columns from `start` up to `end` as they are drawn: each tab as
    /// four blanks. Bounds beyond the line are cut down to it.
    pub fn render(&self, start: usize, end: usize) -> (drawing: String)
        requires
            self.wf(),
        ensures
            drawing@ == rendered(self@, start as nat, end as nat),
            end <= start || start >= self.clusters().len() ==> drawing@.len() == 0,
    {
        let parts = split_graphemes(self.string.as_str());
        let stop = if end < parts.len() { end } else { parts.len() };
        let first = if start < stop { start } else { stop };
        let ghost shown = texts(parts@).subrange(first as int, stop as int).map_values(
            |cluster: Seq<char>| drawn(cluster),
        );
        let mut drawing = String::new();
        let mut index: usize = first;
        while index < stop
            invariant
                first <= index <= stop <= parts.len(),
                shown == texts(parts@).subrange(first as int, stop as int).map_values(
                    |cluster: Seq<char>| drawn(cluster),
                ),
                drawing@ == shown.take(index - first).flatten(),
            decreases stop - index,
        {
            let piece = parts[index].as_str();
            if piece.unicode_len() == 1 && piece.get_char(0) == '\t' {
                proof {
                    reveal_strlit("    ");
                    assert(piece@ =~= seq!['\t']);
                }
                drawing.append("    ");
            } else {
                drawing.append(piece);
            }
            proof {
                lemma_join_step(shown, 0, index - first);
            }
            index += 1;
        }
        assert(shown.take(stop - first) =~= shown);
        drawing
    }

    /// Puts `c` in before the cluster at column `at`, or at the end where the
    /// line has no such column.
    pub fn insert(&mut self, at: usize, c: char)
        requires
            old(self).wf(),
        ensures
            final(self).wf(),
            final(self)@ == inserted(old(self)@, at as nat, c),
    {
        let ghost parts_before = self.clusters();
        if at >= self.len {
            push_char(&mut self.string, c);
            proof {
                lemma_join_insert(parts_before, parts_before.len() as int, seq![c]);
                assert(parts_before.take(parts_before.len() as int) =~= parts_before);
            }
            self.recount();
            return;
        }
        let parts = split_graphemes(self.string.as_str());
        let mut text = String::new();
        append_range(&mut text, &parts, 0, at);
        push_char(&mut text, c);
        append_range(&mut text, &parts, at, parts.len());
        proof {
            lemma_join_insert(parts_before, at as int, seq![c]);
        }
        self.replace(text);
    }

    /// Takes out the cluster at column `at`. Where the line has no such
    /// column it stays as it is.
    pub fn delete(&mut self, at: usize)
        requires
            old(self).wf(),
        ensures
            final(self).wf(),
            final(self)@ == deleted(old(self)@, at as nat),
    {
        if at >= self.len {
            return;
        }
        let ghost parts_before = self.clusters();
        let parts = split_graphemes(self.string.as_str());
        let mut text = String::new();
        append_range(&mut text, &parts, 0, at);
        append_range(&mut text, &parts, at + 1, parts.len());
        proof {
            lemma_join_remove(parts_before, at as int);
        }
        self.replace(text);
    }

    /// Puts the text of `new` behind the line's own.
    pub fn append(&mut self, new: &Line)
        requires
            old(self).wf(),
        ensures
            final(self).wf(),
            final(self)@ == old(self)@ + new@,
    {
        self.string.append(new.string.as_str());
        self.recount();
    }

    /// Cuts the line in two before column `at`: the line keeps the clusters
    /// before it, the result holds those from it on. With `at` beyond the
    /// line the result is empty.
    pub fn split(&mut self, at: usize) -> (rest: Line)
        requires
            old(self).wf(),
        ensures
            final(self).wf(),
            rest.wf(),
            final(self)@ == left_of(old(self)@, at as nat),
            rest@ == right_of(old(self)@, at as nat),
    {
        let parts = split_graphemes(self.string.as_str());
        let cut = if at < parts.len() { at } else { parts.len() };
        let mut left = String::new();
        append_range(&mut left, &parts, 0, cut);
        let mut right = String::new();
        append_range(&mut right, &parts, cut, parts.len());
        self.replace(left);
        let mut rest = Line { string: String::new(), len: 0 };
        rest.replace(right);
        rest
    }

    /// The column of the first place at or after column `after` where
    /// `query` stands, if the search finds one that begins with a cluster.
    pub fn find(&self, query: &str, after: usize) -> (hit: Option<usize>)
        requires
            self.wf(),
        ensures
            match hit {
                Some(column) => found(self@, query@, after as nat) == Some(column as nat),
                None => found(self@, query@, after as nat) is None,
            },
    {
        let parts = split_graphemes(self.string.as_str());
        if after >= parts.len() {
            return None;
        }
        let ghost tail = texts(parts@).skip(after as int);
        let mut rest = String::new();
        append_range(&mut rest, &parts, after, parts.len());
        let hay = chars_of(rest.as_str());
        let needle = chars_of(query);
        let offset = match find_first(&hay, &needle) {
            Some(offset) => offset,
            None => {
                return None;
            },
        };
        let mut index: usize = after;
        let mut start: usize = 0;
        while index < parts.len()
            invariant
                after <= index <= parts.len(),
                tail == texts(parts@).skip(after as int),
                texts(parts@) == grapheme_clusters(self@),
                is_partition(texts(parts@), self@),
                hay@ == tail.flatten(),
                first_occurrence(tail.flatten(), query@) == Some(offset as int),
                offset <= hay.len(),
                start == start_of(tail, index - after),
                forall|k: int| 0 <= k < index - after ==> !begins_at(tail, k, offset as int),
            decreases parts.len() - index,
        {
            if start == offset {
                proof {
                    let here = index - after;
                    assert(begins_at(tail, here, offset as int));
                    assert forall|k: int| begins_at(tail, k, offset as int) implies k == here by {
                        if here < k {
                            lemma_starts_increase(tail, here, k);
                        }
                    }
                }
                return Some(index);
            }
            proof {
                let here = index - after;
                lemma_join_prefix(tail, here, here + 1);
                lemma_join_step(tail, here, here);
                lemma_join_prefix(tail, here + 1, tail.len() as int);
                assert(tail.take(tail.len() as int) =~= tail);
            }
            start += parts[index].as_str().unicode_len();
            index += 1;
        }
        None
    }

    /// The last column before column `before` at which `query` stands.
    pub fn find_before(&self, query: &str, before: usize) -> (hit: Option<usize>)
        requires
            self.wf(),
        ensures
            match hit {
                Some(column) => found_before(self@, query@, before as nat) == Some(column as nat),
                None => found_before(self@, query@, before as nat) is None,
            },
    {
        let parts = split_graphemes(self.string.as_str());
        let hay = chars_of(self.string.as_str());
        let needle = chars_of(query);
        let ghost pieces = texts(parts@);
        let mut starts: Vec<usize> = Vec::new();
        let mut offset: usize = 0;
        let mut index: usize = 0;
        while index < parts.len()
            invariant
                index <= parts.len(),
                pieces == texts(parts@),
                pieces.flatten().len() == hay.len(),
                starts.len() == index,
                offset == start_of(pieces, index as int),
                forall|k: int| 0 <= k < index ==> starts[k] == start_of(pieces, k),
            decreases parts.len() - index,
        {
            starts.push(offset);
            proof {
                lemma_join_prefix(pieces, index as int, index + 1);
                lemma_join_step(pieces, index as int, index as int);
                lemma_join_prefix(pieces, index + 1, pieces.len() as int);
                assert(pieces.take(pieces.len() as int) =~= pieces);
            }
            offset += parts[index].as_str().unicode_len();
            index += 1;
        }
        let mut column: usize = if before < parts.len() { before } else { parts.len() };
        proof {
            if before >= parts.len() {
                lemma_found_before_end(self@, query@, before as nat);
            }
        }
        while column > 0
            invariant
                column <= parts.len(),
                pieces == grapheme_clusters(self@),
                pieces.len() == parts.len(),
                starts.len() == parts.len(),
                forall|k: int| 0 <= k < parts.len() ==> starts[k] == start_of(pieces, k),
                hay@ == self@,
                needle@ == query@,
                found_before(self@, query@, before as nat) == found_before(
                    self@,
                    query@,
                    column as nat,
                ),
            decreases column,
        {
            column -= 1;
            if stands_here(&hay, &needle, starts[column]) {
                return Some(column);
            }
        }
        None
    }

    /// The line's text.
    pub fn as_str(&self) -> (text: &str)
        ensures
            text@ == self@,
    {
        self.string.as_str()
    }

    /// The line's text in UTF-8.
    pub fn as_bytes(&self) -> (bytes: &[u8])
        ensures
            bytes@ == vstd::utf8::encode_utf8(self@),
    {
        self.string.as_str().as_bytes()
    }

    /// The number of grapheme clusters in the line.
    pub fn len(&self) -> (n: usize)
        requires
            self.wf(),
        ensures
            n == self.clusters().len(),
    {
        self.len
    }

    /// Whether the line holds no text, which is to say no cluster.
    pub fn is_empty(&self) -> (empty: bool)
        requires
            self.wf(),
        ensures
            empty == (self@.len() == 0),
            empty == (self.clusters().len() == 0),
    {
        proof {
            let parts = self.clusters();
            if parts.len() > 0 {
                lemma_starts_increase(parts, 0, 1);
                lemma_join_prefix(parts, 1, parts.len() as int);
            }
        }
        self.string.as_str().is_empty()
    }
}

/// The columns of a line can be counted in a `usize`.
pub proof fn lemma_columns_fit(line: Line)
    requires
        line.wf(),
    ensures
        line.clusters().len() <= usize::MAX,
{
}

/// Putting a character in at a column of the line and then deleting at the
/// same column gives the line's text back, as long as the character stands
/// alone in the text it was put into. `with_c` is the line after the
/// insertion.
pub proof fn lemma_insert_then_delete(line: Line, with_c: Line, at: nat, c: char)
    requires
        line.wf(),
        with_c.wf(),
        with_c@ == inserted(line@, at, c),
        at < line.clusters().len(),
        stands_alone(line@, at, c),
    ensures
        deleted(with_c@, at) == line@,
{
    let before = line.clusters();
    let after = with_c.clusters();
    let place = at as int;
    let head = before.take(place).flatten();
    let tail = before.skip(place).flatten();
    // The new text is the old one with `c` between `head` and `tail`.
    lemma_join_insert(before, place, seq![c]);
    lemma_join_halves(before, place);
    // It is also its own clusters joined: those before `place`, which are as
    // long as `head`, then `c`, then those after `place`.
    lemma_join_halves(after, place);
    lemma_join_halves(after.skip(place), 1);
    assert(seq![after[place]].flatten() =~= after[place]) by {
        seq![after[place]].lemma_flatten_one_element();
    }
    assert(after.skip(place).skip(1) =~= after.skip(place + 1));
    // So the clusters before `place` join to `head` and those after it to
    // `tail`, and they are what the deletion leaves.
    lemma_join_remove(after, place);
    assert(head =~= with_c@.take(head.len() as int));
    assert(tail =~= with_c@.skip(head.len() as int + 1));
}

/// What a search forward finds is a column at or after the one it began at,
/// and the query stands there.
pub proof fn lemma_found_stands(line: Line, query: Seq<char>, after: nat)
    requires
        line.wf(),
        found(line@, query, after) is Some,
    ensures
        after <= found(line@, query, after)->0,
        stands_at(line@, query, found(line@, query, after)->0),
{
    let parts = line.clusters();
    let tail = parts.skip(after as int);
    let offset = first_occurrence(tail.flatten(), query)->0;
    let index = piece_at(tail, offset)->0;
    let begun = start_of(parts, after as int);
    lemma_cut(parts, line@, after as int);
    lemma_join_prefix(parts, after as int, after + index);
    assert(parts.subrange(after as int, after + index) =~= tail.take(index));
    assert(line@.subrange(begun + offset, begun + offset + query.len()) =~= tail.flatten().subrange(
        offset,
        offset + query.len(),
    ));
}

/// What a search backward finds is a column before the one it began at, the
/// query stands there, and it stands at no column between the two.
pub proof fn lemma_found_before_stands(text: Seq<char>, query: Seq<char>, before: nat)
    ensures
        match found_before(text, query, before) {
            Some(column) => {
                &&& column < before
                &&& stands_at(text, query, column)
                &&& forall|other: nat| column < other < before ==> !stands_at(text, query, other)
            },
            None => forall|other: nat| other < before ==> !stands_at(text, query, other),
        },
    decreases before,
{
    if before > 0 && !stands_at(text, query, (before - 1) as nat) {
        lemma_found_before_stands(text, query, (before - 1) as nat);
    }
}

/// A query that stands nowhere in the text of a line is found by no search
/// in it.
pub proof fn lemma_absent_in_line(line: Line, query: Seq<char>, from: nat)
    requires
        line.wf(),
        forall|at: int| !occurs_at(line@, query, at),
    ensures
        found(line@, query, from) is None,
        found_before(line@, query, from) is None,
{
    if found(line@, query, from) is Some {
        lemma_found_stands(line, query, from);
    }
    lemma_found_before_stands(line@, query, from);
}

/// Cutting a line in two at any column and putting the right half behind the
/// left one gives the line's text back.
pub proof fn lemma_split_then_append(line: Line, at: nat)
    requires
        line.wf(),
    ensures
        left_of(line@, at) + right_of(line@, at) == line@,
{
    let parts = line.clusters();
    lemma_join_halves(parts, at_most(at, parts.len()) as int);
}

/// What the edits of a line are in terms of its characters. With `cut` the
/// offset at which the cluster at column `at` begins (the length of the text
/// where `at` is no column): putting `c` in splices it into the text at
/// `cut`; cutting the line in two cuts the text at `cut`; and deleting takes
/// out the characters of the cluster at `at`, which begin at `cut`.
pub proof fn lemma_edits_by_offset(line: Line, at: nat, c: char)
    requires
        line.wf(),
    ensures
        ({
            let parts = line.clusters();
            let column = at_most(at, parts.len()) as int;
            let cut = start_of(parts, column);
            &&& 0 <= cut <= line@.len()
            &&& inserted(line@, at, c) == line@.take(cut).push(c) + line@.skip(cut)
            &&& left_of(line@, at) == line@.take(cut)
            &&& right_of(line@, at) == line@.skip(cut)
            &&& at < parts.len() ==> cut + parts[column].len() <= line@.len() && deleted(line@, at)
                == line@.take(cut) + line@.skip(cut + parts[column].len())
        }),
{
    let parts = line.clusters();
    let column = at_most(at, parts.len()) as int;
    lemma_cut(parts, line@, column);
    lemma_join_insert(parts, column, seq![c]);
    if at < parts.len() {
        lemma_join_remove(parts, column);
        lemma_cut(parts, line@, column + 1);
        lemma_join_prefix(parts, column, column + 1);
        lemma_join_step(parts, column, column);
    }
}

impl From<&str> for Line {
    /// A line with the text of `slice`.
    fn from(slice: &str) -> (line: Line)
        ensures
            line.wf(),
            line@ == slice@,
    {
        let count = split_graphemes(slice).len();
        Line { string: String::from_str(slice), len: count }
    }
}

impl FromSpecImpl<&str> for Line {
    /// Two strings with the same text are not known to be the same value, so
    /// `from` is not held to return the very line of `from_spec`: its own
    /// `ensures` says what that line is like.
    open spec fn obeys_from_spec() -> bool {
        false
    }

    /// Some well-formed line with the text of `slice`.
    open spec fn from_spec(slice: &str) -> Line {
        choose|line: Line| line.wf() && line@ == slice@
    }
}

impl Default for Line {
    /// The line without text.
    fn default() -> (line: Line)
        ensures
            line.wf(),
            line@ == Seq::<char>::empty(),
    {
        let mut line = Line { string: String::new(), len: 0 };
        line.replace(String::new());
        line
    }
}

} // verus!
