//! Grapheme clusters: the unit in which every column of the buffer is counted.

use unicode_segmentation::UnicodeSegmentation;
use vstd::prelude::*;
use vstd::seq_lib::lemma_flatten_concat;
use vstd::string::*;

verus! {

/// The extended grapheme clusters of `text`, in order, as Unicode Standard
/// Annex #29 cuts them. The rules fill pages of tables, so the result has a
/// name and no definition here.
pub uninterp spec fn grapheme_clusters(text: Seq<char>) -> Seq<Seq<char>>;

/// `parts` cuts `text` into consecutive pieces, none of them empty.
pub open spec fn is_partition(parts: Seq<Seq<char>>, text: Seq<char>) -> bool {
    &&& parts.flatten() == text
    &&& forall|i: int| 0 <= i < parts.len() ==> (#[trigger] parts[i]).len() > 0
}

/// The texts of a vector of strings.
pub open spec fn texts(parts: Seq<String>) -> Seq<Seq<char>> {
    parts.map_values(|part: String| part@)
}

/// The character offset at which piece `index` begins once the pieces are
/// joined.
pub open spec fn start_of(parts: Seq<Seq<char>>, index: int) -> int {
    parts.take(index).flatten().len() as int
}

/// Calls `UnicodeSegmentation::graphemes` with `is_extended` set and copies
/// each cluster into a `String`.
///
/// Taken on trust: the pieces are the grapheme clusters of `text`; the
/// iterator hands out consecutive slices of `text` from its start to its end,
/// so joined they give `text` back; and each slice holds at least one
/// character, since the cursor moves past a character before it reports a
/// boundary.
#[verifier::external_body]
pub(crate) fn split_graphemes(text: &str) -> (parts: Vec<String>)
    ensures
        texts(parts@) == grapheme_clusters(text@),
        is_partition(texts(parts@), text@),
{
    text.graphemes(true).map(String::from).collect()
}

/// Calls `String::push`, which appends one character to the string.
#[verifier::external_body]
pub(crate) fn push_char(target: &mut String, c: char)
    ensures
        final(target)@ == old(target)@.push(c),
{
    target.push(c);
}

/// Joining the first `to` pieces is joining the first `from` of them and then
/// the pieces from `from` to `to`.
pub proof fn lemma_join_prefix(parts: Seq<Seq<char>>, from: int, to: int)
    requires
        0 <= from <= to <= parts.len(),
    ensures
        parts.take(to).flatten() == parts.take(from).flatten() + parts.subrange(from, to).flatten(),
        start_of(parts, from) <= start_of(parts, to),
{
    assert(parts.take(to) =~= parts.take(from) + parts.subrange(from, to));
    lemma_flatten_concat(parts.take(from), parts.subrange(from, to));
}

/// Joining a run of pieces that is one piece longer appends that piece.
pub proof fn lemma_join_step(parts: Seq<Seq<char>>, from: int, to: int)
    requires
        0 <= from <= to < parts.len(),
    ensures
        parts.subrange(from, to + 1).flatten() == parts.subrange(from, to).flatten() + parts[to],
{
    assert(parts.subrange(from, to + 1) =~= parts.subrange(from, to).push(parts[to]));
    parts.subrange(from, to).lemma_flatten_push(parts[to]);
}

/// Joining all pieces is joining those before `at` and then those from `at`.
pub proof fn lemma_join_halves(parts: Seq<Seq<char>>, at: int)
    requires
        0 <= at <= parts.len(),
    ensures
        parts.flatten() == parts.take(at).flatten() + parts.skip(at).flatten(),
{
    assert(parts =~= parts.take(at) + parts.skip(at));
    lemma_flatten_concat(parts.take(at), parts.skip(at));
}

/// Joining after one piece was put in at `at`.
pub proof fn lemma_join_insert(parts: Seq<Seq<char>>, at: int, piece: Seq<char>)
    requires
        0 <= at <= parts.len(),
    ensures
        parts.insert(at, piece).flatten() == parts.take(at).flatten() + piece + parts.skip(
            at,
        ).flatten(),
{
    lemma_flatten_concat(parts.take(at).push(piece), parts.skip(at));
    parts.take(at).lemma_flatten_push(piece);
}

/// Joining after the piece at `at` was taken out.
pub proof fn lemma_join_remove(parts: Seq<Seq<char>>, at: int)
    requires
        0 <= at < parts.len(),
    ensures
        parts.remove(at).flatten() == parts.take(at).flatten() + parts.skip(at + 1).flatten(),
{
    lemma_flatten_concat(parts.take(at), parts.skip(at + 1));
}

/// The pieces before piece `at`, joined, are the text up to where piece `at`
/// begins, and the pieces from `at` on are the text from there on.
pub proof fn lemma_cut(parts: Seq<Seq<char>>, text: Seq<char>, at: int)
    requires
        parts.flatten() == text,
        0 <= at <= parts.len(),
    ensures
        0 <= start_of(parts, at) <= text.len(),
        parts.take(at).flatten() == text.take(start_of(parts, at)),
        parts.skip(at).flatten() == text.skip(start_of(parts, at)),
{
    lemma_join_halves(parts, at);
}

/// Where no piece is empty, later pieces begin at greater offsets.
pub proof fn lemma_starts_increase(parts: Seq<Seq<char>>, first: int, second: int)
    requires
        0 <= first < second <= parts.len(),
        forall|i: int| 0 <= i < parts.len() ==> (#[trigger] parts[i]).len() > 0,
    ensures
        start_of(parts, first) < start_of(parts, second),
{
    lemma_join_prefix(parts, first, first + 1);
    lemma_join_step(parts, first, first);
    lemma_join_prefix(parts, first + 1, second);
}

/// Appends the pieces from `from` up to `to` to `target`.
pub(crate) fn append_range(target: &mut String, parts: &Vec<String>, from: usize, to: usize)
    requires
        from <= to <= parts.len(),
    ensures
        final(target)@ == old(target)@ + texts(parts@).subrange(from as int, to as int).flatten(),
{
    let ghost before = target@;
    let mut index: usize = from;
    while index < to
        invariant
            from <= index <= to <= parts.len(),
            target@ == before + texts(parts@).subrange(from as int, index as int).flatten(),
        decreases to - index,
    {
        target.append(parts[index].as_str());
        proof {
            lemma_join_step(texts(parts@), from as int, index as int);
        }
        index += 1;
    }
}

} // verus!
