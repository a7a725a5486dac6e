//! Text as a sequence of characters, and literal substring search over it.

use crate::grapheme::push_char;
use vstd::prelude::*;
use vstd::string::*;

verus! {

/// `needle` stands in `hay` at character offset `at`.
pub open spec fn occurs_at(hay: Seq<char>, needle: Seq<char>, at: int) -> bool {
    &&& 0 <= at
    &&& at + needle.len() <= hay.len()
    &&& hay.subrange(at, at + needle.len()) == needle
}

/// `needle` stands in `hay` at offset `at` and nowhere before it.
pub open spec fn is_first_occurrence(hay: Seq<char>, needle: Seq<char>, at: int) -> bool {
    &&& occurs_at(hay, needle, at)
    &&& forall|k: int| 0 <= k < at ==> !occurs_at(hay, needle, k)
}

/// The least offset at which `needle` stands in `hay`, if there is one.
pub open spec fn first_occurrence(hay: Seq<char>, needle: Seq<char>) -> Option<int> {
    if exists|at: int| is_first_occurrence(hay, needle, at) {
        Some(choose|at: int| is_first_occurrence(hay, needle, at))
    } else {
        None
    }
}

/// A first occurrence is the only one: `first_occurrence` names it.
pub proof fn lemma_first_occurrence_is(hay: Seq<char>, needle: Seq<char>, at: int)
    requires
        is_first_occurrence(hay, needle, at),
    ensures
        first_occurrence(hay, needle) == Some(at),
{
}

/// Where no offset holds `needle`, `first_occurrence` is `None`.
pub proof fn lemma_first_occurrence_none(hay: Seq<char>, needle: Seq<char>)
    requires
        forall|k: int| !occurs_at(hay, needle, k),
    ensures
        first_occurrence(hay, needle) is None,
{
}

/// The characters of `text`, one by one.
pub fn chars_of(text: &str) -> (chars: Vec<char>)
    ensures
        chars@ == text@,
{
    let mut chars: Vec<char> = Vec::new();
    for c in it: text.chars()
        invariant
            it.seq() == text@,
            chars@ == text@.take(it.index() as int),
    {
        chars.push(c);
    }
    chars
}

/// The first `count` of `chars` as a string, or all of them where they are
/// fewer.
pub fn string_of(chars: &Vec<char>, count: usize) -> (text: String)
    ensures
        text@ == chars@.take(
            if count < chars.len() {
                count as int
            } else {
                chars.len() as int
            },
        ),
{
    let stop = if count < chars.len() { count } else { chars.len() };
    let mut text = String::new();
    let mut index: usize = 0;
    while index < stop
        invariant
            index <= stop <= chars.len(),
            text@ == chars@.take(index as int),
        decreases stop - index,
    {
        push_char(&mut text, chars[index]);
        index += 1;
    }
    text
}

/// Whether `needle` stands in `hay` at offset `at`.
pub fn stands_here(hay: &Vec<char>, needle: &Vec<char>, at: usize) -> (stands: bool)
    ensures
        stands == occurs_at(hay@, needle@, at as int),
{
    if at > hay.len() || needle.len() > hay.len() - at {
        return false;
    }
    let mut matched: usize = 0;
    while matched < needle.len() && hay[at + matched] == needle[matched]
        invariant
            at + needle.len() <= hay.len(),
            matched <= needle.len(),
            forall|t: int| 0 <= t < matched ==> hay@[at + t] == needle@[t],
        decreases needle.len() - matched,
    {
        matched += 1;
    }
    proof {
        if matched == needle.len() {
            assert(hay@.subrange(at as int, at + needle.len()) =~= needle@);
        }
    }
    matched == needle.len()
}

/// Searches `hay` for `needle` from the left and gives the offset of the
/// first place where it stands. The empty needle stands at offset 0.
pub fn find_first(hay: &Vec<char>, needle: &Vec<char>) -> (found: Option<usize>)
    ensures
        match found {
            Some(at) => first_occurrence(hay@, needle@) == Some(at as int),
            None => first_occurrence(hay@, needle@) is None,
        },
{
    let mut start: usize = 0;
    while start < hay.len()
        invariant
            start <= hay.len(),
            forall|k: int| 0 <= k < start ==> !occurs_at(hay@, needle@, k),
        decreases hay.len() - start,
    {
        if stands_here(hay, needle, start) {
            proof {
                lemma_first_occurrence_is(hay@, needle@, start as int);
            }
            return Some(start);
        }
        start += 1;
    }
    if stands_here(hay, needle, start) {
        proof {
            lemma_first_occurrence_is(hay@, needle@, start as int);
        }
        return Some(start);
    }
    proof {
        lemma_first_occurrence_none(hay@, needle@);
    }
    None
}

} // verus!
