//! The lines of text around the document: the status bar, the message bar
//! and the greeting, each cut to the width of the window.

use crate::substring::string_of;
use vstd::prelude::*;
use vstd::string::*;

verus! {

/// The digit for a number below ten.
pub open spec fn digit(value: nat) -> char {
    seq!['0', '1', '2', '3', '4', '5', '6', '7', '8', '9'][value as int]
}

/// A number in decimal digits, without leading zeros.
pub open spec fn decimal(value: nat) -> Seq<char>
    decreases value,
{
    if value < 10 {
        seq![digit(value)]
    } else {
        decimal(value / 10).push(digit(value % 10))
    }
}

/// A run of `count` blanks.
pub open spec fn blanks(count: nat) -> Seq<char> {
    Seq::new(count, |i: int| ' ')
}

/// `text` cut down to its first `width` characters.
pub open spec fn cut_to(text: Seq<char>, width: nat) -> Seq<char> {
    if width < text.len() {
        text.take(width as int)
    } else {
        text
    }
}

/// The name that the status bar shows for a document without a file.
pub open spec fn untitled() -> Seq<char> {
    seq!['[', 'u', 'n', 't', 'i', 't', 'l', 'e', 'd', ']']
}

/// The left part of the status bar: the first twenty characters of the
/// file's name, and the number of rows.
pub open spec fn status_left(name: Option<Seq<char>>, rows: nat) -> Seq<char> {
    let shown = match name {
        Some(file) => cut_to(file, 20),
        None => untitled(),
    };
    seq![' '] + shown + seq![' ', '-', ' '] + decimal(rows) + seq![' ', 'l', 'i', 'n', 'e', 's']
}

/// The right part of the status bar: the cursor's row, counted from one and
/// as far as a `usize` goes, and the number of rows.
pub open spec fn status_right(row: nat, rows: nat) -> Seq<char> {
    let shown = if row < usize::MAX {
        row + 1
    } else {
        row
    };
    decimal(shown) + seq!['/'] + decimal(rows)
}

/// The status bar in a window `width` characters wide: the left part, the
/// right part and two blanks, with as many blanks between the parts as it
/// takes to fill the window, and all of it cut to the window.
pub open spec fn status_text(name: Option<Seq<char>>, rows: nat, row: nat, width: nat) -> Seq<
    char,
> {
    let left = status_left(name, rows);
    let right = status_right(row, rows);
    let used = left.len() + right.len() + 2;
    let gap = if width > used {
        blanks((width - used) as nat)
    } else {
        Seq::empty()
    };
    cut_to(left + gap + right + seq![' ', ' '], width)
}

/// A line of the greeting in a window `width` characters wide: a tilde, and
/// the message moved towards the middle by blanks, cut to the window.
pub open spec fn welcome_text(message: Seq<char>, width: nat) -> Seq<char> {
    let free = if width > message.len() {
        (width - message.len()) as nat
    } else {
        0
    };
    let padding = free / 2;
    let gap = if padding > 0 {
        blanks((padding - 1) as nat)
    } else {
        Seq::empty()
    };
    cut_to(seq!['~'] + gap + message, width)
}

/// The number of nanoseconds for which a message stays on the message bar.
pub open spec fn message_life() -> nat {
    5_000_000_000
}

/// The digit for a number below ten.
fn digit_of(value: usize) -> (c: char)
    requires
        value < 10,
    ensures
        c == digit(value as nat),
{
    match value {
        0 => '0',
        1 => '1',
        2 => '2',
        3 => '3',
        4 => '4',
        5 => '5',
        6 => '6',
        7 => '7',
        8 => '8',
        _ => '9',
    }
}

/// Appends `value` in decimal digits.
fn push_decimal(line: &mut Vec<char>, value: usize)
    ensures
        final(line)@ == old(line)@ + decimal(value as nat),
    decreases value,
{
    if value >= 10 {
        push_decimal(line, value / 10);
    }
    line.push(digit_of(value % 10));
}

/// Appends `count` blanks.
fn push_blanks(line: &mut Vec<char>, count: usize)
    ensures
        final(line)@ == old(line)@ + blanks(count as nat),
{
    let ghost before = line@;
    let mut index: usize = 0;
    while index < count
        invariant
            index <= count,
            line@ == before + blanks(index as nat),
        decreases count - index,
    {
        line.push(' ');
        index += 1;
    }
}

/// Appends the first `limit` characters of `text`, or all of them where they
/// are fewer.
fn push_text(line: &mut Vec<char>, text: &str, limit: usize)
    ensures
        final(line)@ == old(line)@ + cut_to(text@, limit as nat),
{
    let ghost before = line@;
    let mut taken: usize = 0;
    for c in it: text.chars()
        invariant
            it.seq() == text@,
            taken == if it.index() < limit {
                it.index()
            } else {
                limit as int
            },
            line@ == before + text@.take(taken as int),
    {
        if taken < limit {
            line.push(c);
            taken += 1;
        }
    }
}

/// The text of the status bar for a document bound to the file `filename`,
/// with `rows` rows and the cursor in row `row`, in a window of `width`
/// columns. See [`status_text`].
pub fn status_line(filename: Option<&String>, rows: usize, row: usize, width: usize) -> (line:
    String)
    ensures
        line@ == status_text(
            match filename {
                Some(file) => Some(file@),
                None => None,
            },
            rows as nat,
            row as nat,
            width as nat,
        ),
{
    let mut left: Vec<char> = Vec::new();
    left.push(' ');
    match filename {
        Some(file) => {
            push_text(&mut left, file.as_str(), 20);
        },
        None => {
            proof {
                reveal_strlit("[untitled]");
            }
            push_text(&mut left, "[untitled]", 10);
        },
    }
    proof {
        reveal_strlit(" - ");
        reveal_strlit(" lines");
    }
    push_text(&mut left, " - ", 3);
    push_decimal(&mut left, rows);
    push_text(&mut left, " lines", 6);
    let mut right: Vec<char> = Vec::new();
    push_decimal(&mut right, row.saturating_add(1));
    right.push('/');
    push_decimal(&mut right, rows);
    let mut line = left;
    let used = line.len().saturating_add(right.len()).saturating_add(2);
    if width > used {
        push_blanks(&mut line, width - used);
    }
    line.append(&mut right);
    line.push(' ');
    line.push(' ');
    string_of(&line, width)
}

/// One line of the greeting, for a window of `width` columns. See
/// [`welcome_text`].
pub fn welcome_line(message: &str, width: usize) -> (line: String)
    ensures
        line@ == welcome_text(message@, width as nat),
{
    let len = message.unicode_len();
    let padding = width.saturating_sub(len) / 2;
    let mut line: Vec<char> = Vec::new();
    line.push('~');
    push_blanks(&mut line, padding.saturating_sub(1));
    push_text(&mut line, message, len);
    string_of(&line, width)
}

/// The text of the message bar for a message that is `age` nanoseconds old,
/// in a window of `width` columns: the message cut to the window while it
/// is younger than five seconds, nothing after that.
pub fn message_line(text: &str, age: u128, width: usize) -> (line: Option<String>)
    ensures
        match line {
            Some(shown) => age < message_life() && shown@ == cut_to(text@, width as nat),
            None => age >= message_life(),
        },
{
    if age < 5_000_000_000 {
        let mut line: Vec<char> = Vec::new();
        push_text(&mut line, text, width);
        Some(string_of(&line, width))
    } else {
        None
    }
}

} // verus!
