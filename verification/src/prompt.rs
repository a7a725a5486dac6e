//! A one-line question to the user: the answer as it is typed, key by key.

use crate::state::Key;
use crate::substring::{chars_of, string_of};
use vstd::prelude::*;

verus! {

/// Whether `c` is a control code: one of the code points up to U+001F, or
/// from U+007F to U+009F.
pub open spec fn is_control(c: char) -> bool {
    c as u32 <= 0x1f || 0x7f <= c as u32 <= 0x9f
}

/// The answer after a key: a character that is no control code is added at
/// its end, backspace takes its last character away, escape empties it. No
/// other key changes it.
pub open spec fn typed_after(typed: Seq<char>, key: Key) -> Seq<char> {
    match key {
        Key::Char(c) => if is_control(c) {
            typed
        } else {
            typed.push(c)
        },
        Key::Backspace => if typed.len() > 0 {
            typed.drop_last()
        } else {
            typed
        },
        Key::Esc => Seq::empty(),
        _ => typed,
    }
}

/// Whether a key ends the question: the line feed does, and so does escape.
pub open spec fn ends_prompt(key: Key) -> bool {
    key == Key::Char('\n') || key == Key::Esc
}

/// The answer to a question, as far as it is typed.
pub struct Prompt {
    typed: Vec<char>,
}

impl View for Prompt {
    type V = Seq<char>;

    closed spec fn view(&self) -> Seq<char> {
        self.typed@
    }
}

impl Prompt {
    /// A question whose answer begins as `initial`.
    pub fn new(initial: &str) -> (prompt: Prompt)
        ensures
            prompt@ == initial@,
    {
        Prompt { typed: chars_of(initial) }
    }

    /// Takes one key and says whether it ends the question.
    pub fn feed(&mut self, key: Key) -> (done: bool)
        ensures
            final(self)@ == typed_after(old(self)@, key),
            done == ends_prompt(key),
    {
        match key {
            Key::Char(c) => {
                if c == '\n' {
                    return true;
                }
                let code = c as u32;
                if !(code <= 0x1f || (0x7f <= code && code <= 0x9f)) {
                    self.typed.push(c);
                }
                false
            },
            Key::Backspace => {
                if self.typed.len() > 0 {
                    self.typed.pop();
                }
                false
            },
            Key::Esc => {
                self.typed.clear();
                true
            },
            _ => false,
        }
    }

    /// The answer as it stands.
    pub fn text(&self) -> (text: String)
        ensures
            text@ == self@,
    {
        let text = string_of(&self.typed, self.typed.len());
        text
    }

    /// The answer once the question has ended: none where nothing is typed.
    pub fn finish(self) -> (answer: Option<String>)
        ensures
            match answer {
                Some(text) => self@.len() > 0 && text@ == self@,
                None => self@.len() == 0,
            },
    {
        if self.typed.len() == 0 {
            None
        } else {
            Some(self.text())
        }
    }
}

} // verus!
