//! The viewer-side line editor.
//!
//! A viewer types into a one-line input buffer; pressing Enter on a
//! non-empty buffer submits its contents as one input unit for the shared
//! session and clears the buffer. The connection plumbing around the
//! viewer turns the submitted characters into the text it sends.

use vstd::prelude::*;

verus! {

/// One key event from the viewer.
pub enum KeyInput {
    Enter,
    Backspace,
    Character(char),
    /// Any other key: ignored.
    Other,
}

/// The viewer's pending input line.
pub struct InputBuffer {
    pub text: Vec<char>,
}

impl InputBuffer {
    pub fn new() -> (b: InputBuffer)
        ensures
            b.text@ == Seq::<char>::empty(),
    {
        InputBuffer { text: Vec::new() }
    }

    /// Apply one key event. Enter on a non-empty buffer submits the whole
    /// line and empties the buffer; Enter on an empty buffer submits
    /// nothing; Backspace drops the last character, if any; a character is
    /// appended; any other key changes nothing.
    pub fn on_key(&mut self, key: KeyInput) -> (submit: Option<Vec<char>>)
        ensures
            match key {
                KeyInput::Enter => if old(self).text@.len() > 0 {
                    &&& submit matches Some(line) && line@ == old(self).text@
                    &&& final(self).text@ == Seq::<char>::empty()
                } else {
                    &&& submit is None
                    &&& final(self).text@ == old(self).text@
                },
                KeyInput::Backspace => {
                    &&& submit is None
                    &&& final(self).text@ == if old(self).text@.len() > 0 {
                        old(self).text@.drop_last()
                    } else {
                        old(self).text@
                    }
                },
                KeyInput::Character(c) => {
                    &&& submit is None
                    &&& final(self).text@ == old(self).text@.push(c)
                },
                KeyInput::Other => {
                    &&& submit is None
                    &&& final(self).text@ == old(self).text@
                },
            },
    {
        match key {
            KeyInput::Enter => {
                if self.text.len() > 0 {
                    let mut line: Vec<char> = Vec::new();
                    core::mem::swap(&mut line, &mut self.text);
                    Some(line)
                } else {
                    None
                }
            },
            KeyInput::Backspace => {
                let _dropped = self.text.pop();
                proof {
                    if old(self).text@.len() > 0 {
                        assert(self.text@ =~= old(self).text@.drop_last());
                    }
                }
                None
            },
            KeyInput::Character(c) => {
                self.text.push(c);
                None
            },
            KeyInput::Other => None,
        }
    }
}

} // verus!
