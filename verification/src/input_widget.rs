//! The single-line text input.

use crate::keys::{Key, KeyInput};
use crate::text::{chars_of, string_of};
use vstd::prelude::*;

verus! {

/// Single-line text input: a row of characters and a cursor that sits
/// between them, always inside `[0, content.len()]`.
#[derive(PartialEq, Eq, Debug)]
pub struct InputWidget {
    pub content: Vec<char>,
    pub cursor_position: usize,
}

/// What one key press does to a single-line input: arrows move the
/// cursor, a printable character lands at the cursor, backspace removes
/// the character before it, and every other key is ignored.
pub open spec fn input_key_post(pre: InputWidget, post: InputWidget, e: KeyInput) -> bool {
    match e.code {
        Key::Left => post.content == pre.content && post.cursor_position
            == if pre.cursor_position > 0 {
            (pre.cursor_position - 1) as usize
        } else {
            0usize
        },
        Key::Right => post.content == pre.content && post.cursor_position
            == if pre.cursor_position < pre.content@.len() {
            (pre.cursor_position + 1) as usize
        } else {
            pre.cursor_position
        },
        Key::Char(c) => post.content@ == pre.content@.insert(pre.cursor_position as int, c)
            && post.cursor_position == pre.cursor_position + 1,
        Key::Backspace => if pre.cursor_position == 0 {
            post == pre
        } else {
            post.content@ == pre.content@.remove(pre.cursor_position - 1) && post.cursor_position
                == pre.cursor_position - 1
        },
        _ => post == pre,
    }
}

impl InputWidget {
    /// The cursor never leaves the content.
    pub open spec fn wf(self) -> bool {
        self.cursor_position <= self.content@.len()
    }

    /// Starts with the given text and the cursor after its last character.
    pub fn new(content: String) -> (r: InputWidget)
        ensures
            r.content@ == content@,
            r.cursor_position == content@.len(),
            r.wf(),
    {
        let chars = chars_of(content.as_str());
        let n = chars.len();
        InputWidget { content: chars, cursor_position: n }
    }

    /// The text as one string.
    pub fn content(&self) -> (r: String)
        ensures
            r@ == self.content@,
    {
        string_of(&self.content)
    }

    /// Puts `c` at the cursor and moves the cursor past it.
    pub fn insert_char(&mut self, c: char)
        requires
            old(self).wf(),
            old(self).content@.len() < usize::MAX,
        ensures
            final(self).content@ == old(self).content@.insert(
                old(self).cursor_position as int,
                c,
            ),
            final(self).cursor_position == old(self).cursor_position + 1,
            final(self).wf(),
    {
        self.content.insert(self.cursor_position, c);
        self.cursor_position = self.cursor_position + 1;
    }

    /// Removes the character before the cursor; nothing happens with the
    /// cursor at the start.
    pub fn delete_char(&mut self)
        requires
            old(self).wf(),
        ensures
            old(self).cursor_position == 0 ==> *final(self) == *old(self),
            old(self).cursor_position > 0 ==> final(self).content@ == old(self).content@.remove(
                old(self).cursor_position - 1,
            ) && final(self).cursor_position == old(self).cursor_position - 1,
            final(self).wf(),
    {
        if self.cursor_position > 0 {
            self.cursor_position = self.cursor_position - 1;
            self.content.remove(self.cursor_position);
        }
    }

    /// One step left, stopping at the start.
    pub fn move_cursor_left(&mut self)
        ensures
            final(self).content == old(self).content,
            final(self).cursor_position == if old(self).cursor_position > 0 {
                (old(self).cursor_position - 1) as usize
            } else {
                0usize
            },
            old(self).wf() ==> final(self).wf(),
    {
        if self.cursor_position > 0 {
            self.cursor_position = self.cursor_position - 1;
        }
    }

    /// One step right, stopping after the last character.
    pub fn move_cursor_right(&mut self)
        ensures
            final(self).content == old(self).content,
            final(self).cursor_position == if old(self).cursor_position < old(
                self,
            ).content@.len() {
                (old(self).cursor_position + 1) as usize
            } else {
                old(self).cursor_position
            },
            old(self).wf() ==> final(self).wf(),
    {
        if self.cursor_position < self.content.len() {
            self.cursor_position = self.cursor_position + 1;
        }
    }

    /// There is room for one more character.
    pub open spec fn has_room(self) -> bool {
        self.content@.len() < usize::MAX
    }

    /// Routes one key press: arrows move the cursor, a printable
    /// character is inserted, backspace deletes, anything else is ignored.
    pub fn handle_key(&mut self, e: KeyInput)
        requires
            old(self).wf(),
            old(self).has_room(),
        ensures
            final(self).wf(),
            input_key_post(*old(self), *final(self), e),
    {
        match e.code {
            Key::Left => self.move_cursor_left(),
            Key::Right => self.move_cursor_right(),
            Key::Char(c) => self.insert_char(c),
            Key::Backspace => self.delete_char(),
            _ => {},
        }
    }
}

} // verus!
