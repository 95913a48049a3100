//! The multi-line text input, and the splitting and joining of text
//! into lines that it is built on.

use crate::keys::{Key, KeyInput};
use crate::text::{append_chars, chars_of, chars_range, string_of};
use vstd::prelude::*;

verus! {

/// The views of a row of lines, one sequence per line.
pub open spec fn views_of(ls: Seq<Vec<char>>) -> Seq<Seq<char>> {
    Seq::new(ls.len(), |i: int| ls[i]@)
}

/// Text split at every newline character.  The split of the empty text
/// is one empty line, and every newline opens a fresh line, so the
/// split always holds at least one line and no line holds a newline.
pub open spec fn split_lines(s: Seq<char>) -> Seq<Seq<char>>
    decreases s.len(),
{
    if s.len() == 0 {
        seq![Seq::<char>::empty()]
    } else {
        let pre = split_lines(s.drop_last());
        if s.last() == '\n' {
            pre.push(Seq::<char>::empty())
        } else {
            pre.update(pre.len() - 1, pre.last().push(s.last()))
        }
    }
}

/// The lines glued back together with one newline between neighbours.
pub open spec fn join_lines(ls: Seq<Seq<char>>) -> Seq<char>
    decreases ls.len(),
{
    if ls.len() == 0 {
        Seq::<char>::empty()
    } else if ls.len() == 1 {
        ls[0]
    } else {
        join_lines(ls.drop_last()) + seq!['\n'] + ls.last()
    }
}

pub proof fn lemma_split_lines_nonempty(s: Seq<char>)
    ensures
        split_lines(s).len() >= 1,
    decreases s.len(),
{
    if s.len() > 0 {
        lemma_split_lines_nonempty(s.drop_last());
    }
}

/// Splitting and joining are inverse: reading a buffer built from any
/// text gives that text back, whatever it held.
pub proof fn lemma_join_split_lines(s: Seq<char>)
    ensures
        join_lines(split_lines(s)) == s,
    decreases s.len(),
{
    if s.len() == 0 {
        assert(join_lines(split_lines(s)) =~= s);
    } else {
        let p = s.drop_last();
        lemma_join_split_lines(p);
        lemma_split_lines_nonempty(p);
        let pre = split_lines(p);
        if s.last() == '\n' {
            let whole = pre.push(Seq::<char>::empty());
            assert(whole.drop_last() =~= pre);
            assert(join_lines(whole) =~= p + seq!['\n']);
            assert(p + seq!['\n'] =~= s);
        } else {
            let upd = pre.update(pre.len() - 1, pre.last().push(s.last()));
            if pre.len() == 1 {
                assert(join_lines(upd) == upd[0]);
                assert(upd[0] =~= p.push(s.last()));
                assert(p.push(s.last()) =~= s);
            } else {
                assert(upd.drop_last() =~= pre.drop_last());
                assert(upd.last() == pre.last().push(s.last()));
                assert(join_lines(upd) == join_lines(pre.drop_last()) + seq!['\n']
                    + pre.last().push(s.last()));
                assert(join_lines(pre) == join_lines(pre.drop_last()) + seq!['\n'] + pre.last());
                assert(join_lines(upd) =~= join_lines(pre).push(s.last()));
                assert(join_lines(pre).push(s.last()) =~= s);
            }
        }
    }
}

/// Multi-line text input: at least one line, and a cursor sitting on
/// row `cursor_y` between the characters of that line.
#[derive(PartialEq, Eq, Debug)]
pub struct MultilineInput {
    pub lines: Vec<Vec<char>>,
    pub cursor_x: usize,
    pub cursor_y: usize,
}

/// What inserting `c` leaves behind: a newline splits the cursor line in
/// two and puts the cursor at the start of the lower half; any other
/// character lands at the cursor, which steps past it.
pub open spec fn insert_char_post(pre: MultilineInput, post: MultilineInput, c: char) -> bool {
    let lv = views_of(pre.lines@);
    let line = lv[pre.cursor_y as int];
    if c == '\n' {
        &&& post.lines@.len() == pre.lines@.len() + 1
        &&& views_of(post.lines@) == lv.update(
            pre.cursor_y as int,
            line.subrange(0, pre.cursor_x as int),
        ).insert(pre.cursor_y + 1, line.subrange(pre.cursor_x as int, line.len() as int))
        &&& post.cursor_y == pre.cursor_y + 1
        &&& post.cursor_x == 0
    } else {
        &&& views_of(post.lines@) == lv.update(
            pre.cursor_y as int,
            line.insert(pre.cursor_x as int, c),
        )
        &&& post.cursor_y == pre.cursor_y
        &&& post.cursor_x == pre.cursor_x + 1
    }
}

/// What backspace leaves behind: inside a line it removes the character
/// before the cursor; at the start of a lower line it glues that line
/// onto the one above and parks the cursor on the seam; at the very
/// start it does nothing.
pub open spec fn delete_char_post(pre: MultilineInput, post: MultilineInput) -> bool {
    let lv = views_of(pre.lines@);
    let line = lv[pre.cursor_y as int];
    if pre.cursor_x > 0 {
        &&& views_of(post.lines@) == lv.update(
            pre.cursor_y as int,
            line.remove(pre.cursor_x - 1),
        )
        &&& post.cursor_y == pre.cursor_y
        &&& post.cursor_x == pre.cursor_x - 1
    } else if pre.cursor_y > 0 {
        &&& views_of(post.lines@) == lv.update(
            pre.cursor_y - 1,
            lv[pre.cursor_y - 1] + lv[pre.cursor_y as int],
        ).remove(pre.cursor_y as int)
        &&& post.cursor_y == pre.cursor_y - 1
        &&& post.cursor_x == lv[pre.cursor_y - 1].len()
    } else {
        post == pre
    }
}

/// One step left; at a line start the cursor jumps to the end of the
/// line above.
pub open spec fn move_left_post(pre: MultilineInput, post: MultilineInput) -> bool {
    let lv = views_of(pre.lines@);
    &&& post.lines@ == pre.lines@
    &&& if pre.cursor_x > 0 {
        post.cursor_y == pre.cursor_y && post.cursor_x == pre.cursor_x - 1
    } else if pre.cursor_y > 0 {
        post.cursor_y == pre.cursor_y - 1 && post.cursor_x == lv[pre.cursor_y - 1].len()
    } else {
        post.cursor_y == pre.cursor_y && post.cursor_x == pre.cursor_x
    }
}

/// One step right; at a line end the cursor jumps to the start of the
/// line below.
pub open spec fn move_right_post(pre: MultilineInput, post: MultilineInput) -> bool {
    let lv = views_of(pre.lines@);
    &&& post.lines@ == pre.lines@
    &&& if pre.cursor_x < lv[pre.cursor_y as int].len() {
        post.cursor_y == pre.cursor_y && post.cursor_x == pre.cursor_x + 1
    } else if pre.cursor_y + 1 < pre.lines@.len() {
        post.cursor_y == pre.cursor_y + 1 && post.cursor_x == 0
    } else {
        post.cursor_y == pre.cursor_y && post.cursor_x == pre.cursor_x
    }
}

/// One row up, the column clamped to the destination line's length.
pub open spec fn move_up_post(pre: MultilineInput, post: MultilineInput) -> bool {
    let lv = views_of(pre.lines@);
    &&& post.lines@ == pre.lines@
    &&& if pre.cursor_y > 0 {
        post.cursor_y == pre.cursor_y - 1 && post.cursor_x == if pre.cursor_x <= lv[pre.cursor_y
            - 1].len() {
            pre.cursor_x as int
        } else {
            lv[pre.cursor_y - 1].len() as int
        }
    } else {
        post.cursor_y == pre.cursor_y && post.cursor_x == pre.cursor_x
    }
}

/// One row down, the column clamped to the destination line's length.
pub open spec fn move_down_post(pre: MultilineInput, post: MultilineInput) -> bool {
    let lv = views_of(pre.lines@);
    &&& post.lines@ == pre.lines@
    &&& if pre.cursor_y + 1 < pre.lines@.len() {
        post.cursor_y == pre.cursor_y + 1 && post.cursor_x == if pre.cursor_x <= lv[pre.cursor_y
            + 1].len() {
            pre.cursor_x as int
        } else {
            lv[pre.cursor_y + 1].len() as int
        }
    } else {
        post.cursor_y == pre.cursor_y && post.cursor_x == pre.cursor_x
    }
}

/// What one key press does to a multi-line input: arrows move the
/// cursor, Enter splits the cursor line, a printable character lands at
/// the cursor, backspace deletes or glues lines, and every other key is
/// ignored.
pub open spec fn multiline_key_post(pre: MultilineInput, post: MultilineInput, e: KeyInput) -> bool {
    match e.code {
        Key::Up => move_up_post(pre, post),
        Key::Down => move_down_post(pre, post),
        Key::Left => move_left_post(pre, post),
        Key::Right => move_right_post(pre, post),
        Key::Enter => insert_char_post(pre, post, '\n'),
        Key::Char(c) => insert_char_post(pre, post, c),
        Key::Backspace => delete_char_post(pre, post),
        _ => post == pre,
    }
}

impl MultilineInput {
    /// There is always a line under the cursor, and the cursor column
    /// never leaves that line.
    pub open spec fn wf(self) -> bool {
        &&& self.lines@.len() >= 1
        &&& self.cursor_y < self.lines@.len()
        &&& self.cursor_x <= self.lines@[self.cursor_y as int]@.len()
    }

    /// The lines as sequences of characters.
    pub open spec fn lines_view(self) -> Seq<Seq<char>> {
        views_of(self.lines@)
    }

    /// Builds the buffer from the given text, split at every newline,
    /// with the cursor at the end of the last line.
    pub fn new(content: String) -> (r: MultilineInput)
        ensures
            r.lines_view() == split_lines(content@),
            r.cursor_y == split_lines(content@).len() - 1,
            r.cursor_x == split_lines(content@).last().len(),
            r.wf(),
    {
        let chars = chars_of(content.as_str());
        let mut lines: Vec<Vec<char>> = Vec::new();
        let mut cur: Vec<char> = Vec::new();
        proof {
            assert(chars@.subrange(0, 0) =~= Seq::<char>::empty());
            assert(split_lines(chars@.subrange(0, 0)) =~~= views_of(lines@).push(cur@));
        }
        let mut i: usize = 0;
        while i < chars.len()
            invariant
                i <= chars@.len(),
                chars@ == content@,
                split_lines(chars@.subrange(0, i as int)) == views_of(lines@).push(cur@),
            decreases chars@.len() - i,
        {
            let ghost pre_lines = lines@;
            let ghost pre_cur = cur@;
            let c = chars[i];
            proof {
                assert(chars@.subrange(0, i + 1).drop_last() =~= chars@.subrange(0, i as int));
                assert(chars@.subrange(0, i + 1).last() == chars@[i as int]);
            }
            if c == '\n' {
                lines.push(cur);
                cur = Vec::new();
                proof {
                    assert(split_lines(chars@.subrange(0, i + 1)) =~~= views_of(lines@).push(
                        cur@,
                    ));
                }
            } else {
                cur.push(c);
                proof {
                    let pre = views_of(pre_lines).push(pre_cur);
                    assert(pre.update(pre.len() - 1, pre.last().push(c)) =~~= views_of(
                        lines@,
                    ).push(cur@));
                }
            }
            i += 1;
        }
        proof {
            assert(chars@.subrange(0, chars@.len() as int) =~= chars@);
        }
        lines.push(cur);
        proof {
            assert(split_lines(content@) =~~= views_of(lines@));
            lemma_split_lines_nonempty(content@);
        }
        let cursor_y = lines.len() - 1;
        let cursor_x = lines[cursor_y].len();
        MultilineInput { lines, cursor_x, cursor_y }
    }

    /// The whole text, the lines joined with newlines.
    pub fn content(&self) -> (r: String)
        ensures
            r@ == join_lines(self.lines_view()),
    {
        let mut out: Vec<char> = Vec::new();
        let mut i: usize = 0;
        while i < self.lines.len()
            invariant
                i <= self.lines@.len(),
                i == 0 ==> out@ == Seq::<char>::empty(),
                i >= 1 ==> out@ == join_lines(views_of(self.lines@).subrange(0, i as int)),
            decreases self.lines@.len() - i,
        {
            let ghost pre_out = out@;
            if i > 0 {
                out.push('\n');
            }
            append_chars(&mut out, &self.lines[i]);
            proof {
                let lv = views_of(self.lines@);
                let part = lv.subrange(0, i + 1);
                assert(part.drop_last() =~= lv.subrange(0, i as int));
                assert(part.last() == lv[i as int]);
                if i == 0 {
                    assert(out@ =~= join_lines(part));
                } else {
                    assert(out@ =~= join_lines(lv.subrange(0, i as int)) + seq!['\n']
                        + lv[i as int]);
                }
            }
            i += 1;
        }
        proof {
            let lv = views_of(self.lines@);
            if self.lines@.len() == 0 {
                assert(join_lines(lv) == Seq::<char>::empty());
            } else {
                assert(lv.subrange(0, lv.len() as int) =~= lv);
            }
        }
        string_of(&out)
    }

    /// Puts `c` at the cursor; a newline splits the cursor line in two.
    pub fn insert_char(&mut self, c: char)
        requires
            old(self).wf(),
            old(self).lines@.len() < usize::MAX,
            old(self).lines@[old(self).cursor_y as int]@.len() < usize::MAX,
        ensures
            insert_char_post(*old(self), *final(self), c),
            final(self).wf(),
    {
        let ghost pre = *self;
        let cy = self.cursor_y;
        let cx = self.cursor_x;
        if c == '\n' {
            let removed = self.lines.remove(cy);
            let left = chars_range(&removed, 0, cx);
            let right = chars_range(&removed, cx, removed.len());
            self.lines.insert(cy, right);
            self.lines.insert(cy, left);
            self.cursor_y = cy + 1;
            self.cursor_x = 0;
            proof {
                let lv = views_of(pre.lines@);
                let line = lv[cy as int];
                assert(self.lines@ =~= pre.lines@.remove(cy as int).insert(cy as int, right).insert(
                    cy as int,
                    left,
                ));
                assert(views_of(self.lines@) =~~= lv.update(
                    cy as int,
                    line.subrange(0, cx as int),
                ).insert(cy + 1, line.subrange(cx as int, line.len() as int)));
            }
        } else {
            let mut line = self.lines.remove(cy);
            line.insert(cx, c);
            self.lines.insert(cy, line);
            self.cursor_x = cx + 1;
            proof {
                let lv = views_of(pre.lines@);
                let pline = lv[cy as int];
                assert(views_of(self.lines@) =~~= lv.update(cy as int, pline.insert(cx as int, c)));
            }
        }
    }

    /// Removes the character before the cursor, or glues the cursor
    /// line onto the line above when the cursor is at column zero.
    pub fn delete_char(&mut self)
        requires
            old(self).wf(),
        ensures
            delete_char_post(*old(self), *final(self)),
            final(self).wf(),
    {
        let ghost pre = *self;
        let cy = self.cursor_y;
        let cx = self.cursor_x;
        if cx > 0 {
            let mut line = self.lines.remove(cy);
            line.remove(cx - 1);
            self.lines.insert(cy, line);
            self.cursor_x = cx - 1;
            proof {
                let lv = views_of(pre.lines@);
                assert(views_of(self.lines@) =~~= lv.update(
                    cy as int,
                    lv[cy as int].remove(cx - 1),
                ));
            }
        } else if cy > 0 {
            let cur = self.lines.remove(cy);
            let mut prev = self.lines.remove(cy - 1);
            self.cursor_y = cy - 1;
            self.cursor_x = prev.len();
            append_chars(&mut prev, &cur);
            self.lines.insert(cy - 1, prev);
            proof {
                let lv = views_of(pre.lines@);
                assert(views_of(self.lines@) =~~= lv.update(
                    cy - 1,
                    lv[cy - 1] + lv[cy as int],
                ).remove(cy as int));
            }
        }
    }

    /// One step left, crossing onto the line above at a line start.
    pub fn move_cursor_left(&mut self)
        requires
            old(self).wf(),
        ensures
            move_left_post(*old(self), *final(self)),
            final(self).wf(),
    {
        if self.cursor_x > 0 {
            self.cursor_x = self.cursor_x - 1;
        } else if self.cursor_y > 0 {
            self.cursor_y = self.cursor_y - 1;
            self.cursor_x = self.lines[self.cursor_y].len();
        }
    }

    /// One step right, crossing onto the line below at a line end.
    pub fn move_cursor_right(&mut self)
        requires
            old(self).wf(),
        ensures
            move_right_post(*old(self), *final(self)),
            final(self).wf(),
    {
        if self.cursor_x < self.lines[self.cursor_y].len() {
            self.cursor_x = self.cursor_x + 1;
        } else if self.cursor_y < self.lines.len() - 1 {
            self.cursor_y = self.cursor_y + 1;
            self.cursor_x = 0;
        }
    }

    /// One row up, the column clamped to the new line's length.
    pub fn move_cursor_up(&mut self)
        requires
            old(self).wf(),
        ensures
            move_up_post(*old(self), *final(self)),
            final(self).wf(),
    {
        if self.cursor_y > 0 {
            self.cursor_y = self.cursor_y - 1;
            let len = self.lines[self.cursor_y].len();
            if self.cursor_x > len {
                self.cursor_x = len;
            }
        }
    }

    /// One row down, the column clamped to the new line's length.
    pub fn move_cursor_down(&mut self)
        requires
            old(self).wf(),
        ensures
            move_down_post(*old(self), *final(self)),
            final(self).wf(),
    {
        if self.cursor_y < self.lines.len() - 1 {
            self.cursor_y = self.cursor_y + 1;
            let len = self.lines[self.cursor_y].len();
            if self.cursor_x > len {
                self.cursor_x = len;
            }
        }
    }

    /// There is room for one more character and one more line.
    pub open spec fn has_room(self) -> bool {
        &&& self.lines@.len() < usize::MAX
        &&& self.lines@[self.cursor_y as int]@.len() < usize::MAX
    }

    /// Routes one key press: arrows move the cursor, Enter splits the
    /// line, a printable character is inserted, backspace deletes, and
    /// anything else is ignored.
    pub fn handle_key(&mut self, e: KeyInput)
        requires
            old(self).wf(),
            old(self).has_room(),
        ensures
            final(self).wf(),
            multiline_key_post(*old(self), *final(self), e),
    {
        match e.code {
            Key::Up => self.move_cursor_up(),
            Key::Down => self.move_cursor_down(),
            Key::Left => self.move_cursor_left(),
            Key::Right => self.move_cursor_right(),
            Key::Enter => self.insert_char('\n'),
            Key::Char(c) => self.insert_char(c),
            Key::Backspace => self.delete_char(),
            _ => {},
        }
    }
}

} // verus!
