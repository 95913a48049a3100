//! The expiry-duration input: a digit buffer and a cyclic unit picker.

use crate::keys::{Key, KeyInput};
use vstd::prelude::*;

verus! {

/// The unit of an expiry duration.
#[derive(Clone, Copy, PartialEq, Eq, Structural, Debug)]
pub enum TimeUnit {
    Day,
    Minute,
    Hour,
}

impl Default for TimeUnit {
    /// A fresh duration counts minutes.
    fn default() -> (r: TimeUnit)
        ensures
            r == TimeUnit::Minute,
    {
        TimeUnit::Minute
    }
}

impl TimeUnit {
    pub open spec fn spec_next(self) -> TimeUnit {
        match self {
            TimeUnit::Day => TimeUnit::Minute,
            TimeUnit::Minute => TimeUnit::Hour,
            TimeUnit::Hour => TimeUnit::Day,
        }
    }

    pub open spec fn spec_prev(self) -> TimeUnit {
        match self {
            TimeUnit::Day => TimeUnit::Hour,
            TimeUnit::Minute => TimeUnit::Day,
            TimeUnit::Hour => TimeUnit::Minute,
        }
    }

    /// The unit one step forward in the cycle Minute, Hour, Day.
    pub fn next(&self) -> (r: TimeUnit)
        ensures
            r == self.spec_next(),
    {
        match self {
            TimeUnit::Day => TimeUnit::Minute,
            TimeUnit::Minute => TimeUnit::Hour,
            TimeUnit::Hour => TimeUnit::Day,
        }
    }

    /// The unit one step backward in the cycle Minute, Hour, Day.
    pub fn prev(&self) -> (r: TimeUnit)
        ensures
            r == self.spec_prev(),
    {
        match self {
            TimeUnit::Day => TimeUnit::Hour,
            TimeUnit::Minute => TimeUnit::Day,
            TimeUnit::Hour => TimeUnit::Minute,
        }
    }

    /// The unit's name on screen and on the wire.
    pub fn to_string(&self) -> (r: &'static str)
        ensures
            *self == TimeUnit::Day ==> r@ == "Day"@,
            *self == TimeUnit::Minute ==> r@ == "Minute"@,
            *self == TimeUnit::Hour ==> r@ == "Hour"@,
    {
        match self {
            TimeUnit::Day => "Day",
            TimeUnit::Minute => "Minute",
            TimeUnit::Hour => "Hour",
        }
    }
}

/// Stepping forward through all three units comes back around, stepping
/// backward likewise, and one step back undoes one step forward.
pub proof fn lemma_time_unit_cycle(u: TimeUnit)
    ensures
        u.spec_next().spec_next().spec_next() == u,
        u.spec_prev().spec_prev().spec_prev() == u,
        u.spec_next().spec_prev() == u,
        u.spec_prev().spec_next() == u,
{
}

/// A finished duration: how many of which unit.
#[derive(Clone, Copy, PartialEq, Eq, Structural, Debug)]
pub struct ExpireAt {
    pub time: usize,
    pub unit: TimeUnit,
}

/// A decimal digit.
pub open spec fn is_digit_char(c: char) -> bool {
    48 <= c as u32 <= 57
}

/// The value of one digit.
pub open spec fn digit_val(c: char) -> int {
    c as u32 - 48
}

/// Every character is a decimal digit.
pub open spec fn all_digits(s: Seq<char>) -> bool {
    forall|i: int| 0 <= i < s.len() ==> is_digit_char(s[i])
}

/// The number that a row of decimal digits denotes, most significant
/// digit first.
pub open spec fn digits_value(s: Seq<char>) -> int
    decreases s.len(),
{
    if s.len() == 0 {
        0
    } else {
        digits_value(s.drop_last()) * 10 + digit_val(s.last())
    }
}

pub proof fn lemma_digits_value_nonneg(s: Seq<char>)
    requires
        all_digits(s),
    ensures
        digits_value(s) >= 0,
    decreases s.len(),
{
    if s.len() > 0 {
        assert(all_digits(s.drop_last()));
        lemma_digits_value_nonneg(s.drop_last());
    }
}

/// A digit prefix never denotes more than the whole row.
pub proof fn lemma_digits_value_prefix(s: Seq<char>, j: int)
    requires
        all_digits(s),
        0 <= j <= s.len(),
    ensures
        digits_value(s.subrange(0, j)) <= digits_value(s),
    decreases s.len() - j,
{
    if j == s.len() {
        assert(s.subrange(0, j) =~= s);
    } else {
        let shorter = s.subrange(0, j);
        let longer = s.subrange(0, j + 1);
        assert(longer.drop_last() =~= shorter);
        assert(all_digits(shorter));
        lemma_digits_value_nonneg(shorter);
        assert(is_digit_char(s[j]));
        assert(digits_value(longer) == digits_value(shorter) * 10 + digit_val(s[j]));
        lemma_digits_value_prefix(s, j + 1);
    }
}

/// Duration input: a row of decimal digits with its own cursor, plus a
/// unit picked from a cyclic selector.
#[derive(PartialEq, Eq, Debug)]
pub struct ExpireAtWidget {
    pub time: Vec<char>,
    pub unit: TimeUnit,
    pub cursor_position: usize,
}

/// What one key press does to a duration input: arrows move the cursor,
/// `l` and `h` cycle the unit forward and backward, a digit lands at the
/// cursor, any other character is refused, backspace removes the digit
/// before the cursor, and every other key is ignored.
pub open spec fn expire_key_post(pre: ExpireAtWidget, post: ExpireAtWidget, e: KeyInput) -> bool {
    match e.code {
        Key::Left => post.time == pre.time && post.unit == pre.unit && post.cursor_position
            == if pre.cursor_position > 0 {
            (pre.cursor_position - 1) as usize
        } else {
            0usize
        },
        Key::Right => post.time == pre.time && post.unit == pre.unit && post.cursor_position
            == if pre.cursor_position < pre.time@.len() {
            (pre.cursor_position + 1) as usize
        } else {
            pre.cursor_position
        },
        Key::Char(c) => if c == 'l' {
            post.time == pre.time && post.cursor_position == pre.cursor_position && post.unit
                == pre.unit.spec_next()
        } else if c == 'h' {
            post.time == pre.time && post.cursor_position == pre.cursor_position && post.unit
                == pre.unit.spec_prev()
        } else if is_digit_char(c) {
            post.time@ == pre.time@.insert(pre.cursor_position as int, c) && post.cursor_position
                == pre.cursor_position + 1 && post.unit == pre.unit
        } else {
            post == pre
        },
        Key::Backspace => if pre.cursor_position == 0 {
            post == pre
        } else {
            post.time@ == pre.time@.remove(pre.cursor_position - 1) && post.cursor_position
                == pre.cursor_position - 1 && post.unit == pre.unit
        },
        _ => post == pre,
    }
}

impl ExpireAtWidget {
    /// Only digits in the buffer, and the cursor never leaves it.
    pub open spec fn wf(self) -> bool {
        &&& self.cursor_position <= self.time@.len()
        &&& all_digits(self.time@)
    }

    /// Starts at a single zero with the cursor after it, counting minutes.
    pub fn new() -> (r: ExpireAtWidget)
        ensures
            r.time@ =~= seq!['0'],
            r.unit == TimeUnit::Minute,
            r.cursor_position == 1,
            r.wf(),
    {
        let time = vec!['0'];
        proof {
            assert(time@ =~= seq!['0']);
        }
        ExpireAtWidget { time, unit: TimeUnit::Minute, cursor_position: 1 }
    }

    /// The duration the buffer denotes.
    pub fn time(&self) -> (r: ExpireAt)
        requires
            self.wf(),
            self.time@.len() > 0,
            digits_value(self.time@) <= usize::MAX,
        ensures
            r.time == digits_value(self.time@),
            r.unit == self.unit,
    {
        let mut acc: usize = 0;
        let mut i: usize = 0;
        proof {
            assert(self.time@.subrange(0, 0) =~= Seq::<char>::empty());
        }
        while i < self.time.len()
            invariant
                self.wf(),
                digits_value(self.time@) <= usize::MAX,
                i <= self.time@.len(),
                acc == digits_value(self.time@.subrange(0, i as int)),
            decreases self.time@.len() - i,
        {
            let c = self.time[i];
            proof {
                assert(is_digit_char(self.time@[i as int]));
                let shorter = self.time@.subrange(0, i as int);
                let longer = self.time@.subrange(0, i + 1);
                assert(longer.drop_last() =~= shorter);
                assert(digits_value(longer) == digits_value(shorter) * 10 + digit_val(c));
                lemma_digits_value_nonneg(shorter);
                lemma_digits_value_prefix(self.time@, i + 1);
            }
            let d = (c as u32 - 48) as usize;
            acc = acc * 10 + d;
            i += 1;
        }
        proof {
            assert(self.time@.subrange(0, self.time@.len() as int) =~= self.time@);
        }
        ExpireAt { time: acc, unit: self.unit }
    }

    /// Puts the digit `c` at the cursor and moves the cursor past it.
    pub fn insert_char(&mut self, c: char)
        requires
            old(self).wf(),
            is_digit_char(c),
            old(self).time@.len() < usize::MAX,
        ensures
            final(self).time@ == old(self).time@.insert(old(self).cursor_position as int, c),
            final(self).cursor_position == old(self).cursor_position + 1,
            final(self).unit == old(self).unit,
            final(self).wf(),
    {
        self.time.insert(self.cursor_position, c);
        self.cursor_position = self.cursor_position + 1;
        proof {
            assert forall|j: int| 0 <= j < self.time@.len() implies is_digit_char(
                self.time@[j],
            ) by {
                assert(self.time@ == old(self).time@.insert(old(self).cursor_position as int, c));
            }
        }
    }

    /// Removes the digit before the cursor; nothing happens at the start.
    pub fn delete_char(&mut self)
        requires
            old(self).wf(),
        ensures
            old(self).cursor_position == 0 ==> *final(self) == *old(self),
            old(self).cursor_position > 0 ==> final(self).time@ == old(self).time@.remove(
                old(self).cursor_position - 1,
            ) && final(self).cursor_position == old(self).cursor_position - 1 && final(self).unit
                == old(self).unit,
            final(self).wf(),
    {
        if self.cursor_position > 0 {
            self.cursor_position = self.cursor_position - 1;
            self.time.remove(self.cursor_position);
            proof {
                assert forall|j: int| 0 <= j < self.time@.len() implies is_digit_char(
                    self.time@[j],
                ) by {
                    assert(self.time@ == old(self).time@.remove(old(self).cursor_position - 1));
                }
            }
        }
    }

    /// One step left, stopping at the start.
    pub fn move_cursor_left(&mut self)
        ensures
            final(self).time == old(self).time,
            final(self).unit == old(self).unit,
            final(self).cursor_position == if old(self).cursor_position > 0 {
                (old(self).cursor_position - 1) as usize
            } else {
                0usize
            },
            old(self).wf() ==> final(self).wf(),
    {
        if self.cursor_position > 0 {
            self.cursor_position = self.cursor_position - 1;
        }
    }

    /// One step right, stopping after the last digit.
    pub fn move_cursor_right(&mut self)
        ensures
            final(self).time == old(self).time,
            final(self).unit == old(self).unit,
            final(self).cursor_position == if old(self).cursor_position < old(self).time@.len() {
                (old(self).cursor_position + 1) as usize
            } else {
                old(self).cursor_position
            },
            old(self).wf() ==> final(self).wf(),
    {
        if self.cursor_position < self.time.len() {
            self.cursor_position = self.cursor_position + 1;
        }
    }

    /// There is room for one more digit.
    pub open spec fn has_room(self) -> bool {
        self.time@.len() < usize::MAX
    }

    /// Routes one key press: arrows move the cursor, `l` and `h` cycle
    /// the unit forward and backward, a digit is inserted, any other
    /// character is refused, and backspace deletes.
    pub fn handle_key(&mut self, e: KeyInput)
        requires
            old(self).wf(),
            old(self).has_room(),
        ensures
            final(self).wf(),
            expire_key_post(*old(self), *final(self), e),
    {
        match e.code {
            Key::Left => self.move_cursor_left(),
            Key::Right => self.move_cursor_right(),
            Key::Char(c) => {
                if c == 'l' {
                    self.unit = self.unit.next();
                } else if c == 'h' {
                    self.unit = self.unit.prev();
                } else {
                    let u = c as u32;
                    if u >= 48 && u <= 57 {
                        self.insert_char(c);
                    }
                }
            },
            Key::Backspace => self.delete_char(),
            _ => {},
        }
    }
}

} // verus!
