//! One editable text buffer: a never-empty line sequence, a character-addressed
//! cursor, a scroll offset, a dirty flag and an edit-snapshot log.

use vstd::prelude::*;
use vstd::string::StrSliceExecFns;

use crate::edits::Edit;
use crate::strutil::{
    concat_lines, copy_str, insert_char_at, lines_of, no_newlines, remove_char_at, split_at_char,
    split_lines, views_of,
};

verus! {

/// One open, independently editable text buffer.
pub struct Tab {
    pub filename: String,
    pub buf: Vec<String>,
    /// (character column, line index)
    pub cursor_xy: (usize, usize),
    pub displayed_name: String,
    pub changed: bool,
    pub scroll_offset: usize,
    pub edit_hist: Vec<Edit>,
}

impl Tab {
    /// The buffer as a sequence of character sequences.
    pub open spec fn lines(self) -> Seq<Seq<char>> {
        views_of(self.buf@)
    }

    /// The line the cursor stands on.
    pub open spec fn cur_line(self) -> Seq<char> {
        self.lines()[self.cursor_xy.1 as int]
    }

    /// The buffer invariant: at least one line, the cursor inside the line
    /// sequence and at most one past the last character of its line, and no
    /// line holding a newline character.
    pub open spec fn wf(self) -> bool {
        &&& self.buf@.len() >= 1
        &&& (self.cursor_xy.1 as int) < self.buf@.len()
        &&& (self.cursor_xy.0 as int) <= self.cur_line().len()
        &&& no_newlines(self.lines())
        &&& forall|k: int| 0 <= k < self.edit_hist@.len() ==> (#[trigger] self.edit_hist@[k]).wf()
    }

    /// Everything but the text, the cursor, the dirty flag and the scroll
    /// offset is kept.
    pub open spec fn same_identity(self, other: Tab) -> bool {
        &&& self.filename == other.filename
        &&& self.displayed_name == other.displayed_name
        &&& self.edit_hist == other.edit_hist
    }

    /// A fresh tab: one empty line, cursor at the origin, clean, untitled.
    /// Shows `displayed_name`, or a default title when none is given.
    pub fn new(displayed_name: Option<String>) -> (t: Tab)
        ensures
            t.wf(),
            t.lines() == seq![Seq::<char>::empty()],
            t.cursor_xy == (0usize, 0usize),
            t.filename@ == Seq::<char>::empty(),
            t.changed == false,
            t.scroll_offset == 0,
            t.edit_hist@ == Seq::<Edit>::empty(),
            match displayed_name {
                Some(n) => t.displayed_name == n,
                None => t.displayed_name@ == "New tab"@,
            },
    {
        let name = match displayed_name {
            Some(n) => n,
            None => copy_str("New tab"),
        };
        let t = Tab {
            filename: String::new(),
            buf: vec![String::new()],
            cursor_xy: (0, 0),
            displayed_name: name,
            changed: false,
            scroll_offset: 0,
            edit_hist: Vec::new(),
        };
        proof {
            assert(t.lines() =~= seq![Seq::<char>::empty()]);
        }
        t
    }

    /// Inserts one character at the cursor. The cursor's character offset is
    /// translated to the character boundary, so multi-byte characters are
    /// never split; the column advances by one and the tab becomes dirty.
    pub fn insert_char(&mut self, c: char)
        requires
            old(self).wf(),
            c != '\n',
        ensures
            final(self).wf(),
            insert_char_rel(*old(self), *final(self), c),
    {
        let y = self.cursor_xy.1;
        let x = self.cursor_xy.0;
        if x == usize::MAX {
            return ;
        }
        let new_line = insert_char_at(&self.buf[y], x, c);
        self.buf.set(y, new_line);
        self.cursor_xy = (x + 1, y);
        self.changed = true;
        proof {
            assert(final(self).lines() =~= old(self).lines().update(
                y as int,
                old(self).cur_line().subrange(0, x as int) + seq![c]
                    + old(self).cur_line().subrange(x as int, old(self).cur_line().len() as int),
            ));
        }
    }

    /// Splits the cursor's line at the cursor: the line is truncated there,
    /// the remainder becomes a new line right after it, and the cursor moves
    /// to the start of that new line.
    pub fn split_line(&mut self)
        requires
            old(self).wf(),
        ensures
            final(self).wf(),
            split_line_rel(*old(self), *final(self)),
    {
        let y = self.cursor_xy.1;
        let x = self.cursor_xy.0;
        // the buffer length fits in usize, so the new line's index cannot
        // overflow below
        let buf_len = self.buf.len();
        proof {
            assert(y < buf_len);
        }
        let (left, right) = split_at_char(&self.buf[y], x);
        self.buf.set(y, left);
        self.buf.insert(y + 1, right);
        self.cursor_xy = (0, y + 1);
        self.changed = true;
        proof {
            assert(final(self).lines() =~= old(self).lines().update(
                y as int,
                old(self).cur_line().subrange(0, x as int),
            ).insert(
                y + 1,
                old(self).cur_line().subrange(x as int, old(self).cur_line().len() as int),
            ));
        }
    }

    /// Backspace. At column zero of a later line, the line is merged into the
    /// previous one and the cursor lands where that line used to end; at the
    /// very start of the buffer nothing happens; anywhere else the character
    /// left of the cursor is removed.
    pub fn backspace(&mut self)
        requires
            old(self).wf(),
        ensures
            final(self).wf(),
            backspace_rel(*old(self), *final(self)),
    {
        let y = self.cursor_xy.1;
        let x = self.cursor_xy.0;
        if x == 0 {
            if y == 0 {
                return ;
            }
            let plen = self.buf[y - 1].as_str().unicode_len();
            let merged = concat_lines(&self.buf[y - 1], &self.buf[y]);
            self.buf.set(y - 1, merged);
            self.buf.remove(y);
            self.cursor_xy = (plen, y - 1);
            self.changed = true;
            proof {
                assert(final(self).lines() =~= old(self).lines().update(
                    y - 1,
                    old(self).lines()[y - 1] + old(self).cur_line(),
                ).remove(y as int));
            }
        } else {
            let new_line = remove_char_at(&self.buf[y], x - 1);
            self.buf.set(y, new_line);
            self.cursor_xy = (x - 1, y);
            self.changed = true;
            proof {
                assert(final(self).lines() =~= old(self).lines().update(
                    y as int,
                    old(self).cur_line().subrange(0, x - 1) + old(self).cur_line().subrange(
                        x as int,
                        old(self).cur_line().len() as int,
                    ),
                ));
            }
        }
    }

    /// Moves the cursor up one line, clamping the line at the first line and
    /// the column at the target line's character length.
    pub fn move_cursor_up(&mut self)
        requires
            old(self).wf(),
        ensures
            final(self).wf(),
            move_cursor_up_rel(*old(self), *final(self)),
    {
        let y = self.cursor_xy.1;
        let new_y = if y > 0 {
            y - 1
        } else {
            0
        };
        let tlen = self.buf[new_y].as_str().unicode_len();
        let new_x = if self.cursor_xy.0 < tlen {
            self.cursor_xy.0
        } else {
            tlen
        };
        self.cursor_xy = (new_x, new_y);
    }

    /// Moves the cursor down one line, clamping the line at the last line and
    /// the column at the target line's character length.
    pub fn move_cursor_down(&mut self)
        requires
            old(self).wf(),
        ensures
            final(self).wf(),
            move_cursor_down_rel(*old(self), *final(self)),
    {
        let y = self.cursor_xy.1;
        let last = self.buf.len() - 1;
        let new_y = if y < last {
            y + 1
        } else {
            last
        };
        let tlen = self.buf[new_y].as_str().unicode_len();
        let new_x = if self.cursor_xy.0 < tlen {
            self.cursor_xy.0
        } else {
            tlen
        };
        self.cursor_xy = (new_x, new_y);
    }

    /// Moves the cursor one character left, stopping at column zero.
    pub fn move_cursor_left(&mut self)
        requires
            old(self).wf(),
        ensures
            final(self).wf(),
            move_cursor_left_rel(*old(self), *final(self)),
    {
        let x = self.cursor_xy.0;
        if x > 0 {
            self.cursor_xy = (x - 1, self.cursor_xy.1);
        }
    }

    /// Moves the cursor one character right, stopping one past the last
    /// character of the line.
    pub fn move_cursor_right(&mut self)
        requires
            old(self).wf(),
        ensures
            final(self).wf(),
            move_cursor_right_rel(*old(self), *final(self)),
    {
        let x = self.cursor_xy.0;
        let y = self.cursor_xy.1;
        let tlen = self.buf[y].as_str().unicode_len();
        if x < tlen {
            self.cursor_xy = (x + 1, y);
        }
    }

    /// Sets the scroll offset, clamped to the last line.
    pub fn update_scroll(&mut self, offset: usize)
        requires
            old(self).wf(),
        ensures
            final(self).wf(),
            update_scroll_rel(*old(self), *final(self), offset),
    {
        let max_scroll = self.buf.len() - 1;
        self.scroll_offset = if offset < max_scroll {
            offset
        } else {
            max_scroll
        };
    }

    /// Scrolls up by `amount` lines, stopping at the first line.
    pub fn scroll_up(&mut self, amount: usize)
        requires
            old(self).wf(),
        ensures
            final(self).wf(),
            scroll_up_rel(*old(self), *final(self), amount),
    {
        if self.scroll_offset >= amount {
            self.scroll_offset = self.scroll_offset - amount;
        } else {
            self.scroll_offset = 0;
        }
    }

    /// Scrolls down by `amount` lines, stopping at the last line.
    pub fn scroll_down(&mut self, amount: usize)
        requires
            old(self).wf(),
        ensures
            final(self).wf(),
            scroll_down_rel(*old(self), *final(self), amount),
    {
        let max_scroll = self.buf.len() - 1;
        if self.scroll_offset >= max_scroll {
            self.scroll_offset = max_scroll;
        } else {
            let room = max_scroll - self.scroll_offset;
            if amount < room {
                self.scroll_offset = self.scroll_offset + amount;
            } else {
                self.scroll_offset = max_scroll;
            }
        }
    }

    /// Replaces the whole buffer with the lines of `text`, puts the cursor at
    /// the origin and marks the tab clean, as when a file's contents are read
    /// into it.
    pub fn load_text(&mut self, text: &str)
        requires
            old(self).wf(),
        ensures
            final(self).wf(),
            final(self).lines() == lines_of(text@),
            final(self).cursor_xy == (0usize, 0usize),
            final(self).changed == false,
            final(self).scroll_offset == 0,
            final(self).same_identity(*old(self)),
    {
        self.buf = split_lines(text);
        self.cursor_xy = (0, 0);
        self.changed = false;
        self.scroll_offset = 0;
        proof {
            crate::strutil::lemma_lines_of_no_newlines(text@);
        }
    }

    /// Replaces the whole buffer with the lines of `content`; the cursor
    /// returns to the origin so it stays inside the new text.
    pub fn str_into_buf(&mut self, content: String)
        requires
            old(self).wf(),
        ensures
            final(self).wf(),
            final(self).lines() == lines_of(content@),
            final(self).cursor_xy == (0usize, 0usize),
            final(self).changed == old(self).changed,
            final(self).scroll_offset == 0,
            final(self).same_identity(*old(self)),
    {
        self.buf = split_lines(content.as_str());
        self.cursor_xy = (0, 0);
        self.scroll_offset = 0;
        proof {
            crate::strutil::lemma_lines_of_no_newlines(content@);
        }
    }
}

/// A tab exactly as `Tab::new` makes it with the default title: one empty
/// line, cursor at the origin, untitled, clean, unscrolled, no snapshots.
pub open spec fn is_fresh_tab(t: Tab) -> bool {
    &&& t.lines() == seq![Seq::<char>::empty()]
    &&& t.cursor_xy == (0usize, 0usize)
    &&& t.filename@ == Seq::<char>::empty()
    &&& t.changed == false
    &&& t.scroll_offset == 0
    &&& t.edit_hist@ == Seq::<Edit>::empty()
    &&& t.displayed_name@ == "New tab"@
}

/// Everything `Tab::insert_char` promises of the buffer before and after.
pub open spec fn insert_char_rel(pre: Tab, post: Tab, c: char) -> bool {
    &&& pre.cursor_xy.0 < usize::MAX ==> {
                &&& post.lines() == pre.lines().update(
                    pre.cursor_xy.1 as int,
                    pre.cur_line().subrange(0, pre.cursor_xy.0 as int) + seq![c]
                        + pre.cur_line().subrange(
                        pre.cursor_xy.0 as int,
                        pre.cur_line().len() as int,
                    ),
                )
                &&& post.cursor_xy.1 == pre.cursor_xy.1
                &&& post.cursor_xy.0 == pre.cursor_xy.0 + 1
                &&& post.changed == true
            }
    &&& pre.cursor_xy.0 == usize::MAX ==> post == pre
    &&& post.scroll_offset == pre.scroll_offset
    &&& post.same_identity(pre)
}

/// Everything `Tab::split_line` promises of the buffer before and after.
pub open spec fn split_line_rel(pre: Tab, post: Tab) -> bool {
    &&& post.lines() == pre.lines().update(
                pre.cursor_xy.1 as int,
                pre.cur_line().subrange(0, pre.cursor_xy.0 as int),
            ).insert(
                pre.cursor_xy.1 + 1,
                pre.cur_line().subrange(
                    pre.cursor_xy.0 as int,
                    pre.cur_line().len() as int,
                ),
            )
    &&& post.cursor_xy.0 == 0
    &&& post.cursor_xy.1 == pre.cursor_xy.1 + 1
    &&& post.changed == true
    &&& post.scroll_offset == pre.scroll_offset
    &&& post.same_identity(pre)
}

/// Everything `Tab::backspace` promises of the buffer before and after.
pub open spec fn backspace_rel(pre: Tab, post: Tab) -> bool {
    &&& post.scroll_offset == pre.scroll_offset
    &&& post.same_identity(pre)
    &&& pre.cursor_xy.0 == 0 && pre.cursor_xy.1 == 0 ==> post == pre
    &&& pre.cursor_xy.0 == 0 && pre.cursor_xy.1 > 0 ==> {
                &&& post.lines() == pre.lines().update(
                    pre.cursor_xy.1 - 1,
                    pre.lines()[pre.cursor_xy.1 - 1] + pre.cur_line(),
                ).remove(pre.cursor_xy.1 as int)
                &&& post.cursor_xy.1 == pre.cursor_xy.1 - 1
                &&& post.cursor_xy.0 == pre.lines()[pre.cursor_xy.1 - 1].len()
                &&& post.changed == true
            }
    &&& pre.cursor_xy.0 > 0 ==> {
                &&& post.lines() == pre.lines().update(
                    pre.cursor_xy.1 as int,
                    pre.cur_line().subrange(0, pre.cursor_xy.0 - 1) + pre.cur_line().subrange(
                        pre.cursor_xy.0 as int,
                        pre.cur_line().len() as int,
                    ),
                )
                &&& post.cursor_xy.1 == pre.cursor_xy.1
                &&& post.cursor_xy.0 == pre.cursor_xy.0 - 1
                &&& post.changed == true
            }
}

/// Everything `Tab::move_cursor_up` promises of the buffer before and after.
pub open spec fn move_cursor_up_rel(pre: Tab, post: Tab) -> bool {
    &&& post.lines() == pre.lines()
    &&& post.cursor_xy.1 == if pre.cursor_xy.1 > 0 {
                pre.cursor_xy.1 - 1
            } else {
                0int
            }
    &&& post.cursor_xy.0 == vstd::math::min(
                pre.cursor_xy.0 as int,
                post.cur_line().len() as int,
            )
    &&& post.changed == pre.changed
    &&& post.scroll_offset == pre.scroll_offset
    &&& post.same_identity(pre)
}

/// Everything `Tab::move_cursor_down` promises of the buffer before and after.
pub open spec fn move_cursor_down_rel(pre: Tab, post: Tab) -> bool {
    &&& post.lines() == pre.lines()
    &&& post.cursor_xy.1 == vstd::math::min(
                pre.cursor_xy.1 + 1,
                pre.lines().len() - 1,
            )
    &&& post.cursor_xy.0 == vstd::math::min(
                pre.cursor_xy.0 as int,
                post.cur_line().len() as int,
            )
    &&& post.changed == pre.changed
    &&& post.scroll_offset == pre.scroll_offset
    &&& post.same_identity(pre)
}

/// Everything `Tab::move_cursor_left` promises of the buffer before and after.
pub open spec fn move_cursor_left_rel(pre: Tab, post: Tab) -> bool {
    &&& post.lines() == pre.lines()
    &&& post.cursor_xy.1 == pre.cursor_xy.1
    &&& post.cursor_xy.0 == if pre.cursor_xy.0 > 0 {
                pre.cursor_xy.0 - 1
            } else {
                0int
            }
    &&& post.changed == pre.changed
    &&& post.scroll_offset == pre.scroll_offset
    &&& post.same_identity(pre)
}

/// Everything `Tab::move_cursor_right` promises of the buffer before and after.
pub open spec fn move_cursor_right_rel(pre: Tab, post: Tab) -> bool {
    &&& post.lines() == pre.lines()
    &&& post.cursor_xy.1 == pre.cursor_xy.1
    &&& post.cursor_xy.0 == vstd::math::min(
                pre.cursor_xy.0 + 1,
                pre.cur_line().len() as int,
            )
    &&& post.changed == pre.changed
    &&& post.scroll_offset == pre.scroll_offset
    &&& post.same_identity(pre)
}

/// Everything `Tab::update_scroll` promises of the buffer before and after.
pub open spec fn update_scroll_rel(pre: Tab, post: Tab, offset: usize) -> bool {
    &&& post.scroll_offset == vstd::math::min(
                offset as int,
                pre.lines().len() - 1,
            )
    &&& post.buf == pre.buf
    &&& post.cursor_xy == pre.cursor_xy
    &&& post.changed == pre.changed
    &&& post.same_identity(pre)
}

/// Everything `Tab::scroll_up` promises of the buffer before and after.
pub open spec fn scroll_up_rel(pre: Tab, post: Tab, amount: usize) -> bool {
    &&& post.scroll_offset == if pre.scroll_offset >= amount {
                pre.scroll_offset - amount
            } else {
                0int
            }
    &&& post.buf == pre.buf
    &&& post.cursor_xy == pre.cursor_xy
    &&& post.changed == pre.changed
    &&& post.same_identity(pre)
}

/// Everything `Tab::scroll_down` promises of the buffer before and after.
pub open spec fn scroll_down_rel(pre: Tab, post: Tab, amount: usize) -> bool {
    &&& post.scroll_offset == vstd::math::min(
                pre.scroll_offset + amount,
                pre.lines().len() - 1,
            )
    &&& post.buf == pre.buf
    &&& post.cursor_xy == pre.cursor_xy
    &&& post.changed == pre.changed
    &&& post.same_identity(pre)
}

} // verus!
