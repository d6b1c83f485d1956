//! Edit snapshots: a before/after view of a buffer change, kept in each tab's
//! append-only edit history. The snapshot can be displayed for inspection;
//! no automatic apply or undo is defined.

use vstd::prelude::*;

use crate::strutil::{no_newlines, views_of};
use crate::tabs::Tab;

verus! {

/// One recorded edit: the cursor span it covers and a snapshot of the buffer.
pub struct Edit {
    pub start_line: usize,
    pub start_x: usize,
    pub end_line: usize,
    pub end_x: usize,
    pub diff: Vec<String>,
}

impl Edit {
    /// A snapshot's buffer is a valid line sequence: never empty, no embedded
    /// newlines, so it can be shown as a tab.
    pub open spec fn wf(self) -> bool {
        &&& self.diff@.len() >= 1
        &&& no_newlines(views_of(self.diff@))
    }

    /// A fresh snapshot anchored at `cursor` (column, line), with an empty
    /// one-line buffer and a zero end position.
    pub fn new_at_curs(cursor: (usize, usize)) -> (e: Edit)
        ensures
            e.wf(),
            e.start_line == cursor.1,
            e.start_x == cursor.0,
            e.end_line == 0,
            e.end_x == 0,
            views_of(e.diff@) == seq![Seq::<char>::empty()],
    {
        let e = Edit {
            start_line: cursor.1,
            start_x: cursor.0,
            end_line: 0,
            end_x: 0,
            diff: vec![String::new()],
        };
        proof {
            assert(views_of(e.diff@) =~= seq![Seq::<char>::empty()]);
        }
        e
    }

    /// A tab displaying this snapshot's buffer, for debugging.
    pub fn dbg_show_edit(&mut self) -> (t: Tab)
        requires
            old(self).wf(),
        ensures
            *final(self) == *old(self),
            t.wf(),
            t.lines() == views_of(old(self).diff@),
            t.displayed_name@ == "Debug"@,
            t.filename@ == Seq::<char>::empty(),
            t.cursor_xy == (0usize, 0usize),
            t.changed == false,
            t.scroll_offset == 0,
            t.edit_hist@ == Seq::<crate::edits::Edit>::empty(),
    {
        let mut t = Tab::new(Some(crate::strutil::copy_str("Debug")));
        t.buf = crate::strutil::copy_lines(&self.diff);
        proof {
            assert(t.lines() == views_of(self.diff@));
            assert(t.buf@.len() == views_of(self.diff@).len());
        }
        t
    }
}

} // verus!
