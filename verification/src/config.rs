//! Per-user configuration state: the configuration directory path, the list
//! of plugin files to load at startup, and default shells. Reading the
//! directory and files is a collaborator's job; the library holds the values
//! and the rule for which lines of the auto-load file count.

use vstd::prelude::*;
use vstd::string::StrSliceExecFns;

use crate::strutil::views_of;

verus! {

/// Whether an auto-load line is a comment: it starts with the comment marker.
pub open spec fn is_comment_line(l: Seq<char>) -> bool {
    l.len() > 0 && l[0] == ';'
}

/// The auto-load entries of a file's lines: every non-comment line, in order.
pub open spec fn autoplug_entries(ls: Seq<Seq<char>>) -> Seq<Seq<char>>
    decreases ls.len(),
{
    if ls.len() == 0 {
        Seq::<Seq<char>>::empty()
    } else {
        let rest = autoplug_entries(ls.drop_last());
        if is_comment_line(ls.last()) {
            rest
        } else {
            rest.push(ls.last())
        }
    }
}

/// Keeps the auto-load entries of `lines`, skipping comment lines.
pub fn filter_autoplug_lines(lines: &Vec<String>) -> (r: Vec<String>)
    ensures
        views_of(r@) == autoplug_entries(views_of(lines@)),
{
    let mut r: Vec<String> = Vec::new();
    let mut i: usize = 0;
    while i < lines.len()
        invariant
            i <= lines@.len(),
            views_of(r@) == autoplug_entries(views_of(lines@).subrange(0, i as int)),
        decreases lines@.len() - i,
    {
        let line = &lines[i];
        let keep = if line.as_str().unicode_len() > 0 {
            line.as_str().get_char(0) != ';'
        } else {
            true
        };
        let ghost prev = r@;
        if keep {
            r.push(crate::strutil::copy_str(line.as_str()));
        }
        proof {
            let sub = views_of(lines@).subrange(0, i + 1);
            assert(sub.drop_last() =~= views_of(lines@).subrange(0, i as int));
            assert(sub.last() == lines@[i as int]@);
            if keep {
                assert(views_of(r@) =~= views_of(prev).push(lines@[i as int]@));
            }
            assert(views_of(r@) =~= autoplug_entries(sub));
        }
        i = i + 1;
    }
    proof {
        assert(views_of(lines@).subrange(0, lines@.len() as int) =~= views_of(lines@));
    }
    r
}

/// The user's configuration: where it lives, which plugins to auto-load, and
/// the preferred shells (first for one platform family, second for the other).
pub struct FreviConfig {
    pub cfg_path: String,
    pub autoplugs: Vec<String>,
    pub defsh: (Option<String>, Option<String>),
}

impl FreviConfig {
    /// An empty configuration: no path, no auto-load entries, no shells.
    pub fn new() -> (c: FreviConfig)
        ensures
            c.cfg_path@ == Seq::<char>::empty(),
            c.autoplugs@ == Seq::<String>::empty(),
            c.defsh == (None::<String>, None::<String>),
    {
        FreviConfig { cfg_path: String::new(), autoplugs: Vec::new(), defsh: (None, None) }
    }
}

} // verus!
