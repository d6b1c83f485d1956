//! The built-in command handlers. Each one either changes the editor state
//! directly or returns an `Action` naming the outside work it needs; the
//! caller performs that work and reports back through an `apply_*` function.

use vstd::prelude::*;
use vstd::string::StrSliceExecFns;

use crate::app::{Action, App, ReadFailure, ReadKind, ShellTarget};
use crate::strutil::{
    copy_str, join_lines, join_tokens, joined_tokens, lines_of, str_eq, text_of, views_of,
};
use crate::tabs::Tab;

verus! {

/// The status line shows `text` and nothing else changed about the input
/// line.
pub open spec fn status_set(post: App, text: Seq<char>) -> bool {
    &&& post.command_buf@ == text
    &&& post.status_message == true
    &&& post.cursor_pos_xy == (0usize, 0usize)
}

/// Everything a native command leaves alone unless said otherwise: the mode
/// flags, the side panel, the registries, the history and the recall cursor.
pub open spec fn frame(pre: App, post: App) -> bool {
    &&& post.insert_mode == pre.insert_mode
    &&& post.left_area_open == pre.left_area_open
    &&& post.left_area_used == pre.left_area_used
    &&& post.left_area == pre.left_area
    &&& post.commands == pre.commands
    &&& post.aliases == pre.aliases
    &&& post.command_hist == pre.command_hist
    &&& post.hist_ctr == pre.hist_ctr
    &&& post.version == pre.version
    &&& post.plugin_subsys == pre.plugin_subsys
    &&& post.config == pre.config
}

/// The tab set and active index did not move.
pub open spec fn tabs_kept(pre: App, post: App) -> bool {
    &&& post.tabs == pre.tabs
    &&& post.cur_tab == pre.cur_tab
}


/// `frame` without the history clauses: what a native command leaves alone
/// apart from the submission record its dispatcher makes.
pub open spec fn frame_nohist(pre: App, post: App) -> bool {
    &&& post.insert_mode == pre.insert_mode
    &&& post.left_area_open == pre.left_area_open
    &&& post.left_area_used == pre.left_area_used
    &&& post.left_area == pre.left_area
    &&& post.commands == pre.commands
    &&& post.aliases == pre.aliases
    &&& post.version == pre.version
    &&& post.plugin_subsys == pre.plugin_subsys
    &&& post.config == pre.config
}

/// `frame_but_panel` without the history clauses.
pub open spec fn frame_but_panel_nohist(pre: App, post: App) -> bool {
    &&& post.insert_mode == pre.insert_mode
    &&& post.left_area == pre.left_area
    &&& post.commands == pre.commands
    &&& post.aliases == pre.aliases
    &&& post.version == pre.version
    &&& post.plugin_subsys == pre.plugin_subsys
    &&& post.config == pre.config
}

/// `frame_but_plugins` without the history clauses.
pub open spec fn frame_but_plugins_nohist(pre: App, post: App) -> bool {
    &&& post.insert_mode == pre.insert_mode
    &&& post.left_area_open == pre.left_area_open
    &&& post.left_area_used == pre.left_area_used
    &&& post.left_area == pre.left_area
    &&& post.commands == pre.commands
    &&& post.aliases == pre.aliases
    &&& post.version == pre.version
    &&& post.config == pre.config
}

/// Greets.
/// Everything `com_hi` promises, between the state before and after.
pub open spec fn com_hi_post(pre: App, post: App, va: Seq<Seq<char>>) -> bool {
    &&& status_set(post, "Hello!"@)
    &&& frame_nohist(pre, post)
    &&& tabs_kept(pre, post)
    &&& post.running == pre.running
}

pub fn com_hi(app: &mut App, args: Vec<String>)
    requires
        old(app).wf(),
    ensures
        final(app).wf(),
        com_hi_post(*old(app), *final(app), views_of(args@)),
        final(app).command_hist == old(app).command_hist,
        final(app).hist_ctr == old(app).hist_ctr,
{
    app.throw_status_message(copy_str("Hello!"));
}

/// Quits, unless the active tab has unsaved changes; then it warns instead.
/// Everything `com_q` promises, between the state before and after.
pub open spec fn com_q_post(pre: App, post: App, va: Seq<Seq<char>>) -> bool {
    &&& frame_nohist(pre, post)
    &&& tabs_kept(pre, post)
    &&& pre.tabs@[pre.cur_tab as int].changed ==> {
            &&& post.running == pre.running
            &&& status_set(
                post,
                "W: Current buffer has unsaved changes; !qi to ignore"@,
            )
        }
    &&& !pre.tabs@[pre.cur_tab as int].changed ==> {
            &&& post.running == false
            &&& post.command_buf == pre.command_buf
            &&& post.status_message == pre.status_message
        }
}

pub fn com_q(app: &mut App, args: Vec<String>)
    requires
        old(app).wf(),
    ensures
        final(app).wf(),
        com_q_post(*old(app), *final(app), views_of(args@)),
        final(app).command_hist == old(app).command_hist,
        final(app).hist_ctr == old(app).hist_ctr,
{
    if app.tabs[app.cur_tab].changed {
        app.throw_status_message(copy_str("W: Current buffer has unsaved changes; !qi to ignore"));
        return ;
    }
    app.running = false;
}

/// Quits, ignoring unsaved changes.
/// Everything `com_qi` promises, between the state before and after.
pub open spec fn com_qi_post(pre: App, post: App, va: Seq<Seq<char>>) -> bool {
    &&& post.running == false
    &&& frame_nohist(pre, post)
    &&& tabs_kept(pre, post)
    &&& post.command_buf == pre.command_buf
    &&& post.status_message == pre.status_message
}

pub fn com_qi(app: &mut App, args: Vec<String>)
    requires
        old(app).wf(),
    ensures
        final(app).wf(),
        com_qi_post(*old(app), *final(app), views_of(args@)),
        final(app).command_hist == old(app).command_hist,
        final(app).hist_ctr == old(app).hist_ctr,
{
    app.running = false;
}

/// Shows the version string.
/// Everything `com_version` promises, between the state before and after.
pub open spec fn com_version_post(pre: App, post: App, va: Seq<Seq<char>>) -> bool {
    &&& status_set(post, pre.version@)
    &&& frame_nohist(pre, post)
    &&& tabs_kept(pre, post)
    &&& post.running == pre.running
}

pub fn com_version(app: &mut App, args: Vec<String>)
    requires
        old(app).wf(),
    ensures
        final(app).wf(),
        com_version_post(*old(app), *final(app), views_of(args@)),
        final(app).command_hist == old(app).command_hist,
        final(app).hist_ctr == old(app).hist_ctr,
{
    let v = app.version.clone();
    app.throw_status_message(v);
}

/// Saves the active tab: to the named file, else to the tab's own file, else
/// it explains the usage. The write itself comes back as an action.
/// Everything `com_w` promises, between the state before and after.
pub open spec fn com_w_post(pre: App, post: App, va: Seq<Seq<char>>, r: Option<Action>) -> bool {
    &&& frame_nohist(pre, post)
    &&& tabs_kept(pre, post)
    &&& post.running == pre.running
    &&& va.len() == 0 && pre.tabs@[pre.cur_tab as int].filename@.len() == 0
            ==> {
            &&& status_set(post, "Usage: !w filename"@)
            &&& r is None
        }
    &&& va.len() > 0 ==> {
            &&& match r {
                Some(Action::WriteFile { path, contents }) => {
                    &&& path@ == va[0]
                    &&& contents@ == text_of(pre.tabs@[pre.cur_tab as int].lines())
                },
                _ => false,
            }
            &&& post.command_buf == pre.command_buf
            &&& post.status_message == pre.status_message
        }
    &&& va.len() == 0 && pre.tabs@[pre.cur_tab as int].filename@.len() > 0
            ==> {
            &&& match r {
                Some(Action::WriteFile { path, contents }) => {
                    &&& path@ == pre.tabs@[pre.cur_tab as int].filename@
                    &&& contents@ == text_of(pre.tabs@[pre.cur_tab as int].lines())
                },
                _ => false,
            }
            &&& post.command_buf == pre.command_buf
            &&& post.status_message == pre.status_message
        }
}

pub fn com_w(app: &mut App, args: Vec<String>) -> (r: Option<Action>)
    requires
        old(app).wf(),
    ensures
        final(app).wf(),
        com_w_post(*old(app), *final(app), views_of(args@), r),
        final(app).command_hist == old(app).command_hist,
        final(app).hist_ctr == old(app).hist_ctr,
{
    let file_out_name: String;
    if args.len() > 0 {
        file_out_name = copy_str(args[0].as_str());
    } else if app.tabs[app.cur_tab].filename.as_str().unicode_len() > 0 {
        file_out_name = copy_str(app.tabs[app.cur_tab].filename.as_str());
    } else {
        app.throw_status_message(copy_str("Usage: !w filename"));
        return None;
    }
    let contents = join_lines(&app.tabs[app.cur_tab].buf);
    Some(Action::WriteFile { path: file_out_name, contents })
}

/// Records the outcome of a file write: success commits the file name and
/// marks the tab clean; failure only shows the error.
pub fn apply_write_result(app: &mut App, path: String, result: Result<(), String>)
    requires
        old(app).wf(),
    ensures
        final(app).wf(),
        frame(*old(app), *final(app)),
        final(app).running == old(app).running,
        final(app).cur_tab == old(app).cur_tab,
        match result {
            Ok(_) => {
                &&& status_set(*final(app), "Success"@)
                &&& final(app).tabs@ == old(app).tabs@.update(
                    old(app).cur_tab as int,
                    final(app).tabs@[old(app).cur_tab as int],
                )
                &&& final(app).tabs@[old(app).cur_tab as int].filename == path
                &&& final(app).tabs@[old(app).cur_tab as int].changed == false
                &&& final(app).tabs@[old(app).cur_tab as int].lines() == old(app).tabs@[old(app).cur_tab as int].lines()
                &&& final(app).tabs@[old(app).cur_tab as int].cursor_xy == old(app).tabs@[old(app).cur_tab as int].cursor_xy
            },
            Err(e) => {
                &&& status_set(*final(app), e@)
                &&& final(app).tabs == old(app).tabs
            },
        },
{
    match result {
        Ok(_) => {
            let cur = app.cur_tab;
            let t = &mut app.tabs[cur];
            t.filename = path;
            t.changed = false;
            proof {
                assert forall|j: int| 0 <= j < app.tabs@.len() implies (
                #[trigger] app.tabs@[j]).wf() by {
                    if j != cur {
                        assert(app.tabs@[j] == old(app).tabs@[j]);
                    }
                }
            }
            app.throw_status_message(copy_str("Success"));
        },
        Err(e) => {
            app.throw_status_message(e);
        },
    }
}

/// Reads a file into the active tab, refusing while the tab has unsaved
/// changes. The read itself comes back as an action.
/// Everything `com_r` promises, between the state before and after.
pub open spec fn com_r_post(pre: App, post: App, va: Seq<Seq<char>>, r: Option<Action>) -> bool {
    &&& frame_nohist(pre, post)
    &&& tabs_kept(pre, post)
    &&& post.running == pre.running
    &&& pre.tabs@[pre.cur_tab as int].changed ==> {
            &&& status_set(post, "W: Current buffer isn't saved. !ri to ignore"@)
            &&& r is None
        }
    &&& !pre.tabs@[pre.cur_tab as int].changed && va.len() == 0 ==> {
            &&& status_set(post, "Usage: !r filename"@)
            &&& r is None
        }
    &&& !pre.tabs@[pre.cur_tab as int].changed && va.len() > 0 ==> {
            &&& match r {
                Some(Action::ReadFile { path, kind }) => path@ == va[0] && kind
                    == ReadKind::Primary,
                _ => false,
            }
            &&& post.command_buf == pre.command_buf
            &&& post.status_message == pre.status_message
        }
}

pub fn com_r(app: &mut App, args: Vec<String>) -> (r: Option<Action>)
    requires
        old(app).wf(),
    ensures
        final(app).wf(),
        com_r_post(*old(app), *final(app), views_of(args@), r),
        final(app).command_hist == old(app).command_hist,
        final(app).hist_ctr == old(app).hist_ctr,
{
    if app.tabs[app.cur_tab].changed {
        app.throw_status_message(copy_str("W: Current buffer isn't saved. !ri to ignore"));
        return None;
    }
    if args.len() == 0 {
        app.throw_status_message(copy_str("Usage: !r filename"));
        return None;
    }
    Some(Action::ReadFile { path: copy_str(args[0].as_str()), kind: ReadKind::Primary })
}

/// Reads a file into the active tab, ignoring unsaved changes.
/// Everything `com_ri` promises, between the state before and after.
pub open spec fn com_ri_post(pre: App, post: App, va: Seq<Seq<char>>, r: Option<Action>) -> bool {
    &&& frame_nohist(pre, post)
    &&& tabs_kept(pre, post)
    &&& post.running == pre.running
    &&& va.len() == 0 ==> {
            &&& status_set(post, "Usage: !r filename"@)
            &&& r is None
        }
    &&& va.len() > 0 ==> {
            &&& match r {
                Some(Action::ReadFile { path, kind }) => path@ == va[0] && kind
                    == ReadKind::Ignore,
                _ => false,
            }
            &&& post.command_buf == pre.command_buf
            &&& post.status_message == pre.status_message
        }
}

pub fn com_ri(app: &mut App, args: Vec<String>) -> (r: Option<Action>)
    requires
        old(app).wf(),
    ensures
        final(app).wf(),
        com_ri_post(*old(app), *final(app), views_of(args@), r),
        final(app).command_hist == old(app).command_hist,
        final(app).hist_ctr == old(app).hist_ctr,
{
    if args.len() == 0 {
        app.throw_status_message(copy_str("Usage: !r filename"));
        return None;
    }
    Some(Action::ReadFile { path: copy_str(args[0].as_str()), kind: ReadKind::Ignore })
}

/// Opens the named file in a fresh tab. The read comes back as an action.
/// Everything `com_rn` promises, between the state before and after.
pub open spec fn com_rn_post(pre: App, post: App, va: Seq<Seq<char>>, r: Option<Action>) -> bool {
    &&& frame_nohist(pre, post)
    &&& tabs_kept(pre, post)
    &&& post.running == pre.running
    &&& va.len() == 0 ==> {
            &&& status_set(post, "Usage: !rn filename"@)
            &&& r is None
        }
    &&& va.len() > 0 ==> {
            &&& match r {
                Some(Action::ReadFile { path, kind }) => path@ == va[0] && kind
                    == ReadKind::NewTab,
                _ => false,
            }
            &&& post.command_buf == pre.command_buf
            &&& post.status_message == pre.status_message
        }
}

pub fn com_rn(app: &mut App, args: Vec<String>) -> (r: Option<Action>)
    requires
        old(app).wf(),
    ensures
        final(app).wf(),
        com_rn_post(*old(app), *final(app), views_of(args@), r),
        final(app).command_hist == old(app).command_hist,
        final(app).hist_ctr == old(app).hist_ctr,
{
    if args.len() == 0 {
        app.throw_status_message(copy_str("Usage: !rn filename"));
        return None;
    }
    Some(Action::ReadFile { path: copy_str(args[0].as_str()), kind: ReadKind::NewTab })
}

/// Records the outcome of a file read.
///
/// For the primary read, a missing file deterministically replaces the
/// buffer with a single empty line, names the tab after the missing file,
/// and shows the underlying error — the buffer is never half-replaced.
/// Any other failure leaves the tab untouched and shows the error. The
/// ignore variant treats every failure alike: tab untouched, error shown.
/// The new-tab variant opens a tab only when the read succeeded.
pub fn apply_read_result(
    app: &mut App,
    kind: ReadKind,
    path: String,
    result: Result<String, ReadFailure>,
)
    requires
        old(app).wf(),
    ensures
        final(app).wf(),
        frame(*old(app), *final(app)),
        final(app).running == old(app).running,
        match result {
            Ok(text) => {
                &&& status_set(*final(app), "Success"@)
                &&& kind != ReadKind::NewTab ==> {
                    &&& final(app).cur_tab == old(app).cur_tab
                    &&& final(app).tabs@ == old(app).tabs@.update(
                        old(app).cur_tab as int,
                        final(app).tabs@[old(app).cur_tab as int],
                    )
                    &&& final(app).tabs@[old(app).cur_tab as int].lines() == lines_of(text@)
                    &&& final(app).tabs@[old(app).cur_tab as int].cursor_xy == (0usize, 0usize)
                    &&& final(app).tabs@[old(app).cur_tab as int].changed == false
                    &&& final(app).tabs@[old(app).cur_tab as int].filename == path
                }
                &&& kind == ReadKind::NewTab ==> {
                    &&& final(app).tabs@.len() == old(app).tabs@.len() + 1
                    &&& final(app).tabs@.subrange(0, old(app).tabs@.len() as int) == old(app).tabs@
                    &&& final(app).tabs@.last().lines() == lines_of(text@)
                    &&& final(app).tabs@.last().filename == path
                    &&& final(app).tabs@.last().displayed_name@ == path@
                    &&& final(app).tabs@.last().changed == false
                    &&& final(app).cur_tab == old(app).tabs@.len()
                }
            },
            Err(ReadFailure::NotFound(msg)) => {
                &&& kind == ReadKind::Primary ==> {
                    &&& status_set(*final(app), msg@)
                    &&& final(app).cur_tab == old(app).cur_tab
                    &&& final(app).tabs@ == old(app).tabs@.update(
                        old(app).cur_tab as int,
                        final(app).tabs@[old(app).cur_tab as int],
                    )
                    &&& final(app).tabs@[old(app).cur_tab as int].lines() == seq![
                        Seq::<char>::empty(),
                    ]
                    &&& final(app).tabs@[old(app).cur_tab as int].cursor_xy == (0usize, 0usize)
                    &&& final(app).tabs@[old(app).cur_tab as int].changed == false
                    &&& final(app).tabs@[old(app).cur_tab as int].filename == path
                }
                &&& kind != ReadKind::Primary ==> {
                    &&& status_set(*final(app), msg@)
                    &&& tabs_kept(*old(app), *final(app))
                }
            },
            Err(ReadFailure::Other(msg)) => {
                &&& status_set(*final(app), msg@)
                &&& tabs_kept(*old(app), *final(app))
            },
        },
{
    match result {
        Ok(text) => {
            match kind {
                ReadKind::NewTab => {
                    let mut newtab = Tab::new(Some(copy_str(path.as_str())));
                    newtab.load_text(text.as_str());
                    newtab.filename = path;
                    let new_cur = app.tabs.len();
                    app.tabs.push(newtab);
                    app.cur_tab = new_cur;
                    proof {
                        assert(app.tabs@.subrange(0, old(app).tabs@.len() as int) =~= old(app).tabs@);
                        assert forall|j: int| 0 <= j < app.tabs@.len() implies (
                        #[trigger] app.tabs@[j]).wf() by {
                            if j < old(app).tabs@.len() {
                                assert(app.tabs@[j] == old(app).tabs@[j]);
                            }
                        }
                    }
                    app.throw_status_message(copy_str("Success"));
                },
                _ => {
                    let cur = app.cur_tab;
                    let t = &mut app.tabs[cur];
                    t.load_text(text.as_str());
                    t.filename = path;
                    proof {
                        assert forall|j: int| 0 <= j < app.tabs@.len() implies (
                        #[trigger] app.tabs@[j]).wf() by {
                            if j != cur {
                                assert(app.tabs@[j] == old(app).tabs@[j]);
                            }
                        }
                    }
                    app.throw_status_message(copy_str("Success"));
                },
            }
        },
        Err(ReadFailure::NotFound(msg)) => {
            match kind {
                ReadKind::Primary => {
                    let cur = app.cur_tab;
                    let t = &mut app.tabs[cur];
                    t.load_text("");
                    t.filename = path;
                    proof {
                        reveal_strlit("");
                        assert(""@.len() == 0);
                        assert(lines_of(""@) =~= seq![Seq::<char>::empty()]);
                        assert forall|j: int| 0 <= j < app.tabs@.len() implies (
                        #[trigger] app.tabs@[j]).wf() by {
                            if j != cur {
                                assert(app.tabs@[j] == old(app).tabs@[j]);
                            }
                        }
                    }
                    app.throw_status_message(msg);
                },
                _ => {
                    app.throw_status_message(msg);
                },
            }
        },
        Err(ReadFailure::Other(msg)) => {
            app.throw_status_message(msg);
        },
    }
}

/// Whether the output-to-tab commands were asked to reuse the current tab.
pub open spec fn execn_same_tab(va: Seq<Seq<char>>) -> bool {
    va.len() > 0 && va[0] == "~cur"@
}

/// Whether they were also asked to ignore unsaved changes.
pub open spec fn execn_ignore(va: Seq<Seq<char>>) -> bool {
    execn_same_tab(va) && va.len() > 1 && va[1] == "~ignore"@
}

/// Where the command text starts after the flags.
pub open spec fn execn_start(va: Seq<Seq<char>>) -> int {
    if execn_same_tab(va) {
        if execn_ignore(va) {
            2
        } else {
            1
        }
    } else {
        0
    }
}

/// Runs a shell command line; its output lands in the status line.
/// Everything `com_exec` promises, between the state before and after.
pub open spec fn com_exec_post(pre: App, post: App, va: Seq<Seq<char>>, r: Option<Action>) -> bool {
    &&& frame_nohist(pre, post)
    &&& tabs_kept(pre, post)
    &&& post.running == pre.running
    &&& va.len() == 0 ==> {
            &&& status_set(post, "Usage: !exec command"@)
            &&& r is None
        }
    &&& va.len() > 0 ==> {
            &&& match r {
                Some(Action::RunShellLine { line, target, ignore }) => {
                    &&& line@ == joined_tokens(va)
                    &&& target == ShellTarget::Status
                    &&& ignore == false
                },
                _ => false,
            }
            &&& post.command_buf == pre.command_buf
            &&& post.status_message == pre.status_message
        }
}

pub fn com_exec(app: &mut App, args: Vec<String>) -> (r: Option<Action>)
    requires
        old(app).wf(),
    ensures
        final(app).wf(),
        com_exec_post(*old(app), *final(app), views_of(args@), r),
        final(app).command_hist == old(app).command_hist,
        final(app).hist_ctr == old(app).hist_ctr,
{
    if args.len() == 0 {
        app.throw_status_message(copy_str("Usage: !exec command"));
        return None;
    }
    let line = join_tokens(&args);
    Some(Action::RunShellLine { line, target: ShellTarget::Status, ignore: false })
}

/// Runs a shell script file with arguments; output lands in the status line.
/// Everything `com_exec_f` promises, between the state before and after.
pub open spec fn com_exec_f_post(pre: App, post: App, va: Seq<Seq<char>>, r: Option<Action>) -> bool {
    &&& frame_nohist(pre, post)
    &&& tabs_kept(pre, post)
    &&& post.running == pre.running
    &&& va.len() == 0 ==> {
            &&& status_set(post, "Usage: !exec_f filename"@)
            &&& r is None
        }
    &&& va.len() > 0 ==> {
            &&& match r {
                Some(Action::RunShellFile { args: fargs, target, ignore }) => {
                    &&& views_of(fargs@) == va
                    &&& target == ShellTarget::Status
                    &&& ignore == false
                },
                _ => false,
            }
            &&& post.command_buf == pre.command_buf
            &&& post.status_message == pre.status_message
        }
}

pub fn com_exec_f(app: &mut App, args: Vec<String>) -> (r: Option<Action>)
    requires
        old(app).wf(),
    ensures
        final(app).wf(),
        com_exec_f_post(*old(app), *final(app), views_of(args@), r),
        final(app).command_hist == old(app).command_hist,
        final(app).hist_ctr == old(app).hist_ctr,
{
    if args.len() == 0 {
        app.throw_status_message(copy_str("Usage: !exec_f filename"));
        return None;
    }
    let fargs = crate::strutil::tokens_from(&args, 0);
    proof {
        assert(views_of(args@).subrange(0, args@.len() as int) =~= views_of(args@));
    }
    Some(Action::RunShellFile { args: fargs, target: ShellTarget::Status, ignore: false })
}

/// Runs a shell command line; its output opens in a new tab, or replaces the
/// current tab when asked to, with an unsaved-changes guard that a further
/// flag overrides.
/// Everything `com_execn` promises, between the state before and after.
pub open spec fn com_execn_post(pre: App, post: App, va: Seq<Seq<char>>, r: Option<Action>) -> bool {
    &&& frame_nohist(pre, post)
    &&& tabs_kept(pre, post)
    &&& post.running == pre.running
    &&& va.len() == 0 ==> {
            &&& status_set(post, "Usage: !execn command"@)
            &&& r is None
        }
    &&& va.len() > 0 ==> {
            &&& match r {
                Some(Action::RunShellLine { line, target, ignore }) => {
                    &&& line@ == joined_tokens(
                        va.subrange(
                            execn_start(va),
                            va.len() as int,
                        ),
                    )
                    &&& target == if execn_same_tab(va) {
                        ShellTarget::CurrentTab
                    } else {
                        ShellTarget::NewTab
                    }
                    &&& ignore == execn_ignore(va)
                },
                _ => false,
            }
            &&& post.command_buf == pre.command_buf
            &&& post.status_message == pre.status_message
        }
}

pub fn com_execn(app: &mut App, args: Vec<String>) -> (r: Option<Action>)
    requires
        old(app).wf(),
    ensures
        final(app).wf(),
        com_execn_post(*old(app), *final(app), views_of(args@), r),
        final(app).command_hist == old(app).command_hist,
        final(app).hist_ctr == old(app).hist_ctr,
{
    if args.len() == 0 {
        app.throw_status_message(copy_str("Usage: !execn command"));
        return None;
    }
    let same_tab = str_eq(args[0].as_str(), "~cur");
    let ignore = same_tab && args.len() > 1 && str_eq(args[1].as_str(), "~ignore");
    let start: usize = if same_tab {
        if ignore {
            2
        } else {
            1
        }
    } else {
        0
    };
    let rest = crate::strutil::tokens_from(&args, start);
    let line = join_tokens(&rest);
    let target = if same_tab {
        ShellTarget::CurrentTab
    } else {
        ShellTarget::NewTab
    };
    Some(Action::RunShellLine { line, target, ignore })
}

/// Runs a shell script file; its output opens in a new tab, or replaces the
/// current tab when asked to, with the same unsaved-changes guard.
/// Everything `com_execn_f` promises, between the state before and after.
pub open spec fn com_execn_f_post(pre: App, post: App, va: Seq<Seq<char>>, r: Option<Action>) -> bool {
    &&& frame_nohist(pre, post)
    &&& tabs_kept(pre, post)
    &&& post.running == pre.running
    &&& va.len() == 0 ==> {
            &&& status_set(post, "Usage: !execn command"@)
            &&& r is None
        }
    &&& va.len() > 0 ==> {
            &&& match r {
                Some(Action::RunShellFile { args: fargs, target, ignore }) => {
                    &&& views_of(fargs@) == seq![
                        joined_tokens(
                            va.subrange(
                                execn_start(va),
                                va.len() as int,
                            ),
                        ),
                    ]
                    &&& target == if execn_same_tab(va) {
                        ShellTarget::CurrentTab
                    } else {
                        ShellTarget::NewTab
                    }
                    &&& ignore == execn_ignore(va)
                },
                _ => false,
            }
            &&& post.command_buf == pre.command_buf
            &&& post.status_message == pre.status_message
        }
}

pub fn com_execn_f(app: &mut App, args: Vec<String>) -> (r: Option<Action>)
    requires
        old(app).wf(),
    ensures
        final(app).wf(),
        com_execn_f_post(*old(app), *final(app), views_of(args@), r),
        final(app).command_hist == old(app).command_hist,
        final(app).hist_ctr == old(app).hist_ctr,
{
    if args.len() == 0 {
        app.throw_status_message(copy_str("Usage: !execn command"));
        return None;
    }
    let same_tab = str_eq(args[0].as_str(), "~cur");
    let ignore = same_tab && args.len() > 1 && str_eq(args[1].as_str(), "~ignore");
    let start: usize = if same_tab {
        if ignore {
            2
        } else {
            1
        }
    } else {
        0
    };
    let rest = crate::strutil::tokens_from(&args, start);
    let line = join_tokens(&rest);
    let mut fargs: Vec<String> = Vec::new();
    fargs.push(line);
    proof {
        assert(views_of(fargs@) =~= seq![
            joined_tokens(
                views_of(args@).subrange(execn_start(views_of(args@)), views_of(args@).len() as int),
            ),
        ]);
    }
    let target = if same_tab {
        ShellTarget::CurrentTab
    } else {
        ShellTarget::NewTab
    };
    Some(Action::RunShellFile { args: fargs, target, ignore })
}

/// Places captured shell output: in the status line, in the current tab
/// (unless it has unsaved changes and no override was given), or in a fresh
/// tab at the end of the tab set.
pub fn apply_shell_output(app: &mut App, target: ShellTarget, ignore: bool, output: String)
    requires
        old(app).wf(),
    ensures
        final(app).wf(),
        frame(*old(app), *final(app)),
        final(app).running == old(app).running,
        target == ShellTarget::Status ==> {
            &&& status_set(*final(app), output@)
            &&& tabs_kept(*old(app), *final(app))
        },
        target == ShellTarget::CurrentTab && old(app).tabs@[old(app).cur_tab as int].changed
            && !ignore ==> {
            &&& status_set(*final(app), "W: This tab has unsaved changes. ~ignore to ignore"@)
            &&& tabs_kept(*old(app), *final(app))
        },
        target == ShellTarget::CurrentTab && (!old(app).tabs@[old(app).cur_tab as int].changed
            || ignore) ==> {
            &&& status_set(*final(app), "Success"@)
            &&& final(app).cur_tab == old(app).cur_tab
            &&& final(app).tabs@ == old(app).tabs@.update(
                old(app).cur_tab as int,
                final(app).tabs@[old(app).cur_tab as int],
            )
            &&& final(app).tabs@[old(app).cur_tab as int].lines() == lines_of(output@)
            &&& final(app).tabs@[old(app).cur_tab as int].cursor_xy == (0usize, 0usize)
        },
        target == ShellTarget::NewTab ==> {
            &&& status_set(*final(app), "Success"@)
            &&& final(app).tabs@.len() == old(app).tabs@.len() + 1
            &&& final(app).tabs@.subrange(0, old(app).tabs@.len() as int) == old(app).tabs@
            &&& final(app).tabs@.last().lines() == lines_of(output@)
            &&& final(app).tabs@.last().displayed_name@ == "Output"@
            &&& final(app).cur_tab == old(app).tabs@.len()
        },
{
    match target {
        ShellTarget::Status => {
            app.throw_status_message(output);
        },
        ShellTarget::CurrentTab => {
            let cur = app.cur_tab;
            if app.tabs[cur].changed && !ignore {
                app.throw_status_message(
                    copy_str("W: This tab has unsaved changes. ~ignore to ignore"),
                );
                return ;
            }
            let t = &mut app.tabs[cur];
            t.str_into_buf(output);
            proof {
                assert forall|j: int| 0 <= j < app.tabs@.len() implies (
                #[trigger] app.tabs@[j]).wf() by {
                    if j != cur {
                        assert(app.tabs@[j] == old(app).tabs@[j]);
                    }
                }
            }
            app.throw_status_message(copy_str("Success"));
        },
        ShellTarget::NewTab => {
            let mut output_tab = Tab::new(Some(copy_str("Output")));
            output_tab.str_into_buf(output);
            let new_cur = app.tabs.len();
            app.tabs.push(output_tab);
            app.cur_tab = new_cur;
            proof {
                assert(app.tabs@.subrange(0, old(app).tabs@.len() as int) =~= old(app).tabs@);
                assert forall|j: int| 0 <= j < app.tabs@.len() implies (
                #[trigger] app.tabs@[j]).wf() by {
                    if j < old(app).tabs@.len() {
                        assert(app.tabs@[j] == old(app).tabs@[j]);
                    }
                }
            }
            app.throw_status_message(copy_str("Success"));
        },
    }
}

/// The number a tab argument denotes, where it is a valid one.
pub open spec fn parsed_index(s: Seq<char>) -> Option<int> {
    if s.len() > 0 && crate::strutil::all_digits(s) && crate::strutil::digits_val(s)
        <= usize::MAX as int {
        Some(crate::strutil::digits_val(s))
    } else {
        None
    }
}

/// What a native command leaves alone apart from the side panel toggles: the
/// mode, the registries, the history and the recall cursor.
pub open spec fn frame_but_panel(pre: App, post: App) -> bool {
    &&& post.insert_mode == pre.insert_mode
    &&& post.left_area == pre.left_area
    &&& post.commands == pre.commands
    &&& post.aliases == pre.aliases
    &&& post.command_hist == pre.command_hist
    &&& post.hist_ctr == pre.hist_ctr
    &&& post.version == pre.version
    &&& post.plugin_subsys == pre.plugin_subsys
    &&& post.config == pre.config
}

/// Manages the tab set: opening, closing, switching, renaming, the side
/// panel toggles, and showing the last edit snapshot. The tab set is never
/// left empty and the active index always stays valid.
#[verifier::rlimit(80)]
/// Everything `com_tab` promises, between the state before and after.
pub open spec fn com_tab_post(pre: App, post: App, va: Seq<Seq<char>>, r: Option<Action>) -> bool {
    &&& r is None
    &&& frame_but_panel_nohist(pre, post)
    &&& post.running == pre.running
    &&& post.tabs@.len() >= 1
    &&& va.len() == 0 ==> {
            &&& status_set(
                post,
                "Usage: !tab new, !tab goto num, !tab rm num, !tab next, !tab prev, !tab rename num name"@,
            )
            &&& tabs_kept(pre, post)
        }
    &&& va.len() > 0 && va[0] == "new"@ ==> {
            &&& status_set(post, "Success"@)
            &&& post.tabs@.len() == pre.tabs@.len() + 1
            &&& post.tabs@.subrange(0, pre.tabs@.len() as int) == pre.tabs@
            &&& post.tabs@.last().lines() == seq![Seq::<char>::empty()]
            &&& post.cur_tab == pre.cur_tab
        }
    &&& va.len() > 0 && va[0] == "goto"@ ==> {
            &&& post.tabs == pre.tabs
            &&& va.len() < 2 ==> status_set(
                post,
                "Usage: !tab goto num"@,
            ) && post.cur_tab == pre.cur_tab
            &&& va.len() >= 2 ==> match parsed_index(va[1]) {
                None => status_set(post, "E: invalid number"@) && post.cur_tab == pre.cur_tab,
                Some(n) => {
                    &&& n > pre.tabs@.len() ==> status_set(
                        post,
                        "Tab with specified indice not opened"@,
                    ) && post.cur_tab == pre.cur_tab
                    &&& n <= pre.tabs@.len() ==> status_set(post, "Success"@) && post.cur_tab == if n > 0 {
                        n - 1
                    } else {
                        0int
                    }
                },
            }
        }
    &&& va.len() > 0 && va[0] == "rm"@ ==> {
            &&& va.len() < 2 ==> status_set(
                post,
                "Usage: !tab rm num"@,
            ) && tabs_kept(pre, post)
            &&& va.len() >= 2 ==> match parsed_index(va[1]) {
                None => status_set(post, "E: invalid number"@) && tabs_kept(
                    pre,
                    post,
                ),
                Some(n) => {
                    let ind = if n > 0 {
                        n - 1
                    } else {
                        0int
                    };
                    &&& ind >= pre.tabs@.len() ==> status_set(
                        post,
                        "Tab with specified indice not opened"@,
                    ) && tabs_kept(pre, post)
                    &&& ind < pre.tabs@.len() ==> {
                        &&& status_set(post, "Success"@)
                        &&& pre.tabs@.len() == 1 ==> {
                            &&& post.tabs@.len() == 1
                            &&& crate::tabs::is_fresh_tab(post.tabs@[0])
                            &&& post.cur_tab == 0
                        }
                        &&& pre.tabs@.len() > 1 ==> {
                            &&& post.tabs@ == pre.tabs@.remove(ind)
                            &&& post.cur_tab == vstd::math::min(
                                pre.cur_tab as int,
                                pre.tabs@.len() - 2,
                            )
                        }
                    }
                },
            }
        }
    &&& va.len() > 0 && va[0] == "next"@ ==> {
            &&& post.tabs == pre.tabs
            &&& pre.cur_tab + 1 >= pre.tabs@.len() ==> status_set(
                post,
                "Current tab is already last!"@,
            ) && post.cur_tab == pre.cur_tab
            &&& pre.cur_tab + 1 < pre.tabs@.len() ==> status_set(
                post,
                "Success"@,
            ) && post.cur_tab == pre.cur_tab + 1
        }
    &&& va.len() > 0 && va[0] == "prev"@ ==> {
            &&& post.tabs == pre.tabs
            &&& pre.cur_tab == 0 ==> status_set(
                post,
                "Current tab is first!"@,
            ) && post.cur_tab == pre.cur_tab
            &&& pre.cur_tab > 0 ==> status_set(post, "Success"@) && post.cur_tab == pre.cur_tab - 1
        }
    &&& va.len() > 0 && va[0] == "rename"@ ==> {
            &&& post.cur_tab == pre.cur_tab
            &&& va.len() < 2 ==> status_set(
                post,
                "Usage: !tab rename num name"@,
            ) && post.tabs == pre.tabs
            &&& va.len() >= 2 ==> match parsed_index(va[1]) {
                None => status_set(post, "E: invalid number"@) && post.tabs == pre.tabs,
                Some(n) => {
                    let ind = if n > 0 {
                        n - 1
                    } else {
                        0int
                    };
                    &&& n > pre.tabs@.len() ==> status_set(
                        post,
                        "Tab with specified indice not opened"@,
                    ) && post.tabs == pre.tabs
                    &&& n <= pre.tabs@.len() ==> {
                        &&& status_set(post, "Success"@)
                        &&& post.tabs@ == pre.tabs@.update(
                            ind,
                            post.tabs@[ind],
                        )
                        &&& post.tabs@[ind].displayed_name@ == joined_tokens(
                            va.subrange(2, va.len() as int),
                        )
                        &&& post.tabs@[ind].lines() == pre.tabs@[ind].lines()
                        &&& post.tabs@[ind].cursor_xy == pre.tabs@[ind].cursor_xy
                    }
                },
            }
        }
    &&& va.len() > 0 && va[0] == "left"@ ==> {
            &&& status_set(post, "success"@)
            &&& post.left_area_open == !pre.left_area_open
            &&& post.left_area_used == pre.left_area_used
            &&& tabs_kept(pre, post)
        }
    &&& va.len() > 0 && va[0] == "leftuse"@ ==> {
            &&& status_set(post, "success"@)
            &&& post.left_area_used == !pre.left_area_used
            &&& post.left_area_open == pre.left_area_open
            &&& tabs_kept(pre, post)
        }
    &&& va.len() > 0 && va[0] == "showdiffn"@ ==> {
            &&& pre.tabs@[pre.cur_tab as int].edit_hist@.len() == 0 ==> status_set(
                post,
                "No edit was made"@,
            ) && tabs_kept(pre, post)
            &&& pre.tabs@[pre.cur_tab as int].edit_hist@.len() > 0 ==> {
                &&& status_set(post, "Success"@)
                &&& post.tabs@.len() == pre.tabs@.len() + 1
                &&& post.tabs@.last().lines() == views_of(
                    pre.tabs@[pre.cur_tab as int].edit_hist@.last().diff@,
                )
                &&& post.cur_tab == pre.tabs@.len()
            }
        }
    &&& va.len() > 0 && !tab_subcommands().contains(va[0]) ==> {
            &&& status_set(
                post,
                "Usage: !tab new, !tab goto num, !tab rm num, !tab next, !tab prev, !tab rename num name"@,
            )
            &&& tabs_kept(pre, post)
        }
}

pub fn com_tab(app: &mut App, args: Vec<String>) -> (r: Option<Action>)
    requires
        old(app).wf(),
    ensures
        final(app).wf(),
        com_tab_post(*old(app), *final(app), views_of(args@), r),
        final(app).command_hist == old(app).command_hist,
        final(app).hist_ctr == old(app).hist_ctr,
{
    proof {
        reveal_strlit("new");
        reveal_strlit("goto");
        reveal_strlit("rm");
        reveal_strlit("next");
        reveal_strlit("prev");
        reveal_strlit("rename");
        reveal_strlit("left");
        reveal_strlit("leftuse");
        reveal_strlit("showdiffn");
        assert("new"@.len() == 3);
        assert("goto"@.len() == 4);
        assert("rm"@.len() == 2);
        assert("next"@.len() == 4);
        assert("prev"@.len() == 4);
        assert("rename"@.len() == 6);
        assert("left"@.len() == 4);
        assert("leftuse"@.len() == 7);
        assert("showdiffn"@.len() == 9);
        assert("goto"@[0] == 'g');
        assert("next"@[0] == 'n');
        assert("prev"@[0] == 'p');
        assert("left"@[0] == 'l');
    }
    if args.len() == 0 {
        app.throw_status_message(
            copy_str(
                "Usage: !tab new, !tab goto num, !tab rm num, !tab next, !tab prev, !tab rename num name",
            ),
        );
        return None;
    }
    if str_eq(args[0].as_str(), "new") {
        let newtab = Tab::new(None);
        let ghost before = app.tabs@;
        app.tabs.push(newtab);
        proof {
            assert(app.tabs@.subrange(0, before.len() as int) =~= before);
            assert forall|j: int| 0 <= j < app.tabs@.len() implies (#[trigger] app.tabs@[j]).wf()
                by {
                if j < before.len() {
                    assert(app.tabs@[j] == before[j]);
                }
            }
        }
        app.throw_status_message(copy_str("Success"));
        return None;
    }
    if str_eq(args[0].as_str(), "goto") {
        if args.len() < 2 {
            app.throw_status_message(copy_str("Usage: !tab goto num"));
            return None;
        }
        let ind = match crate::strutil::parse_usize(args[1].as_str()) {
            Some(n) => n,
            None => {
                app.throw_status_message(copy_str("E: invalid number"));
                return None;
            },
        };
        if ind > app.tabs.len() {
            app.throw_status_message(copy_str("Tab with specified indice not opened"));
            return None;
        }
        app.cur_tab = if ind > 0 {
            ind - 1
        } else {
            0
        };
        app.throw_status_message(copy_str("Success"));
        return None;
    }
    if str_eq(args[0].as_str(), "rm") {
        if args.len() < 2 {
            app.throw_status_message(copy_str("Usage: !tab rm num"));
            return None;
        }
        let parsed = match crate::strutil::parse_usize(args[1].as_str()) {
            Some(n) => n,
            None => {
                app.throw_status_message(copy_str("E: invalid number"));
                return None;
            },
        };
        let ind = if parsed > 0 {
            parsed - 1
        } else {
            0
        };
        if ind >= app.tabs.len() {
            app.throw_status_message(copy_str("Tab with specified indice not opened"));
            return None;
        }
        let ghost before = app.tabs@;
        app.tabs.remove(ind);
        if app.tabs.len() == 0 {
            app.tabs.push(Tab::new(None));
            app.cur_tab = 0;
        } else if app.cur_tab >= app.tabs.len() {
            app.cur_tab = app.cur_tab - 1;
        }
        proof {
            assert forall|j: int| 0 <= j < app.tabs@.len() implies (#[trigger] app.tabs@[j]).wf()
                by {
                if app.tabs@.len() == before.len() - 1 {
                    let j0 = if j < ind { j } else { j + 1 };
                    assert(app.tabs@[j] == before[j0]);
                }
            }
        }
        app.throw_status_message(copy_str("Success"));
        return None;
    }
    if str_eq(args[0].as_str(), "next") {
        let len = app.tabs.len();
        if app.cur_tab + 1 >= len {
            app.throw_status_message(copy_str("Current tab is already last!"));
            return None;
        }
        app.cur_tab = app.cur_tab + 1;
        app.throw_status_message(copy_str("Success"));
        return None;
    }
    if str_eq(args[0].as_str(), "prev") {
        if app.cur_tab == 0 {
            app.throw_status_message(copy_str("Current tab is first!"));
            return None;
        }
        app.cur_tab = app.cur_tab - 1;
        app.throw_status_message(copy_str("Success"));
        return None;
    }
    if str_eq(args[0].as_str(), "rename") {
        if args.len() < 2 {
            app.throw_status_message(copy_str("Usage: !tab rename num name"));
            return None;
        }
        let parsed = match crate::strutil::parse_usize(args[1].as_str()) {
            Some(n) => n,
            None => {
                app.throw_status_message(copy_str("E: invalid number"));
                return None;
            },
        };
        if parsed > app.tabs.len() {
            app.throw_status_message(copy_str("Tab with specified indice not opened"));
            return None;
        }
        let rest = crate::strutil::tokens_from(&args, 2);
        let new_name = join_tokens(&rest);
        let ind = if parsed > 0 {
            parsed - 1
        } else {
            0
        };
        let t = &mut app.tabs[ind];
        t.displayed_name = new_name;
        proof {
            assert forall|j: int| 0 <= j < app.tabs@.len() implies (#[trigger] app.tabs@[j]).wf()
                by {
                if j != ind {
                    assert(app.tabs@[j] == old(app).tabs@[j]);
                }
            }
        }
        app.throw_status_message(copy_str("Success"));
        return None;
    }
    if str_eq(args[0].as_str(), "left") {
        app.left_area_open = !app.left_area_open;
        app.throw_status_message(copy_str("success"));
        return None;
    }
    if str_eq(args[0].as_str(), "leftuse") {
        app.left_area_used = !app.left_area_used;
        app.throw_status_message(copy_str("success"));
        return None;
    }
    if str_eq(args[0].as_str(), "showdiffn") {
        let cur = app.cur_tab;
        let n_edits = app.tabs[cur].edit_hist.len();
        if n_edits == 0 {
            app.throw_status_message(copy_str("No edit was made"));
            return None;
        }
        proof {
            assert(old(app).tabs@[cur as int].wf());
            assert(old(app).tabs@[cur as int].edit_hist@[n_edits - 1].wf());
        }
        let t = &mut app.tabs[cur];
        let e = &mut t.edit_hist[n_edits - 1];
        let res_tab = e.dbg_show_edit();
        proof {
            assert forall|j: int| 0 <= j < app.tabs@.len() implies (#[trigger] app.tabs@[j]).wf()
                by {
                if j != cur {
                    assert(app.tabs@[j] == old(app).tabs@[j]);
                } else {
                    let tj = app.tabs@[j];
                    let oj = old(app).tabs@[j];
                    assert(tj.buf == oj.buf);
                    assert(tj.cursor_xy == oj.cursor_xy);
                    assert(tj.edit_hist@ =~= oj.edit_hist@);
                    assert forall|k: int| 0 <= k < tj.edit_hist@.len() implies (
                    #[trigger] tj.edit_hist@[k]).wf() by {
                        assert(tj.edit_hist@[k] == oj.edit_hist@[k]);
                    }
                }
            }
        }
        let ghost mid = app.tabs@;
        let new_cur = app.tabs.len();
        app.tabs.push(res_tab);
        app.cur_tab = new_cur;
        proof {
            assert forall|j: int| 0 <= j < app.tabs@.len() implies (#[trigger] app.tabs@[j]).wf()
                by {
                if j < mid.len() {
                    assert(app.tabs@[j] == mid[j]);
                    assert(mid[j].wf());
                }
            }
        }
        app.throw_status_message(copy_str("Success"));
        return None;
    }
    app.throw_status_message(
        copy_str(
            "Usage: !tab new, !tab goto num, !tab rm num, !tab next, !tab prev, !tab rename num name",
        ),
    );
    None
}

/// Manages the alias table: `new` binds a name to a token sequence,
/// overwriting any earlier binding; `rm` unbinds a name and reports when
/// there was nothing to unbind.
/// Everything `com_alias` promises, between the state before and after.
pub open spec fn com_alias_post(pre: App, post: App, va: Seq<Seq<char>>, r: Option<Action>) -> bool {
    &&& r is None
    &&& post.insert_mode == pre.insert_mode
    &&& post.running == pre.running
    &&& post.left_area_open == pre.left_area_open
    &&& post.left_area_used == pre.left_area_used
    &&& post.left_area == pre.left_area
    &&& post.commands == pre.commands
    &&& post.version == pre.version
    &&& post.plugin_subsys == pre.plugin_subsys
    &&& post.config == pre.config
    &&& tabs_kept(pre, post)
    &&& va.len() == 0 ==> {
            &&& status_set(post, "Usage: !alias new / !alias rm"@)
            &&& post.aliases == pre.aliases
        }
    &&& va.len() > 0 && va[0] == "new"@ ==> {
            &&& va.len() < 3 ==> status_set(
                post,
                "Usage: !alias new alias_name command"@,
            ) && post.aliases == pre.aliases
            &&& va.len() >= 3 ==> {
                &&& status_set(post, "Success"@)
                &&& post.aliases@.contains_key(va[1])
                &&& views_of(post.aliases@[va[1]]@) == va.subrange(2, va.len() as int)
                &&& post.aliases@.remove(va[1]) == pre.aliases@.remove(va[1])
            }
        }
    &&& va.len() > 0 && va[0] == "rm"@ ==> {
            &&& va.len() < 2 ==> status_set(
                post,
                "Usage: !alias rm alias_name"@,
            ) && post.aliases == pre.aliases
            &&& va.len() >= 2 ==> {
                &&& post.aliases@ == pre.aliases@.remove(va[1])
                &&& pre.aliases@.contains_key(va[1]) ==> status_set(
                    post,
                    "Success"@,
                )
                &&& !pre.aliases@.contains_key(va[1]) ==> status_set(
                    post,
                    "No alias with this name was saved"@,
                )
            }
        }
    &&& va.len() > 0 && va[0] != "new"@ && va[0] != "rm"@ ==> agree_but_hist(pre, post)
}

pub fn com_alias(app: &mut App, args: Vec<String>) -> (r: Option<Action>)
    requires
        old(app).wf(),
    ensures
        final(app).wf(),
        com_alias_post(*old(app), *final(app), views_of(args@), r),
        final(app).command_hist == old(app).command_hist,
        final(app).hist_ctr == old(app).hist_ctr,
{
    proof {
        reveal_strlit("new");
        reveal_strlit("rm");
        assert("new"@.len() == 3);
        assert("rm"@.len() == 2);
    }
    if args.len() == 0 {
        app.throw_status_message(copy_str("Usage: !alias new / !alias rm"));
        return None;
    }
    if str_eq(args[0].as_str(), "new") {
        if args.len() < 3 {
            app.throw_status_message(copy_str("Usage: !alias new alias_name command"));
            return None;
        }
        let name = copy_str(args[1].as_str());
        let expansion = crate::strutil::tokens_from(&args, 2);
        app.aliases.insert(name, expansion);
        proof {
            assert(app.aliases@.remove(views_of(args@)[1]) =~= old(app).aliases@.remove(
                views_of(args@)[1],
            ));
        }
        app.throw_status_message(copy_str("Success"));
        return None;
    }
    if str_eq(args[0].as_str(), "rm") {
        if args.len() < 2 {
            app.throw_status_message(copy_str("Usage: !alias rm alias_name"));
            return None;
        }
        let existed = app.aliases.remove(args[1].as_str());
        if existed {
            app.throw_status_message(copy_str("Success"));
        } else {
            app.throw_status_message(copy_str("No alias with this name was saved"));
        }
        return None;
    }
    None
}

/// The loader behind the plugin subsystem.
pub open spec fn loader_of(app: App) -> crate::plugin::LuaLoader {
    match app.plugin_subsys {
        crate::plugin::PlugLoaders::LuaL(l) => l,
    }
}

/// The text the info subcommand shows for the plugin at index `id`.
pub open spec fn plugin_info_text(id: int, p: crate::plugin::LuaPlugin) -> Seq<char> {
    "Current ID: "@ + crate::strutil::decimal_repr(id as nat) + seq!['\n'] + "Name: "@ + p.name@
        + seq!['\n'] + "Version: "@ + p.version@ + seq!['\n'] + "Author: "@ + p.author@
        + seq!['\n'] + "Description: "@ + p.desc@
}

/// The text the info-by-id subcommand shows.
pub open spec fn plugin_info_text_noid(p: crate::plugin::LuaPlugin) -> Seq<char> {
    "Name: "@ + p.name@ + seq!['\n'] + "Version: "@ + p.version@ + seq!['\n'] + "Author: "@
        + p.author@ + seq!['\n'] + "Description: "@ + p.desc@
}

/// One line of the plugin listing.
pub open spec fn plugin_list_line(i: int, p: crate::plugin::LuaPlugin) -> Seq<char> {
    "ID: "@ + crate::strutil::decimal_repr(i as nat) + ", Name: "@ + p.name@
}

/// The lines of the plugin listing, one per plugin, in order.
pub open spec fn plugin_list_lines(ps: Seq<crate::plugin::LuaPlugin>) -> Seq<Seq<char>> {
    Seq::new(ps.len(), |i: int| plugin_list_line(i, ps[i]))
}

/// Builds the plugin listing text: every line newline-terminated.
fn build_plugin_list_text(loader: &crate::plugin::LuaLoader) -> (r: String)
    ensures
        r@ == text_of(plugin_list_lines(loader.plugins@)),
{
    let mut r = String::new();
    let mut i: usize = 0;
    let n = loader.plugins.len();
    while i < n
        invariant
            i <= n,
            n == loader.plugins@.len(),
            r@ == text_of(plugin_list_lines(loader.plugins@).subrange(0, i as int)),
        decreases n - i,
    {
        r.append("ID: ");
        r.append(crate::strutil::usize_to_string(i).as_str());
        r.append(", Name: ");
        r.append(loader.plugins[i].name.as_str());
        crate::strutil::push_char(&mut r, '\n');
        proof {
            let ls = plugin_list_lines(loader.plugins@);
            assert(ls.subrange(0, i + 1).drop_last() =~= ls.subrange(0, i as int));
            assert(ls.subrange(0, i + 1).last() == ls[i as int]);
            assert(r@ =~= text_of(ls.subrange(0, i + 1)));
        }
        i = i + 1;
    }
    proof {
        assert(plugin_list_lines(loader.plugins@).subrange(
            0,
            loader.plugins@.len() as int,
        ) =~= plugin_list_lines(loader.plugins@));
    }
    r
}

/// Manages the plugin host: its state, loading, inspecting, unloading and
/// listing plugins. Loading reads a script file, so it comes back as an
/// action.
#[verifier::rlimit(100)]
#[verifier::spinoff_prover]
/// Everything `com_plugin` promises, between the state before and after.
pub open spec fn com_plugin_post(pre: App, post: App, va: Seq<Seq<char>>, r: Option<Action>) -> bool {
    &&& frame_but_plugins_nohist(pre, post)
    &&& post.running == pre.running
    &&& va.len() == 0 ==> {
            &&& status_set(
                post,
                "Usage: !plugin state, !plugin load, !plugin unload, more in docs"@,
            )
            &&& tabs_kept(pre, post)
            &&& post.plugin_subsys == pre.plugin_subsys
            &&& r is None
        }
    &&& va.len() > 0 && va[0] == "state"@ ==> {
            &&& tabs_kept(pre, post)
            &&& post.plugin_subsys == pre.plugin_subsys
            &&& r is None
            &&& loader_of(pre).state is Running ==> status_set(
                post,
                "Running normally"@,
            )
            &&& loader_of(pre).state is Disabled ==> status_set(post, "Disabled"@)
            &&& loader_of(pre).state is Panicked ==> status_set(
                post,
                "Plugin loader panicked! Check logs"@,
            )
        }
    &&& va.len() > 0 && va[0] == "load"@ ==> {
            &&& tabs_kept(pre, post)
            &&& post.plugin_subsys == pre.plugin_subsys
            &&& va.len() < 2 ==> status_set(
                post,
                "Usage: !plugin load path"@,
            ) && r is None
            &&& va.len() >= 2 ==> match r {
                Some(Action::LoadPlugin { path }) => path@ == va[1] && post.command_buf == pre.command_buf,
                _ => false,
            }
        }
    &&& va.len() > 0 && va[0] == "info"@ ==> {
            &&& post.plugin_subsys == pre.plugin_subsys
            &&& r is None
            &&& va.len() < 2 ==> status_set(
                post,
                "Usage: !plugin info name"@,
            ) && tabs_kept(pre, post)
            &&& va.len() >= 2 ==> {
                let name = joined_tokens(
                    va.subrange(1, va.len() as int),
                );
                match crate::plugin::spec_find_by_name(loader_of(pre).plugins@, name) {
                    None => {
                        &&& status_set(
                            post,
                            "Specified plugin "@ + name + " could not be find. Is it loaded?"@,
                        )
                        &&& tabs_kept(pre, post)
                    },
                    Some(id) => {
                        &&& status_set(post, "Plugin info displayed in new tab"@)
                        &&& post.tabs@.len() == pre.tabs@.len() + 1
                        &&& post.tabs@.subrange(0, pre.tabs@.len() as int) == pre.tabs@
                        &&& post.tabs@.last().lines() == lines_of(
                            plugin_info_text(id, loader_of(pre).plugins@[id]),
                        )
                        &&& post.tabs@.last().displayed_name@ == "Plugin info"@
                        &&& post.cur_tab == pre.tabs@.len()
                    },
                }
            }
        }
    &&& va.len() > 0 && va[0] == "info-id"@ ==> {
            &&& post.plugin_subsys == pre.plugin_subsys
            &&& r is None
            &&& va.len() < 2 ==> status_set(
                post,
                "Usage: !plugin unload-id id"@,
            ) && tabs_kept(pre, post)
            &&& va.len() >= 2 ==> match parsed_index(va[1]) {
                None => status_set(post, "E: invalid number"@) && tabs_kept(
                    pre,
                    post,
                ),
                Some(id) => {
                    &&& id >= loader_of(pre).plugins@.len() ==> status_set(
                        post,
                        "Can't get plugin with specified ID!"@,
                    ) && tabs_kept(pre, post)
                    &&& id < loader_of(pre).plugins@.len() ==> {
                        &&& status_set(post, "Plugin info opened at new tab"@)
                        &&& post.tabs@.len() == pre.tabs@.len() + 1
                        &&& post.tabs@.subrange(0, pre.tabs@.len() as int) == pre.tabs@
                        &&& post.tabs@.last().lines() == lines_of(
                            plugin_info_text_noid(loader_of(pre).plugins@[id]),
                        )
                        &&& post.cur_tab == pre.tabs@.len()
                    }
                },
            }
        }
    &&& va.len() > 0 && va[0] == "unload"@ ==> {
            &&& tabs_kept(pre, post)
            &&& r is None
            &&& va.len() < 2 ==> status_set(
                post,
                "Usage: !plugin info name"@,
            ) && post.plugin_subsys == pre.plugin_subsys
            &&& va.len() >= 2 ==> {
                let name = joined_tokens(
                    va.subrange(1, va.len() as int),
                );
                match crate::plugin::spec_find_by_name(loader_of(pre).plugins@, name) {
                    None => {
                        &&& status_set(post, "Specified plugin "@ + name + " could not be find"@)
                        &&& post.plugin_subsys == pre.plugin_subsys
                    },
                    Some(id) => {
                        &&& status_set(post, "Success"@)
                        &&& loader_of(post).plugins@ == loader_of(
                            pre,
                        ).plugins@.remove(id)
                    },
                }
            }
        }
    &&& va.len() > 0 && va[0] == "unload-id"@ ==> {
            &&& tabs_kept(pre, post)
            &&& r is None
            &&& va.len() < 2 ==> status_set(
                post,
                "Usage: !plugin unload-id id"@,
            ) && post.plugin_subsys == pre.plugin_subsys
            &&& va.len() >= 2 ==> match parsed_index(va[1]) {
                None => status_set(post, "E: invalid number"@) && post.plugin_subsys == pre.plugin_subsys,
                Some(id) => {
                    &&& status_set(post, "Success"@)
                    &&& id < loader_of(pre).plugins@.len() ==> loader_of(
                        post,
                    ).plugins@ == loader_of(pre).plugins@.remove(id)
                    &&& id >= loader_of(pre).plugins@.len() ==> post.plugin_subsys
                        == pre.plugin_subsys
                },
            }
        }
    &&& va.len() > 0 && va[0] == "list"@ ==> {
            &&& post.plugin_subsys == pre.plugin_subsys
            &&& r is None
            &&& status_set(post, "Plugin list displayed in new tab"@)
            &&& post.tabs@.len() == pre.tabs@.len() + 1
            &&& post.tabs@.subrange(0, pre.tabs@.len() as int) == pre.tabs@
            &&& post.tabs@.last().lines() == lines_of(
                text_of(plugin_list_lines(loader_of(pre).plugins@)),
            )
            &&& post.tabs@.last().displayed_name@ == "Plugin list"@
            &&& post.cur_tab == pre.tabs@.len()
        }
}

pub fn com_plugin(app: &mut App, args: Vec<String>) -> (r: Option<Action>)
    requires
        old(app).wf(),
    ensures
        final(app).wf(),
        com_plugin_post(*old(app), *final(app), views_of(args@), r),
        final(app).command_hist == old(app).command_hist,
        final(app).hist_ctr == old(app).hist_ctr,
{
    proof {
        reveal_strlit("state");
        reveal_strlit("load");
        reveal_strlit("info");
        reveal_strlit("info-id");
        reveal_strlit("unload");
        reveal_strlit("unload-id");
        reveal_strlit("list");
        assert("state"@.len() == 5);
        assert("load"@.len() == 4);
        assert("info"@.len() == 4);
        assert("info-id"@.len() == 7);
        assert("unload"@.len() == 6);
        assert("unload-id"@.len() == 9);
        assert("list"@.len() == 4);
        assert("load"@[0] == 'l' && "load"@[1] == 'o');
        assert("info"@[0] == 'i');
        assert("list"@[0] == 'l' && "list"@[1] == 'i');
    }
    if args.len() == 0 {
        app.throw_status_message(
            copy_str("Usage: !plugin state, !plugin load, !plugin unload, more in docs"),
        );
        return None;
    }
    if str_eq(args[0].as_str(), "state") {
        let st = match &app.plugin_subsys {
            crate::plugin::PlugLoaders::LuaL(l) => l.state,
        };
        match st {
            crate::plugin::LoaderSysState::Running => {
                app.throw_status_message(copy_str("Running normally"));
            },
            crate::plugin::LoaderSysState::Disabled => {
                app.throw_status_message(copy_str("Disabled"));
            },
            crate::plugin::LoaderSysState::Panicked => {
                app.throw_status_message(copy_str("Plugin loader panicked! Check logs"));
            },
        }
        return None;
    }
    if str_eq(args[0].as_str(), "load") {
        if args.len() < 2 {
            app.throw_status_message(copy_str("Usage: !plugin load path"));
            return None;
        }
        return Some(Action::LoadPlugin { path: copy_str(args[1].as_str()) });
    }
    if str_eq(args[0].as_str(), "info") {
        if args.len() < 2 {
            app.throw_status_message(copy_str("Usage: !plugin info name"));
            return None;
        }
        let rest = crate::strutil::tokens_from(&args, 1);
        let plug_name = join_tokens(&rest);
        let found = match &app.plugin_subsys {
            crate::plugin::PlugLoaders::LuaL(l) => l.find_plug_ind_by_name(plug_name.as_str()),
        };
        match found {
            None => {
                let mut msg = copy_str("Specified plugin ");
                msg.append(plug_name.as_str());
                msg.append(" could not be find. Is it loaded?");
                app.throw_status_message(msg);
            },
            Some(id) => {
                let mut info = copy_str("Current ID: ");
                info.append(crate::strutil::usize_to_string(id).as_str());
                crate::strutil::push_char(&mut info, '\n');
                match &app.plugin_subsys {
                    crate::plugin::PlugLoaders::LuaL(l) => {
                        info.append("Name: ");
                        info.append(l.plugins[id].name.as_str());
                        crate::strutil::push_char(&mut info, '\n');
                        info.append("Version: ");
                        info.append(l.plugins[id].version.as_str());
                        crate::strutil::push_char(&mut info, '\n');
                        info.append("Author: ");
                        info.append(l.plugins[id].author.as_str());
                        crate::strutil::push_char(&mut info, '\n');
                        info.append("Description: ");
                        info.append(l.plugins[id].desc.as_str());
                    },
                }
                proof {
                    assert(info@ =~= plugin_info_text(
                        id as int,
                        loader_of(*old(app)).plugins@[id as int],
                    ));
                }
                let mut info_tab = Tab::new(Some(copy_str("Plugin info")));
                info_tab.str_into_buf(info);
                let ghost before = app.tabs@;
                let new_cur = app.tabs.len();
                app.tabs.push(info_tab);
                app.cur_tab = new_cur;
                proof {
                    assert(app.tabs@.subrange(0, before.len() as int) =~= before);
                    assert forall|j: int| 0 <= j < app.tabs@.len() implies (
                    #[trigger] app.tabs@[j]).wf() by {
                        if j < before.len() {
                            assert(app.tabs@[j] == before[j]);
                        }
                    }
                }
                app.throw_status_message(copy_str("Plugin info displayed in new tab"));
            },
        }
        return None;
    }
    if str_eq(args[0].as_str(), "info-id") {
        if args.len() < 2 {
            app.throw_status_message(copy_str("Usage: !plugin unload-id id"));
            return None;
        }
        let id = match crate::strutil::parse_usize(args[1].as_str()) {
            Some(n) => n,
            None => {
                app.throw_status_message(copy_str("E: invalid number"));
                return None;
            },
        };
        let n_plugs = match &app.plugin_subsys {
            crate::plugin::PlugLoaders::LuaL(l) => l.plugins.len(),
        };
        if id >= n_plugs {
            app.throw_status_message(copy_str("Can't get plugin with specified ID!"));
            return None;
        }
        let mut info = String::new();
        match &app.plugin_subsys {
            crate::plugin::PlugLoaders::LuaL(l) => {
                info.append("Name: ");
                info.append(l.plugins[id].name.as_str());
                crate::strutil::push_char(&mut info, '\n');
                info.append("Version: ");
                info.append(l.plugins[id].version.as_str());
                crate::strutil::push_char(&mut info, '\n');
                info.append("Author: ");
                info.append(l.plugins[id].author.as_str());
                crate::strutil::push_char(&mut info, '\n');
                info.append("Description: ");
                info.append(l.plugins[id].desc.as_str());
            },
        }
        proof {
            assert(info@ =~= plugin_info_text_noid(loader_of(*old(app)).plugins@[id as int]));
        }
        let mut info_tab = Tab::new(Some(copy_str("Plugin info")));
        info_tab.str_into_buf(info);
        let ghost before = app.tabs@;
        let new_cur = app.tabs.len();
        app.tabs.push(info_tab);
        app.cur_tab = new_cur;
        proof {
            assert(app.tabs@.subrange(0, before.len() as int) =~= before);
            assert forall|j: int| 0 <= j < app.tabs@.len() implies (#[trigger] app.tabs@[j]).wf()
                by {
                if j < before.len() {
                    assert(app.tabs@[j] == before[j]);
                }
            }
        }
        app.throw_status_message(copy_str("Plugin info opened at new tab"));
        return None;
    }
    if str_eq(args[0].as_str(), "unload") {
        if args.len() < 2 {
            app.throw_status_message(copy_str("Usage: !plugin info name"));
            return None;
        }
        let rest = crate::strutil::tokens_from(&args, 1);
        let plug_name = join_tokens(&rest);
        let found = match &app.plugin_subsys {
            crate::plugin::PlugLoaders::LuaL(l) => l.find_plug_ind_by_name(plug_name.as_str()),
        };
        match found {
            None => {
                let mut msg = copy_str("Specified plugin ");
                msg.append(plug_name.as_str());
                msg.append(" could not be find");
                app.throw_status_message(msg);
            },
            Some(id) => {
                match &mut app.plugin_subsys {
                    crate::plugin::PlugLoaders::LuaL(l) => {
                        l.unload_plugin_ind(id);
                    },
                }
                app.throw_status_message(copy_str("Success"));
            },
        }
        return None;
    }
    if str_eq(args[0].as_str(), "unload-id") {
        if args.len() < 2 {
            app.throw_status_message(copy_str("Usage: !plugin unload-id id"));
            return None;
        }
        let id = match crate::strutil::parse_usize(args[1].as_str()) {
            Some(n) => n,
            None => {
                app.throw_status_message(copy_str("E: invalid number"));
                return None;
            },
        };
        match &mut app.plugin_subsys {
            crate::plugin::PlugLoaders::LuaL(l) => {
                l.unload_plugin_ind(id);
            },
        }
        app.throw_status_message(copy_str("Success"));
        return None;
    }
    if str_eq(args[0].as_str(), "list") {
        let text = match &app.plugin_subsys {
            crate::plugin::PlugLoaders::LuaL(l) => build_plugin_list_text(l),
        };
        let mut list_tab = Tab::new(Some(copy_str("Plugin list")));
        list_tab.str_into_buf(text);
        let ghost before = app.tabs@;
        let new_cur = app.tabs.len();
        app.tabs.push(list_tab);
        app.cur_tab = new_cur;
        proof {
            assert(app.tabs@.subrange(0, before.len() as int) =~= before);
            assert forall|j: int| 0 <= j < app.tabs@.len() implies (#[trigger] app.tabs@[j]).wf()
                by {
                if j < before.len() {
                    assert(app.tabs@[j] == before[j]);
                }
            }
        }
        app.throw_status_message(copy_str("Plugin list displayed in new tab"));
        return None;
    }
    None
}

/// What the plugin command leaves alone: everything but the tab set, the
/// status line and the plugin subsystem.
pub open spec fn frame_but_plugins(pre: App, post: App) -> bool {
    &&& post.insert_mode == pre.insert_mode
    &&& post.left_area_open == pre.left_area_open
    &&& post.left_area_used == pre.left_area_used
    &&& post.left_area == pre.left_area
    &&& post.commands == pre.commands
    &&& post.aliases == pre.aliases
    &&& post.command_hist == pre.command_hist
    &&& post.hist_ctr == pre.hist_ctr
    &&& post.version == pre.version
    &&& post.config == pre.config
}

/// The subcommand words the tab command understands.
pub open spec fn tab_subcommands() -> Set<Seq<char>> {
    set![
        "new"@,
        "goto"@,
        "rm"@,
        "next"@,
        "prev"@,
        "rename"@,
        "left"@,
        "leftuse"@,
        "showdiffn"@,
    ]
}


/// What each built-in command promises, selected by its tag. The `va` are
/// the resolved arguments; commands that return no action promise `None`.
pub open spec fn native_post(
    nc: crate::app::NativeCom,
    pre: App,
    post: App,
    va: Seq<Seq<char>>,
    r: Option<Action>,
) -> bool {
    match nc {
        crate::app::NativeCom::Hi => com_hi_post(pre, post, va) && r is None,
        crate::app::NativeCom::Write => com_w_post(pre, post, va, r),
        crate::app::NativeCom::Read => com_r_post(pre, post, va, r),
        crate::app::NativeCom::ReadIgnore => com_ri_post(pre, post, va, r),
        crate::app::NativeCom::ReadNew => com_rn_post(pre, post, va, r),
        crate::app::NativeCom::Quit => com_q_post(pre, post, va) && r is None,
        crate::app::NativeCom::QuitIgnore => com_qi_post(pre, post, va) && r is None,
        crate::app::NativeCom::Exec => com_exec_post(pre, post, va, r),
        crate::app::NativeCom::ExecFile => com_exec_f_post(pre, post, va, r),
        crate::app::NativeCom::ExecNew => com_execn_post(pre, post, va, r),
        crate::app::NativeCom::ExecNewFile => com_execn_f_post(pre, post, va, r),
        crate::app::NativeCom::TabCom => com_tab_post(pre, post, va, r),
        crate::app::NativeCom::Version => com_version_post(pre, post, va) && r is None,
        crate::app::NativeCom::Alias => com_alias_post(pre, post, va, r),
        crate::app::NativeCom::Plugin => com_plugin_post(pre, post, va, r),
    }
}

/// Two pre-states that differ only in the submission record support the
/// same command promises: no command's contract reads the history.
pub open spec fn agree_but_hist(a: App, b: App) -> bool {
    &&& a.insert_mode == b.insert_mode
    &&& a.running == b.running
    &&& a.left_area_open == b.left_area_open
    &&& a.left_area_used == b.left_area_used
    &&& a.left_area == b.left_area
    &&& a.cursor_pos_xy == b.cursor_pos_xy
    &&& a.command_buf == b.command_buf
    &&& a.commands == b.commands
    &&& a.aliases == b.aliases
    &&& a.status_message == b.status_message
    &&& a.tabs == b.tabs
    &&& a.cur_tab == b.cur_tab
    &&& a.version == b.version
    &&& a.plugin_subsys == b.plugin_subsys
    &&& a.plugin_tx == b.plugin_tx
    &&& a.plugin_rx == b.plugin_rx
    &&& a.config == b.config
}

/// A command's promise transfers between pre-states that agree on
/// everything but the submission record — except that the history frame of
/// the promise then speaks of the other pre-state.
pub proof fn lemma_native_post_pre_agree(
    nc: crate::app::NativeCom,
    pre1: App,
    pre2: App,
    post: App,
    va: Seq<Seq<char>>,
    r: Option<Action>,
)
    requires
        agree_but_hist(pre1, pre2),
        native_post(nc, pre2, post, va, r),
    ensures
        native_post(nc, pre1, post, va, r),
{
    match nc {
        crate::app::NativeCom::Hi => {
            assert(com_hi_post(pre1, post, va));
        },
        crate::app::NativeCom::Write => {
            assert(com_w_post(pre1, post, va, r));
        },
        crate::app::NativeCom::Read => {
            assert(com_r_post(pre1, post, va, r));
        },
        crate::app::NativeCom::ReadIgnore => {
            assert(com_ri_post(pre1, post, va, r));
        },
        crate::app::NativeCom::ReadNew => {
            assert(com_rn_post(pre1, post, va, r));
        },
        crate::app::NativeCom::Quit => {
            assert(com_q_post(pre1, post, va));
        },
        crate::app::NativeCom::QuitIgnore => {
            assert(com_qi_post(pre1, post, va));
        },
        crate::app::NativeCom::Exec => {
            assert(com_exec_post(pre1, post, va, r));
        },
        crate::app::NativeCom::ExecFile => {
            assert(com_exec_f_post(pre1, post, va, r));
        },
        crate::app::NativeCom::ExecNew => {
            assert(com_execn_post(pre1, post, va, r));
        },
        crate::app::NativeCom::ExecNewFile => {
            assert(com_execn_f_post(pre1, post, va, r));
        },
        crate::app::NativeCom::TabCom => {
            assert(com_tab_post(pre1, post, va, r));
        },
        crate::app::NativeCom::Version => {
            assert(com_version_post(pre1, post, va));
        },
        crate::app::NativeCom::Alias => {
            assert(com_alias_post(pre1, post, va, r));
        },
        crate::app::NativeCom::Plugin => {
            assert(com_plugin_post(pre1, post, va, r));
        },
    }
}

} // verus!
