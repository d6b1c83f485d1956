//! Tests for the command pipeline: tokenizing submissions, the history and
//! its recall cycle, alias resolution, tab management and the actions the
//! file and shell commands hand back.

use frevi::app::{Action, App, InputEvent, ReadFailure, ReadKind, ShellTarget};
use frevi::commands::{apply_read_result, apply_shell_output, apply_write_result};
use frevi::strmap::StrMap;
use frevi::app::resolve_alias;

fn new_app() -> App {
    App::new("0.0-test".to_string())
}

fn submit(app: &mut App, line: &str) -> Option<Action> {
    app.command_buf = line.to_string();
    app.cursor_pos_xy = (0, 0);
    app.status_message = false;
    app.parse_command()
}

#[test]
fn empty_submission_is_usage_error_and_not_recorded() {
    let mut app = new_app();
    let r = submit(&mut app, "   ");
    assert!(r.is_none());
    assert_eq!(app.command_buf, "ERR: Command buffer is empty");
    assert!(app.status_message);
    assert_eq!(app.command_hist.len(), 0);
}

#[test]
fn unknown_command_is_lookup_error_but_recorded() {
    let mut app = new_app();
    let r = submit(&mut app, "nonsense arg");
    assert!(r.is_none());
    assert_eq!(app.command_buf, "ERR: No such command");
    assert_eq!(app.command_hist.len(), 1);
    assert_eq!(
        app.command_hist[0],
        vec!["nonsense".to_string(), "arg".to_string()]
    );
    assert_eq!(app.hist_ctr, 1);
}

#[test]
fn hello_command_end_to_end_through_keys() {
    let mut app = new_app();
    for c in "!hi".chars() {
        app.handle_input(InputEvent::Char(c));
    }
    let r = app.handle_input(InputEvent::Enter);
    assert!(r.is_none());
    assert_eq!(app.command_buf, "Hello!");
    assert!(app.status_message);
}

#[test]
fn alias_resolution_is_single_level() {
    // A -> "B x" where B is itself an alias: submitting "A y" must dispatch
    // the literal name B, not B's own expansion.
    let mut aliases: StrMap<Vec<String>> = StrMap::new();
    aliases.insert("B".to_string(), vec!["!hi".to_string(), "z".to_string()]);
    aliases.insert("A".to_string(), vec!["B".to_string(), "x".to_string()]);
    let tokens = vec!["A".to_string(), "y".to_string()];
    let (com, args) = resolve_alias(&aliases, &tokens);
    assert_eq!(com, "B");
    assert_eq!(args, vec!["x".to_string(), "y".to_string()]);
}

#[test]
fn aliased_alias_is_not_reexpanded_on_dispatch() {
    let mut app = new_app();
    submit(&mut app, "!alias new B !hi");
    submit(&mut app, "!alias new A B x");
    // "A y" resolves to the literal command "B", which is no command, so the
    // dispatch fails with a lookup error instead of running "!hi".
    submit(&mut app, "A y");
    assert_eq!(app.command_buf, "ERR: No such command");
}

#[test]
fn alias_new_overwrites_and_rm_reports_missing() {
    let mut app = new_app();
    submit(&mut app, "!alias new g !version");
    assert_eq!(app.command_buf, "Success");
    submit(&mut app, "g");
    assert_eq!(app.command_buf, "0.0-test");
    submit(&mut app, "!alias new g !hi");
    submit(&mut app, "g");
    assert_eq!(app.command_buf, "Hello!");
    submit(&mut app, "!alias rm g");
    assert_eq!(app.command_buf, "Success");
    submit(&mut app, "!alias rm g");
    assert_eq!(app.command_buf, "No alias with this name was saved");
    submit(&mut app, "!alias");
    assert_eq!(app.command_buf, "Usage: !alias new / !alias rm");
    submit(&mut app, "!alias new onlyname");
    assert_eq!(app.command_buf, "Usage: !alias new alias_name command");
}

#[test]
fn history_recall_cycle_returns_to_empty() {
    let mut app = new_app();
    let n = 4;
    let cmds = ["!hi", "!version", "!tab new", "!qi"];
    for c in cmds.iter() {
        submit(&mut app, c);
    }
    assert_eq!(app.command_hist.len(), n);
    assert_eq!(app.hist_ctr, n);
    for _ in 0..n {
        app.handle_input(InputEvent::Up);
    }
    assert_eq!(app.hist_ctr, 0);
    assert_eq!(app.command_buf, "!hi");
    for _ in 0..n {
        app.handle_input(InputEvent::Down);
    }
    assert_eq!(app.hist_ctr, n);
    assert_eq!(app.command_buf, "");
}

#[test]
fn recall_previous_saturates_at_oldest() {
    let mut app = new_app();
    submit(&mut app, "!hi");
    app.handle_input(InputEvent::Up);
    app.handle_input(InputEvent::Up);
    app.handle_input(InputEvent::Up);
    assert_eq!(app.hist_ctr, 0);
    assert_eq!(app.command_buf, "!hi");
}

#[test]
fn tab_scenario_remove_middle_tab() {
    // three new tabs (total 4), name them, remove index 2: the survivors
    // keep their order, renumbered with no gap, and the active index stays
    // valid.
    let mut app = new_app();
    for _ in 0..3 {
        submit(&mut app, "!tab new");
    }
    assert_eq!(app.tabs.len(), 4);
    submit(&mut app, "!tab rename 1 t1");
    submit(&mut app, "!tab rename 2 t2");
    submit(&mut app, "!tab rename 3 t3");
    submit(&mut app, "!tab rename 4 t4");
    submit(&mut app, "!tab rm 2");
    assert_eq!(app.command_buf, "Success");
    assert_eq!(app.tabs.len(), 3);
    let names: Vec<&str> = app.tabs.iter().map(|t| t.displayed_name.as_str()).collect();
    assert_eq!(names, vec!["t1", "t3", "t4"]);
    assert!(app.cur_tab < app.tabs.len());
}

#[test]
fn removing_last_tab_leaves_one_fresh_tab() {
    let mut app = new_app();
    app.handle_input(InputEvent::ToggleMode);
    app.handle_input(InputEvent::Char('x'));
    app.handle_input(InputEvent::ToggleMode);
    submit(&mut app, "!tab rm 1");
    assert_eq!(app.command_buf, "Success");
    assert_eq!(app.tabs.len(), 1);
    assert_eq!(app.cur_tab, 0);
    assert_eq!(app.tabs[0].buf, vec![String::new()]);
    assert!(!app.tabs[0].changed);
}

#[test]
fn tab_navigation_and_bounds() {
    let mut app = new_app();
    submit(&mut app, "!tab new");
    submit(&mut app, "!tab next");
    assert_eq!(app.cur_tab, 1);
    submit(&mut app, "!tab next");
    assert_eq!(app.command_buf, "Current tab is already last!");
    submit(&mut app, "!tab prev");
    assert_eq!(app.cur_tab, 0);
    submit(&mut app, "!tab prev");
    assert_eq!(app.command_buf, "Current tab is first!");
    submit(&mut app, "!tab goto 2");
    assert_eq!(app.cur_tab, 1);
    submit(&mut app, "!tab goto 9");
    assert_eq!(app.command_buf, "Tab with specified indice not opened");
    submit(&mut app, "!tab goto x");
    assert_eq!(app.command_buf, "E: invalid number");
    submit(&mut app, "!tab bogus");
    assert_eq!(
        app.command_buf,
        "Usage: !tab new, !tab goto num, !tab rm num, !tab next, !tab prev, !tab rename num name"
    );
}

#[test]
fn quit_respects_dirty_flag() {
    let mut app = new_app();
    app.handle_input(InputEvent::ToggleMode);
    app.handle_input(InputEvent::Char('x'));
    app.handle_input(InputEvent::ToggleMode);
    submit(&mut app, "!q");
    assert!(app.running);
    assert_eq!(
        app.command_buf,
        "W: Current buffer has unsaved changes; !qi to ignore"
    );
    submit(&mut app, "!qi");
    assert!(!app.running);
}

#[test]
fn write_command_yields_action_and_result_commits() {
    let mut app = new_app();
    app.handle_input(InputEvent::ToggleMode);
    for c in "data".chars() {
        app.handle_input(InputEvent::Char(c));
    }
    app.handle_input(InputEvent::ToggleMode);
    let r = submit(&mut app, "!w out.txt");
    match r {
        Some(Action::WriteFile { path, contents }) => {
            assert_eq!(path, "out.txt");
            assert_eq!(contents, "data\n");
            apply_write_result(&mut app, path, Ok(()));
        }
        other => panic!("unexpected action: {:?}", other),
    }
    assert_eq!(app.command_buf, "Success");
    assert_eq!(app.tabs[0].filename, "out.txt");
    assert!(!app.tabs[0].changed);

    let mut app2 = new_app();
    let r2 = submit(&mut app2, "!w");
    assert!(r2.is_none());
    assert_eq!(app2.command_buf, "Usage: !w filename");
}

#[test]
fn write_failure_only_reports() {
    let mut app = new_app();
    let r = submit(&mut app, "!w out.txt");
    let path = match r {
        Some(Action::WriteFile { path, .. }) => path,
        other => panic!("unexpected action: {:?}", other),
    };
    apply_write_result(&mut app, path, Err("disk full".to_string()));
    assert_eq!(app.command_buf, "disk full");
    assert_eq!(app.tabs[0].filename, "");
}

#[test]
fn read_command_refuses_dirty_buffer() {
    let mut app = new_app();
    app.handle_input(InputEvent::ToggleMode);
    app.handle_input(InputEvent::Char('x'));
    app.handle_input(InputEvent::ToggleMode);
    let r = submit(&mut app, "!r f.txt");
    assert!(r.is_none());
    assert_eq!(app.command_buf, "W: Current buffer isn't saved. !ri to ignore");
}

#[test]
fn read_success_replaces_buffer() {
    let mut app = new_app();
    let r = submit(&mut app, "!r f.txt");
    match r {
        Some(Action::ReadFile { path, kind }) => {
            assert_eq!(path, "f.txt");
            assert_eq!(kind, ReadKind::Primary);
            apply_read_result(&mut app, kind, path, Ok("a\nb\n".to_string()));
        }
        other => panic!("unexpected action: {:?}", other),
    }
    assert_eq!(app.command_buf, "Success");
    assert_eq!(app.tabs[0].buf, vec!["a".to_string(), "b".to_string()]);
    assert_eq!(app.tabs[0].filename, "f.txt");
    assert_eq!(app.tabs[0].cursor_xy, (0, 0));
}

#[test]
fn read_missing_file_policy_is_deterministic() {
    // the primary read of a nonexistent file always replaces the buffer
    // with a single empty line named after the missing file, and shows the
    // underlying error
    let mut app = new_app();
    app.handle_input(InputEvent::ToggleMode);
    app.handle_input(InputEvent::Char('x'));
    app.handle_input(InputEvent::ToggleMode);
    app.tabs[0].changed = false;
    let r = submit(&mut app, "!r missing.txt");
    match r {
        Some(Action::ReadFile { path, kind }) => {
            apply_read_result(
                &mut app,
                kind,
                path,
                Err(ReadFailure::NotFound("No such file or directory".to_string())),
            );
        }
        other => panic!("unexpected action: {:?}", other),
    }
    assert_eq!(app.command_buf, "No such file or directory");
    assert_eq!(app.tabs[0].buf, vec![String::new()]);
    assert_eq!(app.tabs[0].filename, "missing.txt");
    assert!(!app.tabs[0].changed);
    assert_eq!(app.tabs[0].cursor_xy, (0, 0));
}

#[test]
fn read_other_failure_keeps_buffer() {
    let mut app = new_app();
    let r = submit(&mut app, "!ri f.txt");
    match r {
        Some(Action::ReadFile { path, kind }) => {
            assert_eq!(kind, ReadKind::Ignore);
            apply_read_result(
                &mut app,
                kind,
                path,
                Err(ReadFailure::Other("permission denied".to_string())),
            );
        }
        other => panic!("unexpected action: {:?}", other),
    }
    assert_eq!(app.command_buf, "permission denied");
    assert_eq!(app.tabs[0].buf, vec![String::new()]);
    assert_eq!(app.tabs[0].filename, "");
}

#[test]
fn read_into_new_tab() {
    let mut app = new_app();
    let r = submit(&mut app, "!rn notes.txt");
    match r {
        Some(Action::ReadFile { path, kind }) => {
            assert_eq!(kind, ReadKind::NewTab);
            apply_read_result(&mut app, kind, path, Ok("n1\n".to_string()));
        }
        other => panic!("unexpected action: {:?}", other),
    }
    assert_eq!(app.tabs.len(), 2);
    assert_eq!(app.cur_tab, 1);
    assert_eq!(app.tabs[1].buf, vec!["n1".to_string()]);
    assert_eq!(app.tabs[1].filename, "notes.txt");
}

#[test]
fn exec_actions_carry_flags() {
    let mut app = new_app();
    match submit(&mut app, "!exec echo hi") {
        Some(Action::RunShellLine { line, target, ignore }) => {
            assert_eq!(line, "echo hi");
            assert_eq!(target, ShellTarget::Status);
            assert!(!ignore);
        }
        other => panic!("unexpected action: {:?}", other),
    }
    match submit(&mut app, "!execn ~cur ~ignore ls -l") {
        Some(Action::RunShellLine { line, target, ignore }) => {
            assert_eq!(line, "ls -l");
            assert_eq!(target, ShellTarget::CurrentTab);
            assert!(ignore);
        }
        other => panic!("unexpected action: {:?}", other),
    }
    match submit(&mut app, "!execn ls") {
        Some(Action::RunShellLine { line, target, ignore }) => {
            assert_eq!(line, "ls");
            assert_eq!(target, ShellTarget::NewTab);
            assert!(!ignore);
        }
        other => panic!("unexpected action: {:?}", other),
    }
    match submit(&mut app, "!exec_f run.sh arg") {
        Some(Action::RunShellFile { args, target, ignore }) => {
            assert_eq!(args, vec!["run.sh".to_string(), "arg".to_string()]);
            assert_eq!(target, ShellTarget::Status);
            assert!(!ignore);
        }
        other => panic!("unexpected action: {:?}", other),
    }
    match submit(&mut app, "!execn_f ~cur run.sh") {
        Some(Action::RunShellFile { args, target, ignore }) => {
            assert_eq!(args, vec!["run.sh".to_string()]);
            assert_eq!(target, ShellTarget::CurrentTab);
            assert!(!ignore);
        }
        other => panic!("unexpected action: {:?}", other),
    }
    let r = submit(&mut app, "!exec");
    assert!(r.is_none());
    assert_eq!(app.command_buf, "Usage: !exec command");
}

#[test]
fn shell_output_placement() {
    let mut app = new_app();
    apply_shell_output(&mut app, ShellTarget::Status, false, "done".to_string());
    assert_eq!(app.command_buf, "done");

    apply_shell_output(&mut app, ShellTarget::NewTab, false, "l1\nl2".to_string());
    assert_eq!(app.tabs.len(), 2);
    assert_eq!(app.cur_tab, 1);
    assert_eq!(app.tabs[1].displayed_name, "Output");
    assert_eq!(app.tabs[1].buf, vec!["l1".to_string(), "l2".to_string()]);

    app.tabs[1].changed = true;
    apply_shell_output(&mut app, ShellTarget::CurrentTab, false, "x".to_string());
    assert_eq!(
        app.command_buf,
        "W: This tab has unsaved changes. ~ignore to ignore"
    );
    assert_eq!(app.tabs[1].buf, vec!["l1".to_string(), "l2".to_string()]);

    apply_shell_output(&mut app, ShellTarget::CurrentTab, true, "x\ny".to_string());
    assert_eq!(app.command_buf, "Success");
    assert_eq!(app.tabs[1].buf, vec!["x".to_string(), "y".to_string()]);
}

#[test]
fn version_command_shows_version() {
    let mut app = new_app();
    submit(&mut app, "!version");
    assert_eq!(app.command_buf, "0.0-test");
}

#[test]
fn command_line_editing_with_cursor() {
    let mut app = new_app();
    for c in "ac".chars() {
        app.handle_input(InputEvent::Char(c));
    }
    app.handle_input(InputEvent::Left);
    app.handle_input(InputEvent::Char('b'));
    assert_eq!(app.command_buf, "abc");
    assert_eq!(app.cursor_pos_xy.0, 2);
    app.handle_input(InputEvent::Backspace);
    assert_eq!(app.command_buf, "ac");
    app.handle_input(InputEvent::Right);
    app.handle_input(InputEvent::Right);
    assert_eq!(app.cursor_pos_xy.0, 2);
}

#[test]
fn status_message_cleared_by_next_keystroke() {
    let mut app = new_app();
    submit(&mut app, "!hi");
    assert!(app.status_message);
    app.handle_input(InputEvent::Char('q'));
    assert_eq!(app.command_buf, "q");
    assert!(!app.status_message);
    submit(&mut app, "!hi");
    app.handle_input(InputEvent::Backspace);
    assert_eq!(app.command_buf, "");
    assert!(!app.status_message);
}

#[test]
fn function_keys_switch_or_open_tabs() {
    let mut app = new_app();
    let r = app.handle_input(InputEvent::Function(3));
    assert!(r.is_none());
    assert_eq!(app.tabs.len(), 2);
    assert_eq!(app.cur_tab, 1);
    app.handle_input(InputEvent::Function(1));
    assert_eq!(app.cur_tab, 0);
}

#[test]
fn insert_mode_routes_keys_to_tab() {
    let mut app = new_app();
    app.handle_input(InputEvent::ToggleMode);
    assert!(app.insert_mode);
    for c in "hi".chars() {
        app.handle_input(InputEvent::Char(c));
    }
    app.handle_input(InputEvent::Enter);
    app.handle_input(InputEvent::Char('!'));
    assert_eq!(app.tabs[0].buf, vec!["hi".to_string(), "!".to_string()]);
    app.handle_input(InputEvent::TabKey);
    assert_eq!(app.tabs[0].buf[1], "!\t");
    app.handle_input(InputEvent::Backspace);
    assert_eq!(app.tabs[0].buf[1], "!");
}

#[test]
fn scroll_events_move_viewport() {
    let mut app = new_app();
    app.handle_input(InputEvent::ToggleMode);
    app.handle_input(InputEvent::Enter);
    app.handle_input(InputEvent::Enter);
    app.handle_input(InputEvent::ScrollDown);
    assert_eq!(app.tabs[0].scroll_offset, 1);
    app.handle_input(InputEvent::ScrollUp);
    assert_eq!(app.tabs[0].scroll_offset, 0);
    app.handle_input(InputEvent::PageDown);
    assert_eq!(app.tabs[0].scroll_offset, 2);
    app.handle_input(InputEvent::Home);
    assert_eq!(app.tabs[0].scroll_offset, 0);
    app.handle_input(InputEvent::End);
    assert_eq!(app.tabs[0].scroll_offset, 2);
}
