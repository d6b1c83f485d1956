//! Tests for the string-keyed map and the edit snapshots.

use frevi::app::{App, Action};
use frevi::edits::Edit;
use frevi::strmap::StrMap;

fn new_app() -> App {
    App::new("0.0-test".to_string())
}

fn submit(app: &mut App, line: &str) -> Option<Action> {
    app.command_buf = line.to_string();
    app.cursor_pos_xy = (0, 0);
    app.status_message = false;
    app.parse_command()
}

#[test]
fn strmap_insert_get_remove() {
    let mut m: StrMap<u32> = StrMap::new();
    assert!(m.get("a").is_none());
    m.insert("a".to_string(), 1);
    m.insert("b".to_string(), 2);
    assert_eq!(m.get("a"), Some(&1));
    assert_eq!(m.get("b"), Some(&2));
    assert!(m.contains("a"));
    assert!(!m.contains("c"));
    m.insert("a".to_string(), 9);
    assert_eq!(m.get("a"), Some(&9));
    assert!(m.remove("a"));
    assert!(!m.remove("a"));
    assert!(m.get("a").is_none());
    assert_eq!(m.get("b"), Some(&2));
}

#[test]
fn strmap_distinguishes_multibyte_keys() {
    let mut m: StrMap<u32> = StrMap::new();
    m.insert("é".to_string(), 1);
    m.insert("e".to_string(), 2);
    assert_eq!(m.get("é"), Some(&1));
    assert_eq!(m.get("e"), Some(&2));
}

#[test]
fn edit_snapshot_fields() {
    let e = Edit::new_at_curs((3, 7));
    assert_eq!(e.start_x, 3);
    assert_eq!(e.start_line, 7);
    assert_eq!(e.end_line, 0);
    assert_eq!(e.end_x, 0);
    assert_eq!(e.diff, vec![String::new()]);
}

#[test]
fn edit_snapshot_shows_as_debug_tab() {
    let mut e = Edit::new_at_curs((0, 0));
    e.diff = vec!["old line".to_string()];
    let t = e.dbg_show_edit();
    assert_eq!(t.displayed_name, "Debug");
    assert_eq!(t.buf, vec!["old line".to_string()]);
}

#[test]
fn showdiffn_opens_snapshot_in_new_tab() {
    let mut app = new_app();
    submit(&mut app, "!tab showdiffn");
    assert_eq!(app.command_buf, "No edit was made");
    let mut e = Edit::new_at_curs((0, 0));
    e.diff = vec!["snapshot".to_string()];
    app.tabs[0].edit_hist.push(e);
    submit(&mut app, "!tab showdiffn");
    assert_eq!(app.command_buf, "Success");
    assert_eq!(app.tabs.len(), 2);
    assert_eq!(app.cur_tab, 1);
    assert_eq!(app.tabs[1].buf, vec!["snapshot".to_string()]);
}

#[test]
fn config_defaults_are_empty() {
    let c = frevi::config::FreviConfig::new();
    assert_eq!(c.cfg_path, "");
    assert!(c.autoplugs.is_empty());
    assert_eq!(c.defsh, (None, None));
}
