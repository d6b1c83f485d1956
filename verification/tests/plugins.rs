//! Tests for the plugin host with the real embedded interpreter: loading
//! scripts, defaulted descriptive fields, the two host capabilities, the
//! initialization hook, unloading, and dangling registrations.

use frevi::app::{Action, App};
use frevi::plugin::{LuaLoader, PlugLoaders};

fn new_app() -> App {
    App::new("0.0-test".to_string())
}

fn submit(app: &mut App, line: &str) -> Option<Action> {
    app.command_buf = line.to_string();
    app.cursor_pos_xy = (0, 0);
    app.status_message = false;
    app.parse_command()
}

fn loader(app: &App) -> &LuaLoader {
    match &app.plugin_subsys {
        PlugLoaders::LuaL(l) => l,
    }
}

#[test]
fn load_script_reads_descriptive_globals() {
    let mut app = new_app();
    let src = r#"
PLUGIN_NAME = "demo"
PLUGIN_AUTHOR = "someone"
PLUGIN_VERSION = "v2.1"
PLUGIN_DESC = "a test plugin"
"#;
    let err = app.plugin_load_source(src);
    assert!(err.is_none());
    assert_eq!(app.command_buf, "Plugin demo successfully loaded.");
    let l = loader(&app);
    assert_eq!(l.plugins.len(), 1);
    assert_eq!(l.plugins[0].name, "demo");
    assert_eq!(l.plugins[0].author, "someone");
    assert_eq!(l.plugins[0].version, "v2.1");
    assert_eq!(l.plugins[0].desc, "a test plugin");
}

#[test]
fn load_script_defaults_missing_fields() {
    let mut app = new_app();
    let err = app.plugin_load_source("x = 1");
    assert!(err.is_none());
    let l = loader(&app);
    assert_eq!(l.plugins[0].name, "Unnamed plugin");
    assert_eq!(l.plugins[0].author, "Unknown author");
    assert_eq!(l.plugins[0].desc, "No description providen");
    assert_eq!(l.plugins[0].version, "v1.0.0");
}

#[test]
fn load_bad_script_fails_and_loads_nothing() {
    let mut app = new_app();
    let err = app.plugin_load_source("this is not a script(");
    let msg = err.expect("load should fail");
    assert!(msg.starts_with("LUA ERR: "));
    assert_eq!(app.command_buf, "Plugin load returned error. Check logs");
    assert_eq!(loader(&app).plugins.len(), 0);
}

#[test]
fn registered_command_produces_script_status() {
    // load a script defining name = "demo" and registering a command that
    // reports a fixed string: invoking it must produce that string as the
    // status message, not a lookup failure
    let mut app = new_app();
    let src = r#"
PLUGIN_NAME = "demo"
frevi_register_command("hello", function(args)
    frevi_status_msg("greetings from demo")
end)
"#;
    assert!(app.plugin_load_source(src).is_none());
    let errors = app.recv_msg();
    assert!(errors.is_empty());
    submit(&mut app, "hello");
    assert_ne!(app.command_buf, "ERR: No such command");
    app.recv_msg();
    assert_eq!(app.command_buf, "greetings from demo");
    assert!(app.status_message);
}

#[test]
fn handler_arguments_are_one_based() {
    let mut app = new_app();
    let src = r#"
frevi_register_command("echoargs", function(args)
    frevi_status_msg(args[1] .. "," .. args[2])
end)
"#;
    assert!(app.plugin_load_source(src).is_none());
    app.recv_msg();
    submit(&mut app, "echoargs first second");
    app.recv_msg();
    assert_eq!(app.command_buf, "first,second");
}

#[test]
fn handler_error_is_captured_as_status() {
    let mut app = new_app();
    let src = r#"
frevi_register_command("fail", function(args)
    error("handler exploded")
end)
"#;
    assert!(app.plugin_load_source(src).is_none());
    app.recv_msg();
    submit(&mut app, "fail");
    assert!(app.command_buf.contains("handler exploded"));
    assert!(app.status_message);
}

#[test]
fn init_hook_runs_once_on_load() {
    let mut app = new_app();
    let src = r#"
onInit = function()
    frevi_status_msg("init ran")
end
"#;
    assert!(app.plugin_load_source(src).is_none());
    app.recv_msg();
    assert_eq!(app.command_buf, "init ran");
}

#[test]
fn init_hook_error_is_nonfatal() {
    let mut app = new_app();
    let src = r#"
PLUGIN_NAME = "shaky"
onInit = function()
    error("init blew up")
end
"#;
    assert!(app.plugin_load_source(src).is_none());
    // the plugin stays loaded; the error is reported for the log
    assert_eq!(loader(&app).plugins.len(), 1);
    let errors = app.recv_msg();
    assert_eq!(errors.len(), 1);
    assert!(errors[0].contains("init blew up"));
}

#[test]
fn dangling_registration_fails_with_lookup_error() {
    // unloading a plugin does not retract its command registrations; a
    // later invocation must fail with a missing-plugin lookup message
    // rather than touching a vanished plugin
    let mut app = new_app();
    let src = r#"
PLUGIN_NAME = "demo"
frevi_register_command("hello", function(args)
    frevi_status_msg("hi")
end)
"#;
    assert!(app.plugin_load_source(src).is_none());
    app.recv_msg();
    submit(&mut app, "!plugin unload demo");
    assert_eq!(app.command_buf, "Success");
    assert_eq!(loader(&app).plugins.len(), 0);
    submit(&mut app, "hello");
    assert_eq!(app.command_buf, "Can't get plugin with id 0");
}

#[test]
fn stale_registration_after_reload_is_lookup_error() {
    // plugin ids are stable: after unloading the registering plugin and
    // loading another one, the old registration's id matches no plugin, so
    // invoking it is a lookup error — it must not reach the new plugin's
    // interpreter, and must not touch the dead one
    let mut app = new_app();
    let src_a = r#"
PLUGIN_NAME = "first"
frevi_register_command("hello", function(args)
    frevi_status_msg("from first")
end)
"#;
    assert!(app.plugin_load_source(src_a).is_none());
    app.recv_msg();
    submit(&mut app, "!plugin unload first");
    assert_eq!(app.command_buf, "Success");
    let src_b = r#"
PLUGIN_NAME = "second"
frevi_register_command("other", function(args)
    frevi_status_msg("from second")
end)
"#;
    assert!(app.plugin_load_source(src_b).is_none());
    app.recv_msg();
    // "second" now sits at index 0, but carries a fresh stable id
    submit(&mut app, "hello");
    assert_eq!(app.command_buf, "Can't get plugin with id 0");
    // the new plugin's own registration still works
    submit(&mut app, "other");
    app.recv_msg();
    assert_eq!(app.command_buf, "from second");
}

#[test]
fn plugin_state_and_listing() {
    let mut app = new_app();
    submit(&mut app, "!plugin state");
    assert_eq!(app.command_buf, "Running normally");
    submit(&mut app, "!plugin");
    assert_eq!(
        app.command_buf,
        "Usage: !plugin state, !plugin load, !plugin unload, more in docs"
    );
    assert!(app.plugin_load_source("PLUGIN_NAME = \"one\"").is_none());
    assert!(app.plugin_load_source("PLUGIN_NAME = \"two\"").is_none());
    submit(&mut app, "!plugin list");
    assert_eq!(app.command_buf, "Plugin list displayed in new tab");
    let listing = &app.tabs[app.cur_tab];
    assert_eq!(listing.displayed_name, "Plugin list");
    assert_eq!(
        listing.buf,
        vec!["ID: 0, Name: one".to_string(), "ID: 1, Name: two".to_string()]
    );
}

#[test]
fn plugin_info_opens_tab() {
    let mut app = new_app();
    let src = r#"
PLUGIN_NAME = "infoplug"
PLUGIN_AUTHOR = "me"
PLUGIN_VERSION = "v9"
PLUGIN_DESC = "described"
"#;
    assert!(app.plugin_load_source(src).is_none());
    submit(&mut app, "!plugin info infoplug");
    assert_eq!(app.command_buf, "Plugin info displayed in new tab");
    let info = &app.tabs[app.cur_tab];
    assert_eq!(
        info.buf,
        vec![
            "Current ID: 0".to_string(),
            "Name: infoplug".to_string(),
            "Version: v9".to_string(),
            "Author: me".to_string(),
            "Description: described".to_string(),
        ]
    );
    submit(&mut app, "!plugin info nosuch");
    assert_eq!(
        app.command_buf,
        "Specified plugin nosuch could not be find. Is it loaded?"
    );
}

#[test]
fn plugin_info_by_id_and_unload_by_id() {
    let mut app = new_app();
    assert!(app.plugin_load_source("PLUGIN_NAME = \"byid\"").is_none());
    submit(&mut app, "!plugin info-id 0");
    assert_eq!(app.command_buf, "Plugin info opened at new tab");
    let info = &app.tabs[app.cur_tab];
    assert_eq!(info.buf[0], "Name: byid");
    submit(&mut app, "!plugin info-id 5");
    assert_eq!(app.command_buf, "Can't get plugin with specified ID!");
    submit(&mut app, "!plugin unload-id 0");
    assert_eq!(app.command_buf, "Success");
    assert_eq!(loader(&app).plugins.len(), 0);
    submit(&mut app, "!plugin unload-id 7");
    assert_eq!(app.command_buf, "Success");
}

#[test]
fn plugin_load_command_yields_action() {
    let mut app = new_app();
    match submit(&mut app, "!plugin load /tmp/some.lua") {
        Some(Action::LoadPlugin { path }) => assert_eq!(path, "/tmp/some.lua"),
        other => panic!("unexpected action: {:?}", other),
    }
    let r = submit(&mut app, "!plugin load");
    assert!(r.is_none());
    assert_eq!(app.command_buf, "Usage: !plugin load path");
}

#[test]
fn find_plugin_by_name_returns_first_match() {
    let mut app = new_app();
    assert!(app.plugin_load_source("PLUGIN_NAME = \"twin\"").is_none());
    assert!(app.plugin_load_source("PLUGIN_NAME = \"twin\"").is_none());
    let l = loader(&app);
    let found = l.find_plug_by_name_ref("twin").expect("should find");
    assert_eq!(found.name, "twin");
    let idx = l.find_plug_ind_by_name("twin");
    assert_eq!(idx, Some(0));
    assert_eq!(l.find_plug_ind_by_name("absent"), None);
}
