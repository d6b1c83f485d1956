//! The editor's state and its transitions: mode handling, the command input
//! line with history recall, the tab set, the command registry and the
//! message-channel consumer. File, process and screen work is returned to
//! the caller as explicit actions and fed back as plain results.

use vstd::prelude::*;
use vstd::string::StrSliceExecFns;

use crate::bridge::{channel_drain, channel_new};
use crate::config::FreviConfig;
use crate::plugin::{LuaLoader, PlugCom, PlugLoaders, PluginMessage};
use crate::strmap::StrMap;
use crate::strutil::{
    copy_str, insert_char_at, join_tokens, joined_tokens, remove_char_at, tokens_of, views_of,
};
use crate::tabs::Tab;

verus! {

/// The built-in commands, installed once at startup.
#[derive(Clone, Copy, Debug, PartialEq, Eq)]
pub enum NativeCom {
    Hi,
    Write,
    Read,
    ReadIgnore,
    ReadNew,
    Quit,
    QuitIgnore,
    Exec,
    ExecFile,
    ExecNew,
    ExecNewFile,
    TabCom,
    Version,
    Alias,
    Plugin,
}

/// A command's handler: built-in, or a script callable owned by a plugin.
pub enum CommandHandler {
    Rust(NativeCom),
    Lua(mlua::Function, usize),
}

/// Which read command asked for a file.
#[derive(Clone, Copy, Debug, PartialEq, Eq)]
pub enum ReadKind {
    Primary,
    Ignore,
    NewTab,
}

/// Where shell output goes.
#[derive(Clone, Copy, Debug, PartialEq, Eq)]
pub enum ShellTarget {
    Status,
    CurrentTab,
    NewTab,
}

/// Outside work a command asks the caller to perform. The caller hands the
/// outcome back through the matching `apply_*` function.
#[derive(Debug, PartialEq, Eq)]
pub enum Action {
    WriteFile { path: String, contents: String },
    ReadFile { path: String, kind: ReadKind },
    RunShellLine { line: String, target: ShellTarget, ignore: bool },
    RunShellFile { args: Vec<String>, target: ShellTarget, ignore: bool },
    LoadPlugin { path: String },
}

/// Why a file read failed, as the caller saw it.
#[derive(Debug, PartialEq, Eq)]
pub enum ReadFailure {
    NotFound(String),
    Other(String),
}

/// One input event, already freed of any terminal encoding.
#[derive(Clone, Copy, Debug, PartialEq, Eq)]
pub enum InputEvent {
    ToggleMode,
    Char(char),
    TabKey,
    Backspace,
    Enter,
    Left,
    Right,
    Up,
    Down,
    PageUp,
    PageDown,
    Home,
    End,
    Function(u8),
    ScrollUp,
    ScrollDown,
}

/// The whole editor state.
pub struct App {
    pub insert_mode: bool,
    pub running: bool,
    pub left_area_open: bool,
    pub left_area_used: bool,
    pub left_area: Tab,
    /// Cursor in the command input line (character column, row).
    pub cursor_pos_xy: (usize, usize),
    pub command_buf: String,
    pub commands: StrMap<CommandHandler>,
    pub aliases: StrMap<Vec<String>>,
    pub command_hist: Vec<Vec<String>>,
    pub status_message: bool,
    pub tabs: Vec<Tab>,
    pub cur_tab: usize,
    pub version: String,
    pub hist_ctr: usize,
    pub plugin_subsys: PlugLoaders,
    pub plugin_tx: std::sync::mpsc::Sender<PluginMessage>,
    pub plugin_rx: std::sync::mpsc::Receiver<PluginMessage>,
    pub config: FreviConfig,
}

impl App {
    /// The state invariant: at least one tab with the active index inside,
    /// every tab well-formed, the registries well-formed, the recall cursor
    /// at most one past the newest history entry, and the input-line cursor
    /// inside the input line.
    pub open spec fn wf(self) -> bool {
        &&& self.tabs@.len() >= 1
        &&& (self.cur_tab as int) < self.tabs@.len()
        &&& forall|i: int| 0 <= i < self.tabs@.len() ==> (#[trigger] self.tabs@[i]).wf()
        &&& self.left_area.wf()
        &&& self.commands.wf()
        &&& self.aliases.wf()
        &&& crate::commands::loader_of(self).wf()
        &&& self.hist_ctr <= self.command_hist@.len()
        &&& self.cursor_pos_xy.0 <= self.command_buf@.len()
    }

    /// Everything the input line and recall machinery does not touch.
    pub open spec fn same_core(self, other: App) -> bool {
        &&& self.insert_mode == other.insert_mode
        &&& self.running == other.running
        &&& self.left_area_open == other.left_area_open
        &&& self.left_area_used == other.left_area_used
        &&& self.left_area == other.left_area
        &&& self.commands == other.commands
        &&& self.aliases == other.aliases
        &&& self.command_hist == other.command_hist
        &&& self.tabs == other.tabs
        &&& self.cur_tab == other.cur_tab
        &&& self.version == other.version
        &&& self.plugin_subsys == other.plugin_subsys
        &&& self.config == other.config
    }

    /// A fresh editor: one empty tab, command mode, empty registries, the
    /// built-in commands installed, and a connected message channel.
    pub fn new(version: String) -> (app: App)
        ensures
            app.wf(),
            app.insert_mode == false,
            app.running == true,
            app.tabs@.len() == 1,
            app.tabs@[0].lines() == seq![Seq::<char>::empty()],
            app.cur_tab == 0,
            app.command_hist@ == Seq::<Vec<String>>::empty(),
            app.hist_ctr == 0,
            app.aliases@ == Map::<Seq<char>, Vec<String>>::empty(),
            app.command_buf@ == Seq::<char>::empty(),
            app.status_message == false,
            app.version == version,
            native_commands_installed(app.commands@),
            app.commands@.dom() == native_command_names(),
    {
        let (tx, rx) = channel_new();
        let mut app = App {
            insert_mode: false,
            running: true,
            left_area_open: false,
            left_area_used: false,
            left_area: Tab::new(None),
            cursor_pos_xy: (0, 0),
            command_buf: String::new(),
            commands: StrMap::new(),
            aliases: StrMap::new(),
            command_hist: Vec::new(),
            status_message: false,
            tabs: vec![Tab::new(None)],
            cur_tab: 0,
            version,
            hist_ctr: 0,
            plugin_subsys: PlugLoaders::LuaL(LuaLoader::new()),
            plugin_tx: tx,
            plugin_rx: rx,
            config: FreviConfig::new(),
        };
        app.gen_hashmap_com();
        proof {
            assert(app.commands@.dom() =~= native_command_names());
        }
        app
    }

    /// Installs the built-in command set under its command-line names.
    pub fn gen_hashmap_com(&mut self)
        requires
            old(self).commands.wf(),
        ensures
            final(self).commands.wf(),
            native_commands_installed(final(self).commands@),
            final(self).commands@.dom() =~= old(self).commands@.dom() + native_command_names(),
            forall|k: Seq<char>|
                old(self).commands@.contains_key(k) && !native_command_names().contains(k)
                    ==> final(self).commands@[k] == old(self).commands@[k],
            final(self).tabs == old(self).tabs,
            final(self).aliases == old(self).aliases,
            final(self).command_hist == old(self).command_hist,
            final(self).cur_tab == old(self).cur_tab,
            final(self).command_buf == old(self).command_buf,
            final(self).status_message == old(self).status_message,
            final(self).cursor_pos_xy == old(self).cursor_pos_xy,
            final(self).hist_ctr == old(self).hist_ctr,
            final(self).insert_mode == old(self).insert_mode,
            final(self).running == old(self).running,
            final(self).left_area == old(self).left_area,
            final(self).left_area_open == old(self).left_area_open,
            final(self).left_area_used == old(self).left_area_used,
            final(self).version == old(self).version,
            final(self).plugin_subsys == old(self).plugin_subsys,
            final(self).config == old(self).config,
    {
        self.commands.insert(copy_str("!hi"), CommandHandler::Rust(NativeCom::Hi));
        self.commands.insert(copy_str("!w"), CommandHandler::Rust(NativeCom::Write));
        self.commands.insert(copy_str("!r"), CommandHandler::Rust(NativeCom::Read));
        self.commands.insert(copy_str("!ri"), CommandHandler::Rust(NativeCom::ReadIgnore));
        self.commands.insert(copy_str("!q"), CommandHandler::Rust(NativeCom::Quit));
        self.commands.insert(copy_str("!exec"), CommandHandler::Rust(NativeCom::Exec));
        self.commands.insert(copy_str("!execn"), CommandHandler::Rust(NativeCom::ExecNew));
        self.commands.insert(copy_str("!exec_f"), CommandHandler::Rust(NativeCom::ExecFile));
        self.commands.insert(copy_str("!execn_f"), CommandHandler::Rust(NativeCom::ExecNewFile));
        self.commands.insert(copy_str("!tab"), CommandHandler::Rust(NativeCom::TabCom));
        self.commands.insert(copy_str("!version"), CommandHandler::Rust(NativeCom::Version));
        self.commands.insert(copy_str("!qi"), CommandHandler::Rust(NativeCom::QuitIgnore));
        self.commands.insert(copy_str("!rn"), CommandHandler::Rust(NativeCom::ReadNew));
        self.commands.insert(copy_str("!alias"), CommandHandler::Rust(NativeCom::Alias));
        self.commands.insert(copy_str("!plugin"), CommandHandler::Rust(NativeCom::Plugin));
        proof {
            reveal_strlit("!hi");
            reveal_strlit("!w");
            reveal_strlit("!r");
            reveal_strlit("!ri");
            reveal_strlit("!q");
            reveal_strlit("!exec");
            reveal_strlit("!execn");
            reveal_strlit("!exec_f");
            reveal_strlit("!execn_f");
            reveal_strlit("!tab");
            reveal_strlit("!version");
            reveal_strlit("!qi");
            reveal_strlit("!rn");
            reveal_strlit("!alias");
            reveal_strlit("!plugin");
            assert("!hi"@.len() == 3);
            assert("!w"@.len() == 2);
            assert("!r"@.len() == 2);
            assert("!ri"@.len() == 3);
            assert("!q"@.len() == 2);
            assert("!exec"@.len() == 5);
            assert("!execn"@.len() == 6);
            assert("!exec_f"@.len() == 7);
            assert("!execn_f"@.len() == 8);
            assert("!tab"@.len() == 4);
            assert("!version"@.len() == 8);
            assert("!qi"@.len() == 3);
            assert("!rn"@.len() == 3);
            assert("!alias"@.len() == 6);
            assert("!plugin"@.len() == 7);
            assert("!hi"@[1] == 'h');
            assert("!w"@[1] == 'w');
            assert("!r"@[1] == 'r');
            assert("!ri"@[1] == 'r' && "!ri"@[2] == 'i');
            assert("!q"@[1] == 'q');
            assert("!exec"@[1] == 'e');
            assert("!execn"@[1] == 'e');
            assert("!exec_f"@[1] == 'e');
            assert("!execn_f"@[1] == 'e');
            assert("!tab"@[1] == 't');
            assert("!version"@[1] == 'v');
            assert("!qi"@[1] == 'q');
            assert("!rn"@[1] == 'r' && "!rn"@[2] == 'n');
            assert("!alias"@[1] == 'a');
            assert("!plugin"@[1] == 'p');
        }
    }

    /// Shows `error` in the status line; the next keystroke clears it.
    pub fn throw_status_message(&mut self, error: String)
        ensures
            final(self).command_buf == error,
            final(self).status_message == true,
            final(self).cursor_pos_xy == (0usize, 0usize),
            final(self).same_core(*old(self)),
            final(self).hist_ctr == old(self).hist_ctr,
            final(self).version == old(self).version,
    {
        self.command_buf = error;
        self.status_message = true;
        self.cursor_pos_xy = (0, 0);
    }

    /// Recalls the previous (older) history entry into the input line; at the
    /// oldest entry it stays there. The recalled line is never mutated in the
    /// history itself.
    pub fn history_recall_prev(&mut self)
        requires
            old(self).wf(),
        ensures
            final(self).wf(),
            recall_prev_rel(*old(self), *final(self)),
    {
        if self.hist_ctr > 0 {
            self.hist_ctr = self.hist_ctr - 1;
        }
        if self.hist_ctr < self.command_hist.len() {
            let line = join_tokens(&self.command_hist[self.hist_ctr]);
            let end = line.as_str().unicode_len();
            self.command_buf = line;
            self.cursor_pos_xy = (end, 0);
            self.status_message = false;
        }
    }

    /// Recalls the next (newer) history entry into the input line; one past
    /// the newest entry the input line becomes empty and stays so.
    pub fn history_recall_next(&mut self)
        requires
            old(self).wf(),
        ensures
            final(self).wf(),
            recall_next_rel(*old(self), *final(self)),
    {
        let len = self.command_hist.len();
        if self.hist_ctr < len {
            self.hist_ctr = self.hist_ctr + 1;
        }
        if self.hist_ctr >= len {
            self.command_buf = String::new();
            self.cursor_pos_xy = (0, 0);
            self.status_message = false;
        } else {
            let line = join_tokens(&self.command_hist[self.hist_ctr]);
            let end = line.as_str().unicode_len();
            self.command_buf = line;
            self.cursor_pos_xy = (end, 0);
            self.status_message = false;
        }
    }

    /// Types one character into the command input line. A pending status
    /// message is discarded first: the character starts a fresh line.
    pub fn cmdline_insert(&mut self, c: char)
        requires
            old(self).wf(),
        ensures
            final(self).wf(),
            cmdline_insert_rel(*old(self), *final(self), c),
    {
        if self.status_message {
            let mut buf = String::new();
            crate::strutil::push_char(&mut buf, c);
            self.command_buf = buf;
            self.cursor_pos_xy = (1, 0);
            self.status_message = false;
            return ;
        }
        let x = self.cursor_pos_xy.0;
        if x == usize::MAX {
            return ;
        }
        let new_buf = insert_char_at(&self.command_buf, x, c);
        self.command_buf = new_buf;
        self.cursor_pos_xy = (x + 1, 0);
    }

    /// Backspace in the command input line. A pending status message is
    /// cleared whole; otherwise the character left of the cursor goes, and at
    /// the line's start nothing happens.
    pub fn cmdline_backspace(&mut self)
        requires
            old(self).wf(),
        ensures
            final(self).wf(),
            cmdline_backspace_rel(*old(self), *final(self)),
    {
        if self.status_message {
            self.command_buf = String::new();
            self.status_message = false;
            self.cursor_pos_xy = (0, 0);
            return ;
        }
        let x = self.cursor_pos_xy.0;
        if x == 0 {
            return ;
        }
        let new_buf = remove_char_at(&self.command_buf, x - 1);
        self.command_buf = new_buf;
        self.cursor_pos_xy = (x - 1, 0);
    }

    /// Applies one drained plugin message: a status request shows its text, a
    /// registration installs a scripted handler under the given name, and an
    /// error report is handed back for the log.
    pub fn apply_message(&mut self, msg: PluginMessage) -> (r: Option<String>)
        requires
            old(self).wf(),
        ensures
            final(self).wf(),
            match msg {
                PluginMessage::Command(com) => match com {
                    PlugCom::StatusMsg(sm) => {
                        &&& final(self).command_buf == sm
                        &&& final(self).status_message == true
                        &&& final(self).commands == old(self).commands
                        &&& r is None
                    },
                },
                PluginMessage::RegisterCommand(name, f, id) => {
                    &&& final(self).commands@ == old(self).commands@.insert(
                        name@,
                        CommandHandler::Lua(f, id),
                    )
                    &&& final(self).command_buf == old(self).command_buf
                    &&& final(self).status_message == old(self).status_message
                    &&& r is None
                },
                PluginMessage::Error(e) => {
                    &&& *final(self) == *old(self)
                    &&& r == Some(e)
                },
            },
            final(self).tabs == old(self).tabs,
            final(self).command_hist == old(self).command_hist,
            final(self).aliases == old(self).aliases,
            final(self).plugin_subsys == old(self).plugin_subsys,
            final(self).running == old(self).running,
            final(self).insert_mode == old(self).insert_mode,
            final(self).hist_ctr == old(self).hist_ctr,
    {
        match msg {
            PluginMessage::Command(com) => match com {
                PlugCom::StatusMsg(sm) => {
                    self.throw_status_message(sm);
                    None
                },
            },
            PluginMessage::RegisterCommand(name, f, id) => {
                self.commands.insert(name, CommandHandler::Lua(f, id));
                None
            },
            PluginMessage::Error(e) => Some(e),
        }
    }

    /// Drains the message channel and applies every message, in arrival
    /// order, exactly once; error reports come back for the log.
    pub fn recv_msg(&mut self) -> (errors: Vec<String>)
        requires
            old(self).wf(),
        ensures
            final(self).wf(),
            final(self).tabs == old(self).tabs,
            final(self).command_hist == old(self).command_hist,
            final(self).aliases == old(self).aliases,
            final(self).plugin_subsys == old(self).plugin_subsys,
            final(self).running == old(self).running,
            final(self).insert_mode == old(self).insert_mode,
            final(self).hist_ctr == old(self).hist_ctr,
    {
        let msgs = channel_drain(&self.plugin_rx);
        let mut errors: Vec<String> = Vec::new();
        let mut msgs = msgs;
        // Messages are applied in arrival order; `Vec::remove(0)` keeps that
        // order while handing each message over by value.
        while msgs.len() > 0
            invariant
                self.wf(),
                self.tabs == old(self).tabs,
                self.command_hist == old(self).command_hist,
                self.aliases == old(self).aliases,
                self.plugin_subsys == old(self).plugin_subsys,
                self.running == old(self).running,
                self.insert_mode == old(self).insert_mode,
                self.hist_ctr == old(self).hist_ctr,
            decreases msgs@.len(),
        {
            let m = msgs.remove(0);
            if let Some(e) = self.apply_message(m) {
                errors.push(e);
            }
        }
        errors
    }
}

/// The command name a token list resolves to: the first token's alias
/// expansion head where one is bound and non-empty, else the first token
/// itself. Resolution is exactly one level deep: the result is never
/// resolved again.
pub open spec fn resolved_com(al: Map<Seq<char>, Vec<String>>, toks: Seq<Seq<char>>) -> Seq<char> {
    if al.contains_key(toks[0]) && al[toks[0]]@.len() > 0 {
        al[toks[0]]@[0]@
    } else {
        toks[0]
    }
}

/// The arguments that go with the resolved command: the alias expansion's
/// tail, then the submission's own trailing tokens.
pub open spec fn resolved_args(al: Map<Seq<char>, Vec<String>>, toks: Seq<Seq<char>>) -> Seq<
    Seq<char>,
> {
    if al.contains_key(toks[0]) && al[toks[0]]@.len() > 0 {
        views_of(al[toks[0]]@).subrange(1, al[toks[0]]@.len() as int) + toks.subrange(
            1,
            toks.len() as int,
        )
    } else {
        toks.subrange(1, toks.len() as int)
    }
}

/// Resolves a submission's first token through the alias table, one level
/// deep, and assembles the argument list.
pub fn resolve_alias(aliases: &StrMap<Vec<String>>, tokens: &Vec<String>) -> (r: (
    String,
    Vec<String>,
))
    requires
        tokens@.len() > 0,
    ensures
        r.0@ == resolved_com(aliases@, views_of(tokens@)),
        views_of(r.1@) == resolved_args(aliases@, views_of(tokens@)),
{
    proof {
        assert(views_of(tokens@)[0] == tokens@[0]@);
    }
    let mut expanded = false;
    let mut com: String = String::new();
    let mut head: Vec<String> = Vec::new();
    match aliases.get(tokens[0].as_str()) {
        Some(cv) => {
            if cv.len() > 0 {
                expanded = true;
                com = copy_str(cv[0].as_str());
                head = crate::strutil::tokens_from(cv, 1);
            }
        },
        None => {},
    }
    if !expanded {
        com = copy_str(tokens[0].as_str());
    }
    let mut rest = crate::strutil::tokens_from(tokens, 1);
    let mut args = head;
    args.append(&mut rest);
    proof {
        if expanded {
            assert(views_of(args@) =~= resolved_args(aliases@, views_of(tokens@)));
        } else {
            assert(views_of(args@) =~= resolved_args(aliases@, views_of(tokens@)));
        }
    }
    (com, args)
}

impl App {
    /// Runs one built-in command with its resolved arguments.
    pub fn run_native(&mut self, nc: NativeCom, args: Vec<String>) -> (r: Option<Action>)
        requires
            old(self).wf(),
        ensures
            final(self).wf(),
            final(self).command_hist == old(self).command_hist,
            final(self).hist_ctr == old(self).hist_ctr,
            final(self).commands == old(self).commands,
            final(self).insert_mode == old(self).insert_mode,
            final(self).version == old(self).version,
            crate::commands::native_post(nc, *old(self), *final(self), views_of(args@), r),
    {
        match nc {
            NativeCom::Hi => {
                crate::commands::com_hi(self, args);
                None
            },
            NativeCom::Write => crate::commands::com_w(self, args),
            NativeCom::Read => crate::commands::com_r(self, args),
            NativeCom::ReadIgnore => crate::commands::com_ri(self, args),
            NativeCom::ReadNew => crate::commands::com_rn(self, args),
            NativeCom::Quit => {
                crate::commands::com_q(self, args);
                None
            },
            NativeCom::QuitIgnore => {
                crate::commands::com_qi(self, args);
                None
            },
            NativeCom::Exec => crate::commands::com_exec(self, args),
            NativeCom::ExecFile => crate::commands::com_exec_f(self, args),
            NativeCom::ExecNew => crate::commands::com_execn(self, args),
            NativeCom::ExecNewFile => crate::commands::com_execn_f(self, args),
            NativeCom::TabCom => crate::commands::com_tab(self, args),
            NativeCom::Version => {
                crate::commands::com_version(self, args);
                None
            },
            NativeCom::Alias => crate::commands::com_alias(self, args),
            NativeCom::Plugin => crate::commands::com_plugin(self, args),
        }
    }

    /// Calls a scripted handler: the arguments become a table addressed from
    /// one upward, the registered callable runs on its owning plugin's
    /// interpreter, and any error it raises lands in the status line instead
    /// of failing the host. The owner is found by the stable id carried in
    /// the registration; a handler whose owning plugin is gone — unloading
    /// never lets a later plugin take over an id — fails with a lookup
    /// message, the callable untouched, before anything reaches its dead
    /// interpreter. The outcome-to-status rule is `report_scripted_outcome`.
    pub fn invoke_scripted(
        &mut self,
        f: &mlua::Function,
        id: usize,
        name: String,
        args: Vec<String>,
    ) -> (r: Option<Action>)
        requires
            old(self).wf(),
        ensures
            final(self).wf(),
            scripted_post(*old(self), *final(self), id, name@, r),
            final(self).command_hist == old(self).command_hist,
            final(self).hist_ctr == old(self).hist_ctr,
    {
        let found = match &self.plugin_subsys {
            PlugLoaders::LuaL(l) => l.find_plug_ind_by_id(id),
        };
        let ix = match found {
            Some(ix) => ix,
            None => {
                let mut msg = copy_str("Can't get plugin with id ");
                msg.append(crate::strutil::usize_to_string(id).as_str());
                self.throw_status_message(msg);
                return None;
            },
        };
        let outcome: Result<(), String> = match &self.plugin_subsys {
            PlugLoaders::LuaL(l) => {
                let plug_lua = &l.plugins[ix].lua;
                match build_args_table(plug_lua, &args) {
                    Err(e) => Err(e),
                    Ok(table) => crate::bridge::lua_call_table(f, &table),
                }
            },
        };
        self.report_scripted_outcome(name, outcome);
        None
    }

    /// Turns a scripted call's outcome into the status line: a call that
    /// returned shows the command's name; a captured script error shows the
    /// error's text. Nothing else changes.
    pub fn report_scripted_outcome(&mut self, name: String, outcome: Result<(), String>)
        requires
            old(self).wf(),
        ensures
            final(self).wf(),
            final(self).command_buf == (match outcome {
                Ok(_) => name,
                Err(e) => e,
            }),
            final(self).status_message == true,
            final(self).cursor_pos_xy == (0usize, 0usize),
            final(self).same_core(*old(self)),
            final(self).hist_ctr == old(self).hist_ctr,
    {
        match outcome {
            Err(e) => {
                self.throw_status_message(e);
            },
            Ok(_) => {
                self.throw_status_message(name);
            },
        }
    }

    /// Loads a plugin from its script source and reports the result in the
    /// status line; a load error also comes back for the log.
    pub fn plugin_load_source(&mut self, source: &str) -> (log_err: Option<String>)
        requires
            old(self).wf(),
        ensures
            final(self).wf(),
            final(self).tabs == old(self).tabs,
            final(self).cur_tab == old(self).cur_tab,
            final(self).commands == old(self).commands,
            final(self).aliases == old(self).aliases,
            final(self).command_hist == old(self).command_hist,
            final(self).hist_ctr == old(self).hist_ctr,
            final(self).insert_mode == old(self).insert_mode,
            final(self).running == old(self).running,
            match log_err {
                None => {
                    &&& crate::commands::loader_of(*final(self)).plugins@.len()
                        == crate::commands::loader_of(*old(self)).plugins@.len() + 1
                    &&& crate::commands::loader_of(*final(self)).plugins@.subrange(
                        0,
                        crate::commands::loader_of(*old(self)).plugins@.len() as int,
                    ) == crate::commands::loader_of(*old(self)).plugins@
                    &&& final(self).command_buf@ == "Plugin "@ + crate::commands::loader_of(
                        *final(self),
                    ).plugins@.last().name@ + " successfully loaded."@
                    &&& final(self).status_message == true
                },
                Some(_) => {
                    &&& final(self).plugin_subsys == old(self).plugin_subsys
                    &&& final(self).command_buf@ == "Plugin load returned error. Check logs"@
                    &&& final(self).status_message == true
                },
            },
    {
        let res = match &mut self.plugin_subsys {
            PlugLoaders::LuaL(l) => l.load_plug_source(source, &self.plugin_tx),
        };
        match res {
            Ok(_) => {
                let plugin_name = match &self.plugin_subsys {
                    PlugLoaders::LuaL(l) => copy_str(l.plugins[l.plugins.len() - 1].name.as_str()),
                };
                let mut msg = copy_str("Plugin ");
                msg.append(plugin_name.as_str());
                msg.append(" successfully loaded.");
                self.throw_status_message(msg);
                None
            },
            Err(e) => {
                self.throw_status_message(copy_str("Plugin load returned error. Check logs"));
                Some(e)
            },
        }
    }

    /// Parses the input line into whitespace-delimited tokens and dispatches
    /// it. An empty token list is a usage error and is not recorded; every
    /// other submission is appended to the history — whatever happens next —
    /// and the recall cursor is reset past the newest entry. The first token
    /// is resolved through the alias table exactly once; an unresolved name
    /// is a lookup error.
    pub fn parse_command(&mut self) -> (r: Option<Action>)
        requires
            old(self).wf(),
        ensures
            final(self).wf(),
            parse_command_post(*old(self), *final(self), r),
    {
        let lexems = crate::strutil::tokenize(self.command_buf.as_str());
        if lexems.len() == 0 {
            self.throw_status_message(copy_str("ERR: Command buffer is empty"));
            return None;
        }
        let hist_entry = crate::strutil::copy_lines(&lexems);
        let ghost hist_before = self.command_hist@;
        self.command_hist.push(hist_entry);
        self.hist_ctr = self.command_hist.len();
        proof {
            assert(self.command_hist@.subrange(0, hist_before.len() as int) =~= hist_before);
        }
        let ghost mid = *self;
        let (res_com, res_args) = resolve_alias(&self.aliases, &lexems);
        let mut native: Option<NativeCom> = None;
        let mut scripted: Option<(mlua::Function, usize)> = None;
        match self.commands.get(res_com.as_str()) {
            None => {
                self.throw_status_message(copy_str("ERR: No such command"));
                return None;
            },
            Some(handler) => match handler {
                CommandHandler::Rust(nc) => {
                    native = Some(*nc);
                },
                CommandHandler::Lua(f, id) => {
                    scripted = Some((crate::bridge::lua_function_clone(f), *id));
                },
            },
        }
        if let Some(nc) = native {
            let r = self.run_native(nc, res_args);
            proof {
                assert(crate::commands::agree_but_hist(*old(self), mid));
                crate::commands::lemma_native_post_pre_agree(
                    nc,
                    *old(self),
                    mid,
                    *self,
                    views_of(res_args@),
                    r,
                );
            }
            return r;
        }
        if let Some((f, id)) = scripted {
            let r = self.invoke_scripted(&f, id, res_com, res_args);
            proof {
                assert(scripted_post(
                    *old(self),
                    *self,
                    id,
                    resolved_com(old(self).aliases@, tokens_of(old(self).command_buf@)),
                    r,
                ));
            }
            return r;
        }
        None
    }

    /// Routes one input event: in insert mode to the active text buffer, in
    /// command mode to the input line, the history recall, or — on enter —
    /// to command dispatch, the only route that can ask for outside work.
    pub fn handle_input(&mut self, ev: InputEvent) -> (r: Option<Action>)
        requires
            old(self).wf(),
        ensures
            final(self).wf(),
            handle_input_post(*old(self), *final(self), ev, r),
    {
        match ev {
            InputEvent::ToggleMode => {
                self.insert_mode = !self.insert_mode;
                None
            },
            InputEvent::Char(c) => {
                if !self.insert_mode {
                    self.cmdline_insert(c);
                    return None;
                }
                if c == '\n' {
                    return None;
                }
                if self.left_area_used {
                    self.left_area.insert_char(c);
                    return None;
                }
                let cur = self.cur_tab;
                let t = &mut self.tabs[cur];
                t.insert_char(c);
                proof {
                    assert forall|j: int| 0 <= j < self.tabs@.len() implies (
                    #[trigger] self.tabs@[j]).wf() by {
                        if j != cur {
                            assert(self.tabs@[j] == old(self).tabs@[j]);
                        }
                    }
                }
                None
            },
            InputEvent::TabKey => {
                if !self.insert_mode {
                    return None;
                }
                if self.left_area_used {
                    self.left_area.insert_char('\t');
                    return None;
                }
                let cur = self.cur_tab;
                let t = &mut self.tabs[cur];
                t.insert_char('\t');
                proof {
                    assert forall|j: int| 0 <= j < self.tabs@.len() implies (
                    #[trigger] self.tabs@[j]).wf() by {
                        if j != cur {
                            assert(self.tabs@[j] == old(self).tabs@[j]);
                        }
                    }
                }
                None
            },
            InputEvent::Backspace => {
                if !self.insert_mode {
                    self.cmdline_backspace();
                    return None;
                }
                let cur = self.cur_tab;
                let t = &mut self.tabs[cur];
                t.backspace();
                proof {
                    assert forall|j: int| 0 <= j < self.tabs@.len() implies (
                    #[trigger] self.tabs@[j]).wf() by {
                        if j != cur {
                            assert(self.tabs@[j] == old(self).tabs@[j]);
                        }
                    }
                }
                None
            },
            InputEvent::Enter => {
                if !self.insert_mode {
                    return self.parse_command();
                }
                let cur = self.cur_tab;
                let t = &mut self.tabs[cur];
                t.split_line();
                proof {
                    assert forall|j: int| 0 <= j < self.tabs@.len() implies (
                    #[trigger] self.tabs@[j]).wf() by {
                        if j != cur {
                            assert(self.tabs@[j] == old(self).tabs@[j]);
                        }
                    }
                }
                None
            },
            InputEvent::Left => {
                if !self.insert_mode {
                    if self.cursor_pos_xy.0 > 0 {
                        self.cursor_pos_xy = (self.cursor_pos_xy.0 - 1, 0);
                    }
                    return None;
                }
                let cur = self.cur_tab;
                let t = &mut self.tabs[cur];
                t.move_cursor_left();
                proof {
                    assert forall|j: int| 0 <= j < self.tabs@.len() implies (
                    #[trigger] self.tabs@[j]).wf() by {
                        if j != cur {
                            assert(self.tabs@[j] == old(self).tabs@[j]);
                        }
                    }
                }
                None
            },
            InputEvent::Right => {
                if !self.insert_mode {
                    let len = self.command_buf.as_str().unicode_len();
                    if self.cursor_pos_xy.0 < len {
                        self.cursor_pos_xy = (self.cursor_pos_xy.0 + 1, 0);
                    }
                    return None;
                }
                let cur = self.cur_tab;
                let t = &mut self.tabs[cur];
                t.move_cursor_right();
                proof {
                    assert forall|j: int| 0 <= j < self.tabs@.len() implies (
                    #[trigger] self.tabs@[j]).wf() by {
                        if j != cur {
                            assert(self.tabs@[j] == old(self).tabs@[j]);
                        }
                    }
                }
                None
            },
            InputEvent::Up => {
                if !self.insert_mode {
                    self.history_recall_prev();
                    return None;
                }
                let cur = self.cur_tab;
                let t = &mut self.tabs[cur];
                t.move_cursor_up();
                proof {
                    assert forall|j: int| 0 <= j < self.tabs@.len() implies (
                    #[trigger] self.tabs@[j]).wf() by {
                        if j != cur {
                            assert(self.tabs@[j] == old(self).tabs@[j]);
                        }
                    }
                }
                None
            },
            InputEvent::Down => {
                if !self.insert_mode {
                    self.history_recall_next();
                    return None;
                }
                let cur = self.cur_tab;
                let t = &mut self.tabs[cur];
                t.move_cursor_down();
                proof {
                    assert forall|j: int| 0 <= j < self.tabs@.len() implies (
                    #[trigger] self.tabs@[j]).wf() by {
                        if j != cur {
                            assert(self.tabs@[j] == old(self).tabs@[j]);
                        }
                    }
                }
                None
            },
            InputEvent::PageUp => {
                let cur = self.cur_tab;
                let t = &mut self.tabs[cur];
                t.scroll_up(10);
                proof {
                    assert forall|j: int| 0 <= j < self.tabs@.len() implies (
                    #[trigger] self.tabs@[j]).wf() by {
                        if j != cur {
                            assert(self.tabs@[j] == old(self).tabs@[j]);
                        }
                    }
                }
                None
            },
            InputEvent::PageDown => {
                let cur = self.cur_tab;
                let t = &mut self.tabs[cur];
                t.scroll_down(10);
                proof {
                    assert forall|j: int| 0 <= j < self.tabs@.len() implies (
                    #[trigger] self.tabs@[j]).wf() by {
                        if j != cur {
                            assert(self.tabs@[j] == old(self).tabs@[j]);
                        }
                    }
                }
                None
            },
            InputEvent::Home => {
                let cur = self.cur_tab;
                let t = &mut self.tabs[cur];
                t.update_scroll(0);
                proof {
                    assert forall|j: int| 0 <= j < self.tabs@.len() implies (
                    #[trigger] self.tabs@[j]).wf() by {
                        if j != cur {
                            assert(self.tabs@[j] == old(self).tabs@[j]);
                        }
                    }
                }
                None
            },
            InputEvent::End => {
                let cur = self.cur_tab;
                let t = &mut self.tabs[cur];
                t.update_scroll(usize::MAX);
                proof {
                    assert forall|j: int| 0 <= j < self.tabs@.len() implies (
                    #[trigger] self.tabs@[j]).wf() by {
                        if j != cur {
                            assert(self.tabs@[j] == old(self).tabs@[j]);
                        }
                    }
                }
                None
            },
            InputEvent::Function(num) => {
                let len = self.tabs.len();
                if num as usize > len {
                    let newtab = Tab::new(None);
                    let ghost before = self.tabs@;
                    self.tabs.push(newtab);
                    self.cur_tab = len;
                    proof {
                        assert(self.tabs@.subrange(0, before.len() as int) =~= before);
                        assert(crate::tabs::is_fresh_tab(self.tabs@.last()));
                        assert forall|j: int| 0 <= j < self.tabs@.len() implies (
                        #[trigger] self.tabs@[j]).wf() by {
                            if j < before.len() {
                                assert(self.tabs@[j] == before[j]);
                            }
                        }
                    }
                    return None;
                }
                let want = (num as usize);
                let target = if want > 0 {
                    want - 1
                } else {
                    0
                };
                self.cur_tab = if target < len - 1 {
                    target
                } else {
                    len - 1
                };
                None
            },
            InputEvent::ScrollUp => {
                let cur = self.cur_tab;
                let t = &mut self.tabs[cur];
                t.scroll_up(1);
                proof {
                    assert forall|j: int| 0 <= j < self.tabs@.len() implies (
                    #[trigger] self.tabs@[j]).wf() by {
                        if j != cur {
                            assert(self.tabs@[j] == old(self).tabs@[j]);
                        }
                    }
                }
                None
            },
            InputEvent::ScrollDown => {
                let cur = self.cur_tab;
                let t = &mut self.tabs[cur];
                t.scroll_down(1);
                proof {
                    assert forall|j: int| 0 <= j < self.tabs@.len() implies (
                    #[trigger] self.tabs@[j]).wf() by {
                        if j != cur {
                            assert(self.tabs@[j] == old(self).tabs@[j]);
                        }
                    }
                }
                None
            },
        }
    }
}

/// The table contents the scripted-handler arguments become: the tokens
/// under the indices one to n.
pub open spec fn args_items(va: Seq<Seq<char>>) -> Map<int, Seq<char>> {
    Map::new(|i: int| 1 <= i <= va.len(), |i: int| va[i - 1])
}

/// What invoking a scripted handler does to the editor: nothing but the
/// status line changes; a registration whose owning plugin is gone (found
/// by stable id) shows the missing-plugin lookup error without touching the
/// callable; for a live owner the status text follows the call's outcome as
/// `report_scripted_outcome` states it.
pub open spec fn scripted_post(
    pre: App,
    post: App,
    id: usize,
    name: Seq<char>,
    r: Option<Action>,
) -> bool {
    &&& r is None
    &&& post.tabs == pre.tabs
    &&& post.cur_tab == pre.cur_tab
    &&& post.commands == pre.commands
    &&& post.aliases == pre.aliases
    &&& post.plugin_subsys == pre.plugin_subsys
    &&& post.insert_mode == pre.insert_mode
    &&& post.running == pre.running
    &&& post.version == pre.version
    &&& post.config == pre.config
    &&& post.left_area_open == pre.left_area_open
    &&& post.left_area_used == pre.left_area_used
    &&& post.left_area == pre.left_area
    &&& post.status_message == true
    &&& post.cursor_pos_xy == (0usize, 0usize)
    &&& crate::plugin::spec_find_by_id(
        crate::commands::loader_of(pre).plugins@,
        id as int,
    ) is None ==> post.command_buf@ == "Can't get plugin with id "@
        + crate::strutil::decimal_repr(id as nat)
}

/// Everything one submission promises. An empty token list is a usage
/// error, not recorded; any other submission is appended to the history and
/// the recall cursor reset, whatever follows; an unresolved name is a
/// lookup error; and a found handler — native or scripted — is dispatched
/// with the alias-resolved arguments, meeting that handler's own promise.
pub open spec fn parse_command_post(pre: App, post: App, r: Option<Action>) -> bool {
    let toks = tokens_of(pre.command_buf@);
    let rc = resolved_com(pre.aliases@, toks);
    &&& post.insert_mode == pre.insert_mode
    &&& post.version == pre.version
    &&& toks.len() == 0 ==> {
        &&& post.command_buf@ == "ERR: Command buffer is empty"@
        &&& post.status_message == true
        &&& post.command_hist == pre.command_hist
        &&& post.hist_ctr == pre.hist_ctr
        &&& post.tabs == pre.tabs
        &&& post.aliases == pre.aliases
        &&& post.commands == pre.commands
        &&& r is None
    }
    &&& toks.len() > 0 ==> {
        &&& post.command_hist@.len() == pre.command_hist@.len() + 1
        &&& post.command_hist@.subrange(0, pre.command_hist@.len() as int) == pre.command_hist@
        &&& views_of(post.command_hist@.last()@) == toks
        &&& post.hist_ctr == post.command_hist@.len()
        &&& post.commands == pre.commands
    }
    &&& toks.len() > 0 && !pre.commands@.contains_key(rc) ==> {
        &&& post.command_buf@ == "ERR: No such command"@
        &&& post.status_message == true
        &&& post.tabs == pre.tabs
        &&& post.aliases == pre.aliases
        &&& r is None
    }
    &&& toks.len() > 0 && pre.commands@.contains_key(rc) ==> match pre.commands@[rc] {
        CommandHandler::Rust(nc) => crate::commands::native_post(
            nc,
            pre,
            post,
            resolved_args(pre.aliases@, toks),
            r,
        ),
        CommandHandler::Lua(f, id) => scripted_post(pre, post, id, rc, r),
    }
}

/// Builds the argument table for a scripted handler in `lua`: the tokens
/// stand under the indices one to n.
fn build_args_table(lua: &mlua::Lua, args: &Vec<String>) -> (r: Result<mlua::Table, String>)
    ensures
        match r {
            Ok(t) => crate::bridge::table_items(t) == args_items(views_of(args@)),
            Err(_) => true,
        },
{
    let mut table = match crate::bridge::lua_table_new(lua) {
        Ok(t) => t,
        Err(e) => {
            return Err(e);
        },
    };
    let n = args.len();
    let mut i: usize = 0;
    proof {
        assert(crate::bridge::table_items(table) =~= args_items(
            views_of(args@).subrange(0, 0),
        ));
    }
    while i < n
        invariant
            i <= n,
            n == args@.len(),
            crate::bridge::table_items(table) == args_items(views_of(args@).subrange(0, i as int)),
        decreases n - i,
    {
        if let Err(e) = crate::bridge::lua_table_set_str(&mut table, i + 1, args[i].as_str()) {
            return Err(e);
        }
        proof {
            assert(crate::bridge::table_items(table) =~= args_items(
                views_of(args@).subrange(0, i + 1),
            ));
        }
        i = i + 1;
    }
    proof {
        assert(views_of(args@).subrange(0, n as int) =~= views_of(args@));
    }
    Ok(table)
}

/// Everything `App::history_recall_prev` promises of the state before and after.
pub open spec fn recall_prev_rel(pre: App, post: App) -> bool {
    &&& post.hist_ctr == if pre.hist_ctr > 0 {
                pre.hist_ctr - 1
            } else {
                0int
            }
    &&& post.hist_ctr < post.command_hist@.len() ==> {
                &&& post.command_buf@ == joined_tokens(
                    views_of(post.command_hist@[post.hist_ctr as int]@),
                )
                &&& post.status_message == false
            }
    &&& post.hist_ctr == post.command_hist@.len() ==> {
                &&& post.command_buf == pre.command_buf
                &&& post.status_message == pre.status_message
                &&& post.cursor_pos_xy == pre.cursor_pos_xy
            }
    &&& post.same_core(pre)
}

/// Everything `App::history_recall_next` promises of the state before and after.
pub open spec fn recall_next_rel(pre: App, post: App) -> bool {
    &&& post.hist_ctr == vstd::math::min(
                pre.hist_ctr + 1,
                pre.command_hist@.len() as int,
            )
    &&& post.hist_ctr < post.command_hist@.len()
                ==> post.command_buf@ == joined_tokens(
                views_of(post.command_hist@[post.hist_ctr as int]@),
            )
    &&& post.hist_ctr == post.command_hist@.len()
                ==> post.command_buf@ == Seq::<char>::empty()
    &&& post.status_message == false
    &&& post.same_core(pre)
}

/// Everything `App::cmdline_insert` promises of the state before and after.
pub open spec fn cmdline_insert_rel(pre: App, post: App, c: char) -> bool {
    &&& pre.status_message ==> {
                &&& post.command_buf@ == seq![c]
                &&& post.cursor_pos_xy.0 == 1
                &&& post.status_message == false
            }
    &&& !pre.status_message && pre.cursor_pos_xy.0 < usize::MAX ==> {
                &&& post.command_buf@ == pre.command_buf@.subrange(
                    0,
                    pre.cursor_pos_xy.0 as int,
                ) + seq![c] + pre.command_buf@.subrange(
                    pre.cursor_pos_xy.0 as int,
                    pre.command_buf@.len() as int,
                )
                &&& post.cursor_pos_xy.0 == pre.cursor_pos_xy.0 + 1
                &&& post.status_message == false
            }
    &&& post.same_core(pre)
    &&& post.hist_ctr == pre.hist_ctr
}

/// Everything `App::cmdline_backspace` promises of the state before and after.
pub open spec fn cmdline_backspace_rel(pre: App, post: App) -> bool {
    &&& pre.status_message ==> {
                &&& post.command_buf@ == Seq::<char>::empty()
                &&& post.status_message == false
                &&& post.cursor_pos_xy == (0usize, 0usize)
            }
    &&& !pre.status_message && pre.cursor_pos_xy.0 > 0 ==> {
                &&& post.command_buf@ == pre.command_buf@.subrange(
                    0,
                    pre.cursor_pos_xy.0 - 1,
                ) + pre.command_buf@.subrange(
                    pre.cursor_pos_xy.0 as int,
                    pre.command_buf@.len() as int,
                )
                &&& post.cursor_pos_xy.0 == pre.cursor_pos_xy.0 - 1
            }
    &&& !pre.status_message && pre.cursor_pos_xy.0 == 0
                ==> post == pre
    &&& post.same_core(pre)
    &&& post.hist_ctr == pre.hist_ctr
}

/// Only the tab at index `i` changed; the input line, the registries, the
/// modes and the side panel are kept.
pub open spec fn tab_event_rel(pre: App, post: App, i: int) -> bool {
    &&& post.tabs@.len() == pre.tabs@.len()
    &&& post.tabs@ == pre.tabs@.update(i, post.tabs@[i])
    &&& post.cur_tab == pre.cur_tab
    &&& post.command_buf == pre.command_buf
    &&& post.status_message == pre.status_message
    &&& post.cursor_pos_xy == pre.cursor_pos_xy
    &&& post.command_hist == pre.command_hist
    &&& post.hist_ctr == pre.hist_ctr
    &&& post.commands == pre.commands
    &&& post.aliases == pre.aliases
    &&& post.insert_mode == pre.insert_mode
    &&& post.running == pre.running
    &&& post.left_area_open == pre.left_area_open
    &&& post.left_area_used == pre.left_area_used
    &&& post.left_area == pre.left_area
    &&& post.version == pre.version
    &&& post.plugin_subsys == pre.plugin_subsys
    &&& post.config == pre.config
}

/// Only the side panel's buffer changed.
pub open spec fn left_area_event_rel(pre: App, post: App) -> bool {
    &&& post.tabs == pre.tabs
    &&& post.cur_tab == pre.cur_tab
    &&& post.command_buf == pre.command_buf
    &&& post.status_message == pre.status_message
    &&& post.cursor_pos_xy == pre.cursor_pos_xy
    &&& post.command_hist == pre.command_hist
    &&& post.hist_ctr == pre.hist_ctr
    &&& post.commands == pre.commands
    &&& post.aliases == pre.aliases
    &&& post.insert_mode == pre.insert_mode
    &&& post.running == pre.running
    &&& post.left_area_open == pre.left_area_open
    &&& post.left_area_used == pre.left_area_used
    &&& post.version == pre.version
    &&& post.plugin_subsys == pre.plugin_subsys
    &&& post.config == pre.config
}

/// Only the input-line cursor changed.
pub open spec fn cmd_cursor_event_rel(pre: App, post: App) -> bool {
    &&& post.tabs == pre.tabs
    &&& post.cur_tab == pre.cur_tab
    &&& post.command_buf == pre.command_buf
    &&& post.status_message == pre.status_message
    &&& post.command_hist == pre.command_hist
    &&& post.hist_ctr == pre.hist_ctr
    &&& post.commands == pre.commands
    &&& post.aliases == pre.aliases
    &&& post.insert_mode == pre.insert_mode
    &&& post.running == pre.running
    &&& post.left_area_open == pre.left_area_open
    &&& post.left_area_used == pre.left_area_used
    &&& post.left_area == pre.left_area
    &&& post.version == pre.version
    &&& post.plugin_subsys == pre.plugin_subsys
    &&& post.config == pre.config
}

/// Only the mode flag changed.
pub open spec fn mode_toggle_rel(pre: App, post: App) -> bool {
    &&& post.insert_mode == !pre.insert_mode
    &&& post.tabs == pre.tabs
    &&& post.cur_tab == pre.cur_tab
    &&& post.command_buf == pre.command_buf
    &&& post.status_message == pre.status_message
    &&& post.cursor_pos_xy == pre.cursor_pos_xy
    &&& post.command_hist == pre.command_hist
    &&& post.hist_ctr == pre.hist_ctr
    &&& post.commands == pre.commands
    &&& post.aliases == pre.aliases
    &&& post.running == pre.running
    &&& post.left_area_open == pre.left_area_open
    &&& post.left_area_used == pre.left_area_used
    &&& post.left_area == pre.left_area
    &&& post.version == pre.version
    &&& post.plugin_subsys == pre.plugin_subsys
    &&& post.config == pre.config
}

/// Only the tab set and the active index changed.
pub open spec fn tabs_only_event_rel(pre: App, post: App) -> bool {
    &&& post.command_buf == pre.command_buf
    &&& post.status_message == pre.status_message
    &&& post.cursor_pos_xy == pre.cursor_pos_xy
    &&& post.command_hist == pre.command_hist
    &&& post.hist_ctr == pre.hist_ctr
    &&& post.commands == pre.commands
    &&& post.aliases == pre.aliases
    &&& post.insert_mode == pre.insert_mode
    &&& post.running == pre.running
    &&& post.left_area_open == pre.left_area_open
    &&& post.left_area_used == pre.left_area_used
    &&& post.left_area == pre.left_area
    &&& post.version == pre.version
    &&& post.plugin_subsys == pre.plugin_subsys
    &&& post.config == pre.config
}

/// Everything one input event promises, case by case: in insert mode the
/// event edits the active buffer (or the side panel when it takes input) as
/// the buffer's own contract says; in command mode it edits the input line,
/// recalls history, or — on enter — dispatches the submission; function
/// keys select or open tabs; scroll events move the viewport.
pub open spec fn handle_input_post(pre: App, post: App, ev: InputEvent, r: Option<Action>) -> bool {
    match ev {
        InputEvent::ToggleMode => r is None && mode_toggle_rel(pre, post),
        InputEvent::Char(c) => {
            &&& r is None
            &&& !pre.insert_mode ==> cmdline_insert_rel(pre, post, c)
            &&& pre.insert_mode && c == '\n' ==> post == pre
            &&& pre.insert_mode && c != '\n' && pre.left_area_used ==> left_area_event_rel(
                pre,
                post,
            ) && crate::tabs::insert_char_rel(pre.left_area, post.left_area, c)
            &&& pre.insert_mode && c != '\n' && !pre.left_area_used ==> tab_event_rel(
                pre,
                post,
                pre.cur_tab as int,
            ) && crate::tabs::insert_char_rel(
                pre.tabs@[pre.cur_tab as int],
                post.tabs@[pre.cur_tab as int],
                c,
            )
        },
        InputEvent::TabKey => {
            &&& r is None
            &&& !pre.insert_mode ==> post == pre
            &&& pre.insert_mode && pre.left_area_used ==> left_area_event_rel(pre, post)
                && crate::tabs::insert_char_rel(pre.left_area, post.left_area, '\t')
            &&& pre.insert_mode && !pre.left_area_used ==> tab_event_rel(
                pre,
                post,
                pre.cur_tab as int,
            ) && crate::tabs::insert_char_rel(
                pre.tabs@[pre.cur_tab as int],
                post.tabs@[pre.cur_tab as int],
                '\t',
            )
        },
        InputEvent::Backspace => {
            &&& r is None
            &&& !pre.insert_mode ==> cmdline_backspace_rel(pre, post)
            &&& pre.insert_mode ==> tab_event_rel(pre, post, pre.cur_tab as int)
                && crate::tabs::backspace_rel(
                pre.tabs@[pre.cur_tab as int],
                post.tabs@[pre.cur_tab as int],
            )
        },
        InputEvent::Enter => {
            &&& !pre.insert_mode ==> parse_command_post(pre, post, r)
            &&& pre.insert_mode ==> r is None && tab_event_rel(pre, post, pre.cur_tab as int)
                && crate::tabs::split_line_rel(
                pre.tabs@[pre.cur_tab as int],
                post.tabs@[pre.cur_tab as int],
            )
        },
        InputEvent::Left => {
            &&& r is None
            &&& !pre.insert_mode ==> cmd_cursor_event_rel(pre, post) && post.cursor_pos_xy.0
                == if pre.cursor_pos_xy.0 > 0 {
                pre.cursor_pos_xy.0 - 1
            } else {
                0int
            }
            &&& pre.insert_mode ==> tab_event_rel(pre, post, pre.cur_tab as int)
                && crate::tabs::move_cursor_left_rel(
                pre.tabs@[pre.cur_tab as int],
                post.tabs@[pre.cur_tab as int],
            )
        },
        InputEvent::Right => {
            &&& r is None
            &&& !pre.insert_mode ==> cmd_cursor_event_rel(pre, post) && post.cursor_pos_xy.0
                == vstd::math::min(pre.cursor_pos_xy.0 + 1, pre.command_buf@.len() as int)
            &&& pre.insert_mode ==> tab_event_rel(pre, post, pre.cur_tab as int)
                && crate::tabs::move_cursor_right_rel(
                pre.tabs@[pre.cur_tab as int],
                post.tabs@[pre.cur_tab as int],
            )
        },
        InputEvent::Up => {
            &&& r is None
            &&& !pre.insert_mode ==> recall_prev_rel(pre, post)
            &&& pre.insert_mode ==> tab_event_rel(pre, post, pre.cur_tab as int)
                && crate::tabs::move_cursor_up_rel(
                pre.tabs@[pre.cur_tab as int],
                post.tabs@[pre.cur_tab as int],
            )
        },
        InputEvent::Down => {
            &&& r is None
            &&& !pre.insert_mode ==> recall_next_rel(pre, post)
            &&& pre.insert_mode ==> tab_event_rel(pre, post, pre.cur_tab as int)
                && crate::tabs::move_cursor_down_rel(
                pre.tabs@[pre.cur_tab as int],
                post.tabs@[pre.cur_tab as int],
            )
        },
        InputEvent::PageUp => r is None && tab_event_rel(pre, post, pre.cur_tab as int)
            && crate::tabs::scroll_up_rel(
            pre.tabs@[pre.cur_tab as int],
            post.tabs@[pre.cur_tab as int],
            10,
        ),
        InputEvent::PageDown => r is None && tab_event_rel(pre, post, pre.cur_tab as int)
            && crate::tabs::scroll_down_rel(
            pre.tabs@[pre.cur_tab as int],
            post.tabs@[pre.cur_tab as int],
            10,
        ),
        InputEvent::Home => r is None && tab_event_rel(pre, post, pre.cur_tab as int)
            && crate::tabs::update_scroll_rel(
            pre.tabs@[pre.cur_tab as int],
            post.tabs@[pre.cur_tab as int],
            0,
        ),
        InputEvent::End => r is None && tab_event_rel(pre, post, pre.cur_tab as int)
            && crate::tabs::update_scroll_rel(
            pre.tabs@[pre.cur_tab as int],
            post.tabs@[pre.cur_tab as int],
            usize::MAX,
        ),
        InputEvent::ScrollUp => r is None && tab_event_rel(pre, post, pre.cur_tab as int)
            && crate::tabs::scroll_up_rel(
            pre.tabs@[pre.cur_tab as int],
            post.tabs@[pre.cur_tab as int],
            1,
        ),
        InputEvent::ScrollDown => r is None && tab_event_rel(pre, post, pre.cur_tab as int)
            && crate::tabs::scroll_down_rel(
            pre.tabs@[pre.cur_tab as int],
            post.tabs@[pre.cur_tab as int],
            1,
        ),
        InputEvent::Function(num) => {
            &&& r is None
            &&& tabs_only_event_rel(pre, post)
            &&& (num as int) > pre.tabs@.len() ==> {
                &&& post.tabs@.len() == pre.tabs@.len() + 1
                &&& post.tabs@.subrange(0, pre.tabs@.len() as int) == pre.tabs@
                &&& crate::tabs::is_fresh_tab(post.tabs@.last())
                &&& post.cur_tab == pre.tabs@.len()
            }
            &&& (num as int) <= pre.tabs@.len() ==> {
                &&& post.tabs == pre.tabs
                &&& post.cur_tab == vstd::math::min(
                    if num > 0 {
                        num - 1
                    } else {
                        0int
                    },
                    pre.tabs@.len() - 1,
                )
            }
        },
    }
}

/// The names of the built-in commands.
pub open spec fn native_command_names() -> Set<Seq<char>> {
    set![
        "!hi"@,
        "!w"@,
        "!r"@,
        "!ri"@,
        "!q"@,
        "!exec"@,
        "!execn"@,
        "!exec_f"@,
        "!execn_f"@,
        "!tab"@,
        "!version"@,
        "!qi"@,
        "!rn"@,
        "!alias"@,
        "!plugin"@,
    ]
}

/// Every built-in command stands in the registry under its name.
pub open spec fn native_commands_installed(m: Map<Seq<char>, CommandHandler>) -> bool {
    &&& m.contains_key("!hi"@) && m["!hi"@] == CommandHandler::Rust(NativeCom::Hi)
    &&& m.contains_key("!w"@) && m["!w"@] == CommandHandler::Rust(NativeCom::Write)
    &&& m.contains_key("!r"@) && m["!r"@] == CommandHandler::Rust(NativeCom::Read)
    &&& m.contains_key("!ri"@) && m["!ri"@] == CommandHandler::Rust(NativeCom::ReadIgnore)
    &&& m.contains_key("!q"@) && m["!q"@] == CommandHandler::Rust(NativeCom::Quit)
    &&& m.contains_key("!exec"@) && m["!exec"@] == CommandHandler::Rust(NativeCom::Exec)
    &&& m.contains_key("!execn"@) && m["!execn"@] == CommandHandler::Rust(NativeCom::ExecNew)
    &&& m.contains_key("!exec_f"@) && m["!exec_f"@] == CommandHandler::Rust(NativeCom::ExecFile)
    &&& m.contains_key("!execn_f"@) && m["!execn_f"@] == CommandHandler::Rust(
        NativeCom::ExecNewFile,
    )
    &&& m.contains_key("!tab"@) && m["!tab"@] == CommandHandler::Rust(NativeCom::TabCom)
    &&& m.contains_key("!version"@) && m["!version"@] == CommandHandler::Rust(NativeCom::Version)
    &&& m.contains_key("!qi"@) && m["!qi"@] == CommandHandler::Rust(NativeCom::QuitIgnore)
    &&& m.contains_key("!rn"@) && m["!rn"@] == CommandHandler::Rust(NativeCom::ReadNew)
    &&& m.contains_key("!alias"@) && m["!alias"@] == CommandHandler::Rust(NativeCom::Alias)
    &&& m.contains_key("!plugin"@) && m["!plugin"@] == CommandHandler::Rust(NativeCom::Plugin)
}

} // verus!
