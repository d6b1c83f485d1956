//! The plugin host: a collection of independent script interpreters, each
//! loaded from one script source, able to register commands and to send
//! status messages through the message channel. A plugin's id is its index
//! in the collection at the time of use.

use vstd::prelude::*;
use vstd::string::StringExecFns;

use crate::bridge::{
    channel_send, lua_call_noargs, lua_create_register_fn, lua_create_status_fn, lua_exec,
    lua_global_function, lua_global_string, lua_new, lua_set_global_fn, sender_clone,
};
use crate::strutil::{copy_str, str_eq};

verus! {

/// Marker for plugin-loader backends.
pub trait PluginLoader {

}

/// The loader backends the host can run.
pub enum PlugLoaders {
    LuaL(LuaLoader),
}

/// Health of the plugin subsystem as a whole.
#[derive(Clone, Copy, Debug, PartialEq, Eq)]
pub enum LoaderSysState {
    Running,
    Disabled,
    Panicked,
}

/// A command a plugin asks the host to run.
pub enum PlugCom {
    StatusMsg(String),
}

/// One message from a plugin to the host, drained once per input cycle.
pub enum PluginMessage {
    Command(PlugCom),
    RegisterCommand(String, mlua::Function, usize),
    Error(String),
}

/// One loaded plugin: its own interpreter, its stable id, and its
/// descriptive fields. The id is handed to the plugin's registration
/// capability and is never reused by a later plugin, so a registration
/// whose owner was unloaded can always be recognised as dangling.
pub struct LuaPlugin {
    pub lua: mlua::Lua,
    pub id: usize,
    pub name: String,
    pub author: String,
    pub version: String,
    pub desc: String,
}

/// The script-plugin loader: the loaded plugins, the subsystem state, and
/// the next stable id to hand out.
pub struct LuaLoader {
    pub plugins: Vec<LuaPlugin>,
    pub state: LoaderSysState,
    pub next_id: usize,
}

/// Enqueues a status-message request from a plugin.
pub fn send_status_message(tx: &std::sync::mpsc::Sender<PluginMessage>, msg: String) {
    channel_send(tx, PluginMessage::Command(PlugCom::StatusMsg(msg)));
}

/// Enqueues a command-registration request from the plugin with id `id`.
pub fn send_register_command(
    tx: &std::sync::mpsc::Sender<PluginMessage>,
    name: String,
    func: mlua::Function,
    id: usize,
) {
    channel_send(tx, PluginMessage::RegisterCommand(name, func, id));
}

/// The first index whose plugin carries the stable id `id`, if any.
pub open spec fn spec_find_by_id(ps: Seq<LuaPlugin>, id: int) -> Option<int>
    decreases ps.len(),
{
    if ps.len() == 0 {
        None
    } else if ps[0].id == id {
        Some(0int)
    } else {
        match spec_find_by_id(ps.drop_first(), id) {
            Some(i) => Some(i + 1),
            None => None,
        }
    }
}

/// The first index whose plugin is named `name`, if any.
pub open spec fn spec_find_by_name(ps: Seq<LuaPlugin>, name: Seq<char>) -> Option<int>
    decreases ps.len(),
{
    if ps.len() == 0 {
        None
    } else if ps[0].name@ == name {
        Some(0int)
    } else {
        match spec_find_by_name(ps.drop_first(), name) {
            Some(i) => Some(i + 1),
            None => None,
        }
    }
}

impl LuaLoader {
    /// Every loaded plugin's stable id is below the next one to hand out,
    /// so ids are unique and a removed plugin's id never comes back.
    pub open spec fn wf(self) -> bool {
        &&& forall|i: int|
            0 <= i < self.plugins@.len() ==> (#[trigger] self.plugins@[i]).id < self.next_id
        &&& forall|i: int, j: int|
            0 <= i < j < self.plugins@.len() ==> (#[trigger] self.plugins@[i]).id != (
            #[trigger] self.plugins@[j]).id
    }

    /// A loader with no plugins, running normally.
    pub fn new() -> (l: LuaLoader)
        ensures
            l.wf(),
            l.plugins@ == Seq::<LuaPlugin>::empty(),
            l.state is Running,
            l.next_id == 0,
    {
        LuaLoader { plugins: Vec::new(), state: LoaderSysState::Running, next_id: 0 }
    }

    /// Loads one plugin from its script source. The two host capabilities
    /// are installed first, then the script runs once; its optional global
    /// strings name the plugin (defaults fill the gaps); a defined
    /// initialization hook is called once, and an error it raises is
    /// reported on the channel but does not fail the load. On success the
    /// new plugin stands at the end of the collection; on failure the
    /// loader is unchanged.
    pub fn load_plug_source(
        &mut self,
        source: &str,
        tx: &std::sync::mpsc::Sender<PluginMessage>,
    ) -> (r: Result<(), String>)
        requires
            old(self).wf(),
        ensures
            final(self).wf(),
            match r {
                Ok(_) => {
                    &&& final(self).plugins@.len() == old(self).plugins@.len() + 1
                    &&& final(self).plugins@.subrange(0, old(self).plugins@.len() as int) == old(
                        self,
                    ).plugins@
                    &&& final(self).plugins@.last().id == old(self).next_id
                    &&& final(self).next_id == old(self).next_id + 1
                    &&& final(self).state == old(self).state
                },
                Err(_) => *final(self) == *old(self),
            },
    {
        if self.next_id == usize::MAX {
            return Err(copy_str("plugin id space exhausted"));
        }
        let lua = lua_new();
        let id = self.next_id;
        let status_fn = match lua_create_status_fn(&lua, sender_clone(tx)) {
            Ok(f) => f,
            Err(e) => {
                return Err(e);
            },
        };
        if let Err(e) = lua_set_global_fn(&lua, "frevi_status_msg", status_fn) {
            return Err(e);
        }
        let register_fn = match lua_create_register_fn(&lua, sender_clone(tx), id) {
            Ok(f) => f,
            Err(e) => {
                return Err(e);
            },
        };
        if let Err(e) = lua_set_global_fn(&lua, "frevi_register_command", register_fn) {
            return Err(e);
        }
        if let Err(e) = lua_exec(&lua, source) {
            let mut msg = copy_str("LUA ERR: ");
            msg.append(e.as_str());
            return Err(msg);
        }
        let name = field_or_default(lua_global_string(&lua, "PLUGIN_NAME"), "Unnamed plugin");
        let author = field_or_default(lua_global_string(&lua, "PLUGIN_AUTHOR"), "Unknown author");
        let desc = field_or_default(
            lua_global_string(&lua, "PLUGIN_DESC"),
            "No description providen",
        );
        let version = field_or_default(lua_global_string(&lua, "PLUGIN_VERSION"), "v1.0.0");

        match lua_global_function(&lua, "onInit") {
            Some(init_fn) => {
                if let Err(e) = lua_call_noargs(&init_fn) {
                    channel_send(tx, PluginMessage::Error(e));
                }
            },
            None => {},
        }

        let ghost before = self.plugins@;
        self.plugins.push(LuaPlugin { lua, id, name, author, version, desc });
        self.next_id = self.next_id + 1;
        proof {
            assert(self.plugins@.subrange(0, before.len() as int) =~= before);
            assert forall|a: int|
                0 <= a < self.plugins@.len() implies (#[trigger] self.plugins@[a]).id
                < self.next_id by {
                if a < before.len() {
                    assert(self.plugins@[a] == before[a]);
                }
            }
            assert forall|a: int, b: int|
                0 <= a < b < self.plugins@.len() implies (#[trigger] self.plugins@[a]).id != (
            #[trigger] self.plugins@[b]).id by {
                if b < before.len() {
                    assert(self.plugins@[a] == before[a]);
                    assert(self.plugins@[b] == before[b]);
                } else {
                    assert(self.plugins@[a] == before[a]);
                    assert(self.plugins@[b].id == id);
                }
            }
        }
        Ok(())
    }

    /// Removes the plugin at index `ind`; out-of-range indices do nothing.
    /// The removed plugin's stable id is never handed out again.
    pub fn unload_plugin_ind(&mut self, ind: usize)
        requires
            old(self).wf(),
        ensures
            final(self).wf(),
            ind < old(self).plugins@.len() ==> final(self).plugins@ == old(
                self,
            ).plugins@.remove(ind as int),
            ind >= old(self).plugins@.len() ==> *final(self) == *old(self),
            final(self).state == old(self).state,
            final(self).next_id == old(self).next_id,
    {
        if ind >= self.plugins.len() {
            return ;
        }
        let ghost before = self.plugins@;
        self.plugins.remove(ind);
        proof {
            assert forall|a: int|
                0 <= a < self.plugins@.len() implies (#[trigger] self.plugins@[a]).id
                < self.next_id by {
                let a0 = if a < ind { a } else { a + 1 };
                assert(self.plugins@[a] == before[a0]);
                assert(before[a0].id < self.next_id);
            }
            assert forall|a: int, b: int|
                0 <= a < b < self.plugins@.len() implies (#[trigger] self.plugins@[a]).id != (
            #[trigger] self.plugins@[b]).id by {
                let a0 = if a < ind { a } else { a + 1 };
                let b0 = if b < ind { b } else { b + 1 };
                assert(self.plugins@[a] == before[a0]);
                assert(self.plugins@[b] == before[b0]);
                assert(before[a0].id != before[b0].id);
            }
        }
    }

    /// The index of the plugin carrying the stable id `id`, if it is still
    /// loaded.
    pub fn find_plug_ind_by_id(&self, id: usize) -> (r: Option<usize>)
        ensures
            match r {
                Some(i) => {
                    &&& spec_find_by_id(self.plugins@, id as int) == Some(i as int)
                    &&& (i as int) < self.plugins@.len()
                    &&& self.plugins@[i as int].id == id
                },
                None => spec_find_by_id(self.plugins@, id as int) is None,
            },
    {
        let n = self.plugins.len();
        let mut i: usize = 0;
        while i < n
            invariant
                i <= n,
                n == self.plugins@.len(),
                forall|j: int| 0 <= j < i ==> (#[trigger] self.plugins@[j]).id != id,
            decreases n - i,
        {
            if self.plugins[i].id == id {
                proof {
                    lemma_find_by_id_at(self.plugins@, id as int, i as int);
                }
                return Some(i);
            }
            i = i + 1;
        }
        proof {
            lemma_find_by_id_absent(self.plugins@, id as int);
        }
        None
    }

    /// The first plugin with exactly the name `name`, if any.
    pub fn find_plug_by_name_ref(&self, name: &str) -> (r: Option<&LuaPlugin>)
        ensures
            match r {
                Some(p) => {
                    &&& spec_find_by_name(self.plugins@, name@) is Some
                    &&& *p == self.plugins@[spec_find_by_name(self.plugins@, name@)->Some_0]
                },
                None => spec_find_by_name(self.plugins@, name@) is None,
            },
    {
        let n = self.plugins.len();
        let mut i: usize = 0;
        while i < n
            invariant
                i <= n,
                n == self.plugins@.len(),
                forall|j: int| 0 <= j < i ==> (#[trigger] self.plugins@[j]).name@ != name@,
            decreases n - i,
        {
            if str_eq(self.plugins[i].name.as_str(), name) {
                proof {
                    lemma_find_by_name_at(self.plugins@, name@, i as int);
                }
                return Some(&self.plugins[i]);
            }
            i = i + 1;
        }
        proof {
            lemma_find_by_name_absent(self.plugins@, name@);
        }
        None
    }

    /// The index of the first plugin named `name`, if any.
    pub fn find_plug_ind_by_name(&self, name: &str) -> (r: Option<usize>)
        ensures
            match r {
                Some(i) => {
                    &&& spec_find_by_name(self.plugins@, name@) == Some(i as int)
                    &&& (i as int) < self.plugins@.len()
                    &&& self.plugins@[i as int].name@ == name@
                },
                None => spec_find_by_name(self.plugins@, name@) is None,
            },
    {
        let n = self.plugins.len();
        let mut i: usize = 0;
        while i < n
            invariant
                i <= n,
                n == self.plugins@.len(),
                forall|j: int| 0 <= j < i ==> (#[trigger] self.plugins@[j]).name@ != name@,
            decreases n - i,
        {
            if str_eq(self.plugins[i].name.as_str(), name) {
                proof {
                    lemma_find_by_name_at(self.plugins@, name@, i as int);
                }
                return Some(i);
            }
            i = i + 1;
        }
        proof {
            lemma_find_by_name_absent(self.plugins@, name@);
        }
        None
    }
}

impl PluginLoader for LuaLoader {

}

/// The given value, or the default where the script set none.
pub fn field_or_default(value: Option<String>, default: &str) -> (r: String)
    ensures
        match value {
            Some(s) => r == s,
            None => r@ == default@,
        },
{
    match value {
        Some(s) => s,
        None => copy_str(default),
    }
}

proof fn lemma_find_by_id_at(ps: Seq<LuaPlugin>, id: int, i: int)
    requires
        0 <= i < ps.len(),
        ps[i].id == id,
        forall|j: int| 0 <= j < i ==> (#[trigger] ps[j]).id != id,
    ensures
        spec_find_by_id(ps, id) == Some(i),
    decreases i,
{
    if i > 0 {
        assert(ps[0].id != id);
        let tail = ps.drop_first();
        assert(tail[i - 1] == ps[i]);
        assert forall|j: int| 0 <= j < i - 1 implies (#[trigger] tail[j]).id != id by {
            assert(tail[j] == ps[j + 1]);
        }
        lemma_find_by_id_at(tail, id, i - 1);
    }
}

proof fn lemma_find_by_id_absent(ps: Seq<LuaPlugin>, id: int)
    requires
        forall|j: int| 0 <= j < ps.len() ==> (#[trigger] ps[j]).id != id,
    ensures
        spec_find_by_id(ps, id) is None,
    decreases ps.len(),
{
    if ps.len() > 0 {
        let tail = ps.drop_first();
        assert forall|j: int| 0 <= j < tail.len() implies (#[trigger] tail[j]).id != id by {
            assert(tail[j] == ps[j + 1]);
        }
        lemma_find_by_id_absent(tail, id);
    }
}

proof fn lemma_find_by_name_at(ps: Seq<LuaPlugin>, name: Seq<char>, i: int)
    requires
        0 <= i < ps.len(),
        ps[i].name@ == name,
        forall|j: int| 0 <= j < i ==> (#[trigger] ps[j]).name@ != name,
    ensures
        spec_find_by_name(ps, name) == Some(i),
    decreases i,
{
    if i > 0 {
        assert(ps[0].name@ != name);
        let tail = ps.drop_first();
        assert(tail[i - 1] == ps[i]);
        assert forall|j: int| 0 <= j < i - 1 implies (#[trigger] tail[j]).name@ != name by {
            assert(tail[j] == ps[j + 1]);
        }
        lemma_find_by_name_at(tail, name, i - 1);
    }
}

proof fn lemma_find_by_name_absent(ps: Seq<LuaPlugin>, name: Seq<char>)
    requires
        forall|j: int| 0 <= j < ps.len() ==> (#[trigger] ps[j]).name@ != name,
    ensures
        spec_find_by_name(ps, name) is None,
    decreases ps.len(),
{
    if ps.len() > 0 {
        let tail = ps.drop_first();
        assert forall|j: int| 0 <= j < tail.len() implies (#[trigger] tail[j]).name@ != name by {
            assert(tail[j] == ps[j + 1]);
        }
        lemma_find_by_name_absent(tail, name);
    }
}

} // verus!
