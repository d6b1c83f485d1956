//! Trusted declarations for the embedded script interpreter and the message
//! channel. Each wrapper makes exactly one outside call; its contract is what
//! the library believes about that call. Script execution results depend on
//! the script, so most wrappers promise nothing beyond their shape.

use vstd::prelude::*;

use crate::plugin::PluginMessage;

verus! {

#[verifier::external_type_specification]
#[verifier::external_body]
pub struct ExLua(mlua::Lua);

#[verifier::external_type_specification]
#[verifier::external_body]
pub struct ExFunction(mlua::Function);

#[verifier::external_type_specification]
#[verifier::external_body]
pub struct ExTable(mlua::Table);

#[verifier::external_type_specification]
#[verifier::external_body]
#[verifier::reject_recursive_types(T)]
pub struct ExSender<T>(std::sync::mpsc::Sender<T>);

#[verifier::external_type_specification]
#[verifier::external_body]
#[verifier::reject_recursive_types(T)]
pub struct ExReceiver<T>(std::sync::mpsc::Receiver<T>);

/// Relies on `mlua::Lua::new`: a fresh interpreter with the safe standard
/// libraries loaded.
#[verifier::external_body]
pub(crate) fn lua_new() -> mlua::Lua {
    mlua::Lua::new()
}

/// Relies on `mlua::Chunk::exec`: runs `src` once in `lua`; any raised error
/// comes back as text.
#[verifier::external_body]
pub(crate) fn lua_exec(lua: &mlua::Lua, src: &str) -> Result<(), String> {
    lua.load(src).exec().map_err(|e| e.to_string())
}

/// Relies on `mlua::Table::get` on the global table: the global string named
/// `name`, if the script set one.
#[verifier::external_body]
pub(crate) fn lua_global_string(lua: &mlua::Lua, name: &str) -> Option<String> {
    lua.globals().get::<String>(name).ok()
}

/// Relies on `mlua::Table::get` on the global table: the global function
/// named `name`, if the script defined one.
#[verifier::external_body]
pub(crate) fn lua_global_function(lua: &mlua::Lua, name: &str) -> Option<mlua::Function> {
    lua.globals().get::<mlua::Function>(name).ok()
}

/// Relies on `mlua::Function::call`: calls `f` with no arguments; any raised
/// error comes back as text. The call locks the function's weak reference
/// to its interpreter and panics if that interpreter was dropped, so the
/// caller must pass a handle whose interpreter is still held; the library's
/// one call site passes a function read from an interpreter it holds on the
/// same line.
#[verifier::external_body]
pub(crate) fn lua_call_noargs(f: &mlua::Function) -> Result<(), String> {
    f.call::<()>(()).map_err(|e| e.to_string())
}

/// What a table holds: the string values under its integer keys.
pub uninterp spec fn table_items(t: mlua::Table) -> Map<int, Seq<char>>;

/// Relies on `mlua::Lua::create_table`: a fresh empty table in `lua`.
#[verifier::external_body]
pub(crate) fn lua_table_new(lua: &mlua::Lua) -> (r: Result<mlua::Table, String>)
    ensures
        match r {
            Ok(t) => table_items(t) == Map::<int, Seq<char>>::empty(),
            Err(_) => true,
        },
{
    lua.create_table().map_err(|e| e.to_string())
}

/// Relies on `mlua::Table::set`: binds index `i` of `t` to the string `s`.
/// The handle's interpreter must still be alive (the call locks a weak
/// reference and panics otherwise); the table passed here is always one
/// freshly created from a held interpreter.
#[verifier::external_body]
pub(crate) fn lua_table_set_str(t: &mut mlua::Table, i: usize, s: &str) -> (r: Result<
    (),
    String,
>)
    ensures
        r is Ok ==> table_items(*final(t)) == table_items(*old(t)).insert(i as int, s@),
{
    t.set(i, s).map_err(|e| e.to_string())
}

/// Relies on `mlua::Function::call`: calls `f` with `args` as its single
/// argument; any raised error comes back as text. The call locks the
/// function's weak reference to its interpreter and panics if that
/// interpreter was dropped; the host therefore calls a registered handler
/// only after finding its owning plugin by its stable id — ids are never
/// reused, and the owner holds the interpreter the handler was created in.
#[verifier::external_body]
pub(crate) fn lua_call_table(f: &mlua::Function, args: &mlua::Table) -> Result<(), String> {
    f.call::<()>(args).map_err(|e| e.to_string())
}

/// Relies on `mlua::Function::clone`: another handle to the same function.
#[verifier::external_body]
pub(crate) fn lua_function_clone(f: &mlua::Function) -> mlua::Function {
    f.clone()
}

/// Relies on `mlua::Lua::create_function`: wraps a closure that only forwards
/// its string argument to the library's status channel helper.
#[verifier::external_body]
pub(crate) fn lua_create_status_fn(
    lua: &mlua::Lua,
    tx: std::sync::mpsc::Sender<PluginMessage>,
) -> Result<mlua::Function, String> {
    lua.create_function(move |_, msg: String| {
        crate::plugin::send_status_message(&tx, msg);
        Ok(())
    }).map_err(|e| e.to_string())
}

/// Relies on `mlua::Lua::create_function`: wraps a closure that only forwards
/// the name, the callable and the registering plugin's id to the library's
/// registration channel helper.
#[verifier::external_body]
pub(crate) fn lua_create_register_fn(
    lua: &mlua::Lua,
    tx: std::sync::mpsc::Sender<PluginMessage>,
    plugin_id: usize,
) -> Result<mlua::Function, String> {
    lua.create_function(move |_, (name, func): (String, mlua::Function)| {
        crate::plugin::send_register_command(&tx, name, func, plugin_id);
        Ok(())
    }).map_err(|e| e.to_string())
}

/// Relies on `mlua::Table::set` on the global table: binds the global `name`
/// to `f` in the script's environment. The function must come from the same
/// interpreter (a foreign one trips an assertion inside the crate); the one
/// call site binds functions just created in `lua` itself.
#[verifier::external_body]
pub(crate) fn lua_set_global_fn(lua: &mlua::Lua, name: &str, f: mlua::Function) -> Result<
    (),
    String,
> {
    lua.globals().set(name, f).map_err(|e| e.to_string())
}

/// Relies on `std::sync::mpsc::channel`: a connected sender/receiver pair.
#[verifier::external_body]
pub(crate) fn channel_new() -> (
    std::sync::mpsc::Sender<PluginMessage>,
    std::sync::mpsc::Receiver<PluginMessage>,
) {
    std::sync::mpsc::channel()
}

/// Relies on `std::sync::mpsc::Sender::clone`: another sender into the same
/// channel.
#[verifier::external_body]
pub(crate) fn sender_clone(
    tx: &std::sync::mpsc::Sender<PluginMessage>,
) -> std::sync::mpsc::Sender<PluginMessage> {
    tx.clone()
}

/// Relies on `std::sync::mpsc::Sender::send`: enqueues `m`; the send fails
/// only once the receiving end is gone, and then the message is dropped.
#[verifier::external_body]
pub(crate) fn channel_send(tx: &std::sync::mpsc::Sender<PluginMessage>, m: PluginMessage) {
    let _ = tx.send(m);
}

/// Relies on `std::sync::mpsc::Receiver::try_iter`: every message queued at
/// the moment of the call, in arrival order, without blocking.
#[verifier::external_body]
pub(crate) fn channel_drain(
    rx: &std::sync::mpsc::Receiver<PluginMessage>,
) -> Vec<PluginMessage> {
    rx.try_iter().collect()
}

} // verus!
