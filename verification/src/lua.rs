//! Running a `cbit.lua` script: the script calls `cbit.config { ... }`, each
//! call is recorded as a `ConfigTable`, and the recorded calls are applied in
//! order to the default configuration.
use vstd::prelude::*;
use mlua::{Function, Lua, Table};
use crate::config::{ConfigTable, ProjectConfig};
use crate::config;

verus! {

#[verifier::external_type_specification]
#[verifier::external_body]
pub struct ExLua(Lua);

#[verifier::external_type_specification]
#[verifier::external_body]
pub struct ExLuaTable<'lua>(Table<'lua>);

#[verifier::external_type_specification]
#[verifier::external_body]
pub struct ExLuaFunction<'lua>(Function<'lua>);

#[verifier::external_type_specification]
#[verifier::external_body]
pub struct ExLuaError(mlua::Error);

/// Why a configuration script could not be run: the Lua error's message.
#[derive(Debug)]
pub struct ConfigError {
    pub message: String,
}

/// `Lua::new`: a fresh Lua state with the safe standard libraries. Nothing
/// is claimed of it.
#[verifier::external_body]
fn new_lua() -> Lua {
    Lua::new()
}

/// `Lua::create_table`: a new empty table, or the error Lua reports.
/// Nothing is claimed of which.
#[verifier::external_body]
fn create_table<'lua>(lua: &'lua Lua) -> Result<Table<'lua>, mlua::Error> {
    lua.create_table()
}

/// `Lua::create_function` with a callback that hands each call's table to
/// `record_config_call`. Nothing is claimed of the result.
#[verifier::external_body]
fn create_config_hook<'lua>(lua: &'lua Lua) -> Result<Function<'lua>, mlua::Error> {
    lua.create_function(|lua, table: Table| record_config_call(lua, table))
}

/// `Table::set` of `value` under a string key. Nothing is claimed of the
/// result.
#[verifier::external_body]
fn set_field<'lua, V: mlua::IntoLua<'lua>>(table: &Table<'lua>, key: &str, value: V) -> Result<
    (),
    mlua::Error,
> {
    table.set(key, value)
}

/// `Lua::globals`: the table of global variables.
#[verifier::external_body]
fn globals<'lua>(lua: &'lua Lua) -> Table<'lua> {
    lua.globals()
}

/// `Chunk::exec` of `Lua::load(script)`: runs the script. What it does
/// depends on the script, the environment it reads and the callbacks it
/// calls; nothing is claimed of the result.
#[verifier::external_body]
fn exec_script(lua: &Lua, script: &str) -> Result<(), mlua::Error> {
    lua.load(script).exec()
}

/// `Table::get` under `key`, converted to `V`; `None` where the value is
/// absent or does not convert. Nothing is claimed of which.
#[verifier::external_body]
fn field<'lua, V: mlua::FromLua<'lua>>(table: &Table<'lua>, key: &str) -> Option<V> {
    table.get::<_, V>(key).ok()
}

/// `Function::call` with no arguments, expecting a list of strings; `None`
/// where the call fails or its result does not convert. The function may
/// read the environment: nothing is claimed of the result.
#[verifier::external_body]
fn call_for_strings(f: &Function) -> Option<Vec<String>> {
    f.call::<_, Vec<String>>(()).ok()
}

/// `Lua::remove_app_data` of the recorded calls. The store lives inside the
/// Lua state: nothing is claimed of what comes back.
#[verifier::external_body]
fn take_recorded(lua: &Lua) -> Option<Vec<ConfigTable>> {
    lua.remove_app_data::<Vec<ConfigTable>>()
}

/// `Lua::set_app_data` of the recorded calls; the previous value is dropped.
#[verifier::external_body]
fn store_recorded(lua: &Lua, recorded: Vec<ConfigTable>) {
    lua.set_app_data(recorded);
}

/// The message of a Lua error (its `Display`). Nothing is claimed of it.
#[verifier::external_body]
fn error_message(e: &mlua::Error) -> String {
    e.to_string()
}

/// Reads one `cbit.config` table through its lookups: `get_string(key)` and
/// `get_strings(key)` give the table's value under `key` as a string or a
/// list of strings (`None` where absent or of another type), and
/// `run_profile()` the flags its `profile` function returns. Each field of
/// the result is the lookup of the key of the same name, made in the order
/// name, version, linker, std, format, include_dirs, flags, profile,
/// defines, libs.
fn read_config_table<S, L, P>(get_string: &S, get_strings: &L, run_profile: &P) -> (t: ConfigTable) where
    S: Fn(&str) -> Option<String>,
    L: Fn(&str) -> Option<Vec<String>>,
    P: Fn() -> Option<Vec<String>>,

    requires
        forall|k: &str| get_string.requires((k,)),
        forall|k: &str| get_strings.requires((k,)),
        run_profile.requires(()),
    ensures
        get_string.ensures(("name",), t.name),
        get_string.ensures(("version",), t.version),
        get_string.ensures(("linker",), t.linker),
        get_string.ensures(("std",), t.std),
        get_string.ensures(("format",), t.format),
        get_strings.ensures(("include_dirs",), t.include_dirs),
        get_strings.ensures(("flags",), t.flags),
        run_profile.ensures((), t.profile_flags),
        get_strings.ensures(("defines",), t.defines),
        get_strings.ensures(("libs",), t.libs),
{
    let name = get_string("name");
    let version = get_string("version");
    let linker = get_string("linker");
    let std = get_string("std");
    let format = get_string("format");
    let include_dirs = get_strings("include_dirs");
    let flags = get_strings("flags");
    let profile_flags = run_profile();
    let defines = get_strings("defines");
    let libs = get_strings("libs");
    ConfigTable {
        name,
        version,
        linker,
        std,
        format,
        include_dirs,
        flags,
        profile_flags,
        defines,
        libs,
    }
}

/// The body of `cbit.config`: records the call's table after those before it.
fn record_config_call<'lua>(lua: &'lua Lua, table: Table<'lua>) -> (r: Result<(), mlua::Error>)
    ensures
        r is Ok,
{
    let get_string = |key: &str| -> (v: Option<String>) { field::<String>(&table, key) };
    let get_strings = |key: &str| -> (v: Option<Vec<String>>) { field::<Vec<String>>(&table, key) };
    let run_profile = || -> (v: Option<Vec<String>>)
        {
            match field::<Function>(&table, "profile") {
                Some(f) => call_for_strings(&f),
                None => None,
            }
        };
    let entry = read_config_table(&get_string, &get_strings, &run_profile);
    let recorded = recorded_after(take_recorded(lua), entry);
    store_recorded(lua, recorded);
    Ok(())
}

/// The recorded calls once `entry` is recorded after `recorded` (none where
/// nothing was recorded yet).
fn recorded_after(recorded: Option<Vec<ConfigTable>>, entry: ConfigTable) -> (r: Vec<ConfigTable>)
    ensures
        r@ == match recorded {
            Some(v) => v@.push(entry),
            None => seq![entry],
        },
{
    let mut v = match recorded {
        Some(v) => v,
        None => Vec::new(),
    };
    let ghost before = v@;
    v.push(entry);
    proof {
        if before.len() == 0 {
            assert(before.push(entry) =~= seq![entry]);
        }
    }
    v
}

/// Turns a Lua error into the library's error.
fn config_error(e: mlua::Error) -> ConfigError {
    ConfigError { message: error_message(&e) }
}

/// The configuration that the script `script` (the content of `cbit.lua`)
/// sets up: the script runs with a global table `cbit` whose `config`
/// function it may call with tables; the calls are applied in order to the
/// defaults. An empty script runs no Lua and gives the defaults; an error
/// of Lua is returned as `ConfigError`.
pub fn load_cbit_config(script: &str) -> (r: Result<ProjectConfig, ConfigError>)
    ensures
        script@.len() == 0 ==> (r matches Ok(c) && c@ == config::default_config()),
{
    if script.is_empty() {
        let c = ProjectConfig::default();
        return Ok(c);
    }
    let lua = new_lua();
    let cbit = match create_table(&lua) {
        Ok(t) => t,
        Err(e) => return Err(config_error(e)),
    };
    let hook = match create_config_hook(&lua) {
        Ok(f) => f,
        Err(e) => return Err(config_error(e)),
    };
    match set_field(&cbit, "config", hook) {
        Ok(()) => {},
        Err(e) => return Err(config_error(e)),
    }
    match set_field(&globals(&lua), "cbit", cbit) {
        Ok(()) => {},
        Err(e) => return Err(config_error(e)),
    }
    match exec_script(&lua, script) {
        Ok(()) => {},
        Err(e) => return Err(config_error(e)),
    }
    let recorded = match take_recorded(&lua) {
        Some(v) => v,
        None => Vec::new(),
    };
    let c = config::config_from_tables(recorded);
    Ok(c)
}

} // verus!
