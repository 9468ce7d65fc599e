//! A new project: its directories, its first source, and the `cbit.lua`
//! it starts with.
use vstd::prelude::*;
use crate::text;

verus! {

/// The first source of a new project.
pub const MAIN_C_TEXT: &'static str = "#include <stdio.h>\n\nint main() {\n    printf(\"hello world\");\n    return 0;\n}";

/// The opening of a new `cbit.lua`, before the project's name.
pub const CONFIG_TEMPLATE_HEAD: &'static str = "-- cbit.lua - Project configuration for ";

/// The part of a new `cbit.lua` between the two mentions of the name.
pub const CONFIG_TEMPLATE_MIDDLE: &'static str = "\ncbit.config({\n    name = \"";

/// The rest of a new `cbit.lua`, after the project's name.
pub const CONFIG_TEMPLATE_TAIL: &'static str = "\",\n    version = \"0.1.0\",\n    linker = \"gcc\",\n    std = \"c11\",\n    format = \"opcode\",\n    include_dirs = { \"lib\" },\n    flags = { \"-Wall\", \"-Wextra\" },\n    defines = { \"NDEBUG\" },\n    libs = { \"./lib\" },\n    profile = function()\n        local profile = os.getenv(\"CBIT_PROFILE\") or \"debug\"\n        if profile == \"release\" then\n            return { \"-O3\", \"-march=native\" }\n        elseif profile == \"debug\" then\n            return { \"-O0\", \"-g\" }\n        else\n            return { \"-O2\" }\n        end\n    end,\n})\n";

/// The directories and the first source file of a new project.
pub struct ProjectSkeleton {
    pub root: String,
    pub src_dir: String,
    pub main_source: String,
    pub lib_dir: String,
}

/// The `cbit.lua` written into a new project called `name`.
pub open spec fn config_template_of(name: Seq<char>) -> Seq<char> {
    CONFIG_TEMPLATE_HEAD@ + name + CONFIG_TEMPLATE_MIDDLE@ + name + CONFIG_TEMPLATE_TAIL@
}

/// The layout of a new project called `name`: the directory `name`, with
/// `src/main.c` and `lib` inside.
pub fn project_skeleton(name: &str) -> (s: ProjectSkeleton)
    ensures
        s.root@ == name@,
        s.src_dir@ == name@ + "/src"@,
        s.main_source@ == name@ + "/src/main.c"@,
        s.lib_dir@ == name@ + "/lib"@,
{
    ProjectSkeleton {
        root: name.to_owned(),
        src_dir: text::concat(name, "/src"),
        main_source: text::concat(name, "/src/main.c"),
        lib_dir: text::concat(name, "/lib"),
    }
}

/// The path of the configuration script in the directory `dir`.
pub fn config_script_path(dir: &str) -> (p: String)
    ensures
        p@ == dir@ + "/cbit.lua"@,
{
    text::concat(dir, "/cbit.lua")
}

/// The `cbit.lua` written into a new project called `name`.
pub fn config_template(name: &str) -> (t: String)
    ensures
        t@ == config_template_of(name@),
{
    let mut t = CONFIG_TEMPLATE_HEAD.to_owned();
    t.append(name);
    t.append(CONFIG_TEMPLATE_MIDDLE);
    t.append(name);
    t.append(CONFIG_TEMPLATE_TAIL);
    t
}

} // verus!
