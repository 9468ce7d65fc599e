//! The project configuration, its defaults, and how the tables that a
//! `cbit.lua` script hands to `cbit.config` change it.
use vstd::prelude::*;

verus! {

/// The settings a project builds with.
#[derive(Debug, Clone)]
pub struct ProjectConfig {
    pub name: String,
    pub version: String,
    pub linker: String,
    pub std: String,
    pub format: String,
    pub include_dirs: Vec<String>,
    pub flags: Vec<String>,
    pub defines: Vec<String>,
    pub libs: Vec<String>,
}

/// A `ProjectConfig` as plain character sequences.
pub struct ProjectConfigView {
    pub name: Seq<char>,
    pub version: Seq<char>,
    pub linker: Seq<char>,
    pub std: Seq<char>,
    pub format: Seq<char>,
    pub include_dirs: Seq<Seq<char>>,
    pub flags: Seq<Seq<char>>,
    pub defines: Seq<Seq<char>>,
    pub libs: Seq<Seq<char>>,
}

impl View for ProjectConfig {
    type V = ProjectConfigView;

    open spec fn view(&self) -> ProjectConfigView {
        ProjectConfigView {
            name: self.name@,
            version: self.version@,
            linker: self.linker@,
            std: self.std@,
            format: self.format@,
            include_dirs: self.include_dirs.deep_view(),
            flags: self.flags.deep_view(),
            defines: self.defines.deep_view(),
            libs: self.libs.deep_view(),
        }
    }
}

/// The configuration a project has when `cbit.lua` sets nothing.
pub open spec fn default_config() -> ProjectConfigView {
    ProjectConfigView {
        name: "unnamed_project"@,
        version: "0.1.0"@,
        linker: "gcc"@,
        std: "c11"@,
        format: "opcode"@,
        include_dirs: Seq::empty(),
        flags: seq!["-Wall"@, "-Wextra"@],
        defines: Seq::empty(),
        libs: Seq::empty(),
    }
}

impl Default for ProjectConfig {
    fn default() -> (c: Self)
        ensures
            c@ == default_config(),
    {
        let flags = vec!["-Wall".to_owned(), "-Wextra".to_owned()];
        let c = ProjectConfig {
            name: "unnamed_project".to_owned(),
            version: "0.1.0".to_owned(),
            linker: "gcc".to_owned(),
            std: "c11".to_owned(),
            format: "opcode".to_owned(),
            include_dirs: Vec::new(),
            flags,
            defines: Vec::new(),
            libs: Vec::new(),
        };
        assert(c.flags.deep_view() =~= seq!["-Wall"@, "-Wextra"@]);
        assert(c.include_dirs.deep_view() =~= Seq::<Seq<char>>::empty());
        assert(c.defines.deep_view() =~= Seq::<Seq<char>>::empty());
        assert(c.libs.deep_view() =~= Seq::<Seq<char>>::empty());
        c
    }
}

/// What one call of `cbit.config` hands over: each field that the script's
/// table holds with the right type, and the flags that its `profile`
/// function returned, where it has one that returned a list of strings.
#[derive(Debug, Clone)]
pub struct ConfigTable {
    pub name: Option<String>,
    pub version: Option<String>,
    pub linker: Option<String>,
    pub std: Option<String>,
    pub format: Option<String>,
    pub include_dirs: Option<Vec<String>>,
    pub flags: Option<Vec<String>>,
    pub profile_flags: Option<Vec<String>>,
    pub defines: Option<Vec<String>>,
    pub libs: Option<Vec<String>>,
}

/// A `ConfigTable` as plain character sequences.
pub struct ConfigTableView {
    pub name: Option<Seq<char>>,
    pub version: Option<Seq<char>>,
    pub linker: Option<Seq<char>>,
    pub std: Option<Seq<char>>,
    pub format: Option<Seq<char>>,
    pub include_dirs: Option<Seq<Seq<char>>>,
    pub flags: Option<Seq<Seq<char>>>,
    pub profile_flags: Option<Seq<Seq<char>>>,
    pub defines: Option<Seq<Seq<char>>>,
    pub libs: Option<Seq<Seq<char>>>,
}

impl View for ConfigTable {
    type V = ConfigTableView;

    open spec fn view(&self) -> ConfigTableView {
        ConfigTableView {
            name: self.name.deep_view(),
            version: self.version.deep_view(),
            linker: self.linker.deep_view(),
            std: self.std.deep_view(),
            format: self.format.deep_view(),
            include_dirs: self.include_dirs.deep_view(),
            flags: self.flags.deep_view(),
            profile_flags: self.profile_flags.deep_view(),
            defines: self.defines.deep_view(),
            libs: self.libs.deep_view(),
        }
    }
}

/// A table that sets nothing.
pub open spec fn empty_table() -> ConfigTableView {
    ConfigTableView {
        name: None,
        version: None,
        linker: None,
        std: None,
        format: None,
        include_dirs: None,
        flags: None,
        profile_flags: None,
        defines: None,
        libs: None,
    }
}

/// The new value where the table gives one, else the old one.
pub open spec fn or_keep<T>(new: Option<T>, old: T) -> T {
    match new {
        Some(v) => v,
        None => old,
    }
}

/// The configuration after one call of `cbit.config`: each field the table
/// gives replaces the old value, and the profile's flags follow the flags.
pub open spec fn apply_table(c: ProjectConfigView, t: ConfigTableView) -> ProjectConfigView {
    ProjectConfigView {
        name: or_keep(t.name, c.name),
        version: or_keep(t.version, c.version),
        linker: or_keep(t.linker, c.linker),
        std: or_keep(t.std, c.std),
        format: or_keep(t.format, c.format),
        include_dirs: or_keep(t.include_dirs, c.include_dirs),
        flags: or_keep(t.flags, c.flags) + or_keep(t.profile_flags, Seq::empty()),
        defines: or_keep(t.defines, c.defines),
        libs: or_keep(t.libs, c.libs),
    }
}

/// The configuration after the calls `ts`, in order.
pub open spec fn apply_tables(c: ProjectConfigView, ts: Seq<ConfigTableView>) -> ProjectConfigView
    decreases ts.len(),
{
    if ts.len() == 0 {
        c
    } else {
        apply_table(apply_tables(c, ts.drop_last()), ts.last())
    }
}

/// The views of a sequence of tables.
pub open spec fn tables_view(ts: Seq<ConfigTable>) -> Seq<ConfigTableView> {
    ts.map_values(|t: ConfigTable| t@)
}

fn take_string(new: Option<String>, old: String) -> (r: String)
    ensures
        r@ == or_keep(new.deep_view(), old@),
{
    match new {
        Some(v) => v,
        None => old,
    }
}

fn take_list(new: Option<Vec<String>>, old: Vec<String>) -> (r: Vec<String>)
    ensures
        r.deep_view() == or_keep(new.deep_view(), old.deep_view()),
{
    match new {
        Some(v) => v,
        None => old,
    }
}

/// The configuration after one `cbit.config` call with `table`.
pub fn apply_config_table(config: ProjectConfig, table: ConfigTable) -> (r: ProjectConfig)
    ensures
        r@ == apply_table(config@, table@),
{
    let ConfigTable {
        name,
        version,
        linker,
        std,
        format,
        include_dirs,
        flags,
        profile_flags,
        defines,
        libs,
    } = table;
    let mut new_flags = take_list(flags, config.flags);
    let ghost before = new_flags.deep_view();
    match profile_flags {
        Some(mut extra) => {
            let ghost e = extra.deep_view();
            new_flags.append(&mut extra);
            assert(new_flags.deep_view() =~= before + e);
        },
        None => {
            assert(before + Seq::<Seq<char>>::empty() =~= before);
        },
    }
    ProjectConfig {
        name: take_string(name, config.name),
        version: take_string(version, config.version),
        linker: take_string(linker, config.linker),
        std: take_string(std, config.std),
        format: take_string(format, config.format),
        include_dirs: take_list(include_dirs, config.include_dirs),
        flags: new_flags,
        defines: take_list(defines, config.defines),
        libs: take_list(libs, config.libs),
    }
}

/// The configuration that the `cbit.config` calls `tables` leave, in order,
/// starting from the defaults.
pub fn config_from_tables(tables: Vec<ConfigTable>) -> (c: ProjectConfig)
    ensures
        c@ == apply_tables(default_config(), tables_view(tables@)),
{
    let mut c = ProjectConfig::default();
    let ghost all = tables@;
    let mut rest = tables;
    let ghost mut done: Seq<ConfigTable> = Seq::empty();
    // `rest` is consumed from the front by moving it into reverse order.
    let mut rev: Vec<ConfigTable> = Vec::new();
    while rest.len() > 0
        invariant
            rev@ + rest@.reverse() == all.reverse(),
        decreases rest.len(),
    {
        let t = rest.pop().unwrap();
        proof {
            assert(rest@.push(t).reverse() =~= seq![t] + rest@.reverse());
        }
        rev.push(t);
        assert(rev@ + rest@.reverse() =~= all.reverse());
    }
    assert(rev@ =~= all.reverse());
    while rev.len() > 0
        invariant
            done + rev@.reverse() == all,
            c@ == apply_tables(default_config(), tables_view(done)),
        decreases rev.len(),
    {
        let t = rev.pop().unwrap();
        let ghost d = done;
        proof {
            assert(rev@.push(t).reverse() =~= seq![t] + rev@.reverse());
        }
        c = apply_config_table(c, t);
        proof {
            done = done.push(t);
            assert(tables_view(done).drop_last() =~= tables_view(d));
            assert(done + rev@.reverse() =~= all);
        }
    }
    assert(done =~= all);
    c
}

/// Loading calls one after another is loading the first batch, then the
/// second on top of it.
pub proof fn law_tables_compose(c: ProjectConfigView, a: Seq<ConfigTableView>, b: Seq<ConfigTableView>)
    ensures
        apply_tables(c, a + b) == apply_tables(apply_tables(c, a), b),
    decreases b.len(),
{
    if b.len() == 0 {
        assert(a + b =~= a);
    } else {
        law_tables_compose(c, a, b.drop_last());
        assert((a + b).drop_last() =~= a + b.drop_last());
        assert((a + b).last() == b.last());
    }
}

/// A call with a table that sets nothing changes nothing.
pub proof fn law_empty_table_changes_nothing(c: ProjectConfigView)
    ensures
        apply_table(c, empty_table()) == c,
{
    assert(c.flags + Seq::<Seq<char>>::empty() =~= c.flags);
}

/// Repeating a call whose table has no profile changes nothing more.
pub proof fn law_repeat_without_profile(c: ProjectConfigView, t: ConfigTableView)
    requires
        t.profile_flags is None,
    ensures
        apply_table(apply_table(c, t), t) == apply_table(c, t),
{
    let once = apply_table(c, t);
    assert(once.flags + Seq::<Seq<char>>::empty() =~= once.flags);
    assert(or_keep(t.flags, c.flags) + Seq::<Seq<char>>::empty() =~= or_keep(t.flags, c.flags));
}

/// Each field a `cbit.config` table gives becomes the configuration's value,
/// each field it leaves out keeps its value, and the flags are the table's
/// flags (or the old ones) followed by the profile's flags.
pub proof fn law_table_fields_are_taken(c: ProjectConfigView, t: ConfigTableView)
    ensures
        t.name matches Some(v) ==> apply_table(c, t).name == v,
        t.name is None ==> apply_table(c, t).name == c.name,
        t.version matches Some(v) ==> apply_table(c, t).version == v,
        t.version is None ==> apply_table(c, t).version == c.version,
        t.linker matches Some(v) ==> apply_table(c, t).linker == v,
        t.linker is None ==> apply_table(c, t).linker == c.linker,
        t.std matches Some(v) ==> apply_table(c, t).std == v,
        t.std is None ==> apply_table(c, t).std == c.std,
        t.format matches Some(v) ==> apply_table(c, t).format == v,
        t.format is None ==> apply_table(c, t).format == c.format,
        t.include_dirs matches Some(v) ==> apply_table(c, t).include_dirs == v,
        t.include_dirs is None ==> apply_table(c, t).include_dirs == c.include_dirs,
        t.defines matches Some(v) ==> apply_table(c, t).defines == v,
        t.defines is None ==> apply_table(c, t).defines == c.defines,
        t.libs matches Some(v) ==> apply_table(c, t).libs == v,
        t.libs is None ==> apply_table(c, t).libs == c.libs,
        ({
            let base = match t.flags {
                Some(f) => f,
                None => c.flags,
            };
            let extra = match t.profile_flags {
                Some(p) => p,
                None => Seq::<Seq<char>>::empty(),
            };
            &&& apply_table(c, t).flags.len() == base.len() + extra.len()
            &&& forall|i: int| 0 <= i < base.len() ==> apply_table(c, t).flags[i] == base[i]
            &&& forall|i: int|
                0 <= i < extra.len() ==> apply_table(c, t).flags[base.len() + i] == extra[i]
        }),
{
}

/// The last call that sets the format decides it: later calls that leave
/// the format out keep it.
pub proof fn law_last_format_wins(
    c: ProjectConfigView,
    ts: Seq<ConfigTableView>,
    k: int,
    f: Seq<char>,
)
    requires
        0 <= k < ts.len(),
        ts[k].format == Some(f),
        forall|j: int| k < j < ts.len() ==> (#[trigger] ts[j]).format is None,
    ensures
        apply_tables(c, ts).format == f,
    decreases ts.len(),
{
    if k < ts.len() - 1 {
        assert(ts.drop_last()[k] == ts[k]);
        assert forall|j: int| k < j < ts.drop_last().len() implies (#[trigger] ts.drop_last()[j]).format is None by {
            assert(ts.drop_last()[j] == ts[j]);
        }
        law_last_format_wins(c, ts.drop_last(), k, f);
        assert(ts.last() == ts[ts.len() - 1]);
    }
}

} // verus!
