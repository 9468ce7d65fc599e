use cbit::config::{apply_config_table, config_from_tables, ConfigTable, ProjectConfig};
use cbit::lua::load_cbit_config;
use cbit::project::config_template;

fn strings(xs: &[&str]) -> Vec<String> {
    xs.iter().map(|s| s.to_string()).collect()
}

fn empty_table() -> ConfigTable {
    ConfigTable {
        name: None,
        version: None,
        linker: None,
        std: None,
        format: None,
        include_dirs: None,
        flags: None,
        profile_flags: None,
        defines: None,
        libs: None,
    }
}

#[test]
fn default_config_values() {
    let c = ProjectConfig::default();
    assert_eq!(c.name, "unnamed_project");
    assert_eq!(c.version, "0.1.0");
    assert_eq!(c.linker, "gcc");
    assert_eq!(c.std, "c11");
    assert_eq!(c.format, "opcode");
    assert!(c.include_dirs.is_empty());
    assert_eq!(c.flags, strings(&["-Wall", "-Wextra"]));
    assert!(c.defines.is_empty());
    assert!(c.libs.is_empty());
}

#[test]
fn table_fields_replace_defaults() {
    let mut t = empty_table();
    t.name = Some("demo".to_string());
    t.std = Some("c99".to_string());
    t.defines = Some(strings(&["NDEBUG"]));
    let c = apply_config_table(ProjectConfig::default(), t);
    assert_eq!(c.name, "demo");
    assert_eq!(c.std, "c99");
    assert_eq!(c.defines, strings(&["NDEBUG"]));
    assert_eq!(c.linker, "gcc");
    assert_eq!(c.flags, strings(&["-Wall", "-Wextra"]));
}

#[test]
fn profile_flags_follow_the_flags() {
    let mut t = empty_table();
    t.flags = Some(strings(&["-Wall"]));
    t.profile_flags = Some(strings(&["-O3", "-march=native"]));
    let c = apply_config_table(ProjectConfig::default(), t);
    assert_eq!(c.flags, strings(&["-Wall", "-O3", "-march=native"]));
}

#[test]
fn profile_flags_extend_default_flags() {
    let mut t = empty_table();
    t.profile_flags = Some(strings(&["-O2"]));
    let c = apply_config_table(ProjectConfig::default(), t);
    assert_eq!(c.flags, strings(&["-Wall", "-Wextra", "-O2"]));
}

#[test]
fn empty_table_changes_nothing() {
    let c = apply_config_table(ProjectConfig::default(), empty_table());
    let d = ProjectConfig::default();
    assert_eq!(c.name, d.name);
    assert_eq!(c.flags, d.flags);
    assert_eq!(c.libs, d.libs);
}

#[test]
fn repeating_a_table_without_profile_changes_nothing_more() {
    let mut t = empty_table();
    t.name = Some("x".to_string());
    t.flags = Some(strings(&["-g"]));
    let once = apply_config_table(ProjectConfig::default(), t.clone());
    let twice = apply_config_table(once.clone(), t);
    assert_eq!(once.name, twice.name);
    assert_eq!(once.flags, twice.flags);
}

#[test]
fn later_calls_win() {
    let mut a = empty_table();
    a.name = Some("first".to_string());
    a.linker = Some("clang".to_string());
    let mut b = empty_table();
    b.name = Some("second".to_string());
    let c = config_from_tables(vec![a, b]);
    assert_eq!(c.name, "second");
    assert_eq!(c.linker, "clang");
}

#[test]
fn no_tables_gives_defaults() {
    let c = config_from_tables(Vec::new());
    assert_eq!(c.name, "unnamed_project");
}

#[test]
fn empty_script_gives_defaults() {
    let c = load_cbit_config("").unwrap();
    assert_eq!(c.name, "unnamed_project");
    assert_eq!(c.flags, strings(&["-Wall", "-Wextra"]));
}

#[test]
fn script_sets_fields() {
    let script = r#"cbit.config({ name = "app", std = "c17", include_dirs = { "inc", "lib" }, libs = { "./lib" } })"#;
    let c = load_cbit_config(script).unwrap();
    assert_eq!(c.name, "app");
    assert_eq!(c.std, "c17");
    assert_eq!(c.version, "0.1.0");
    assert_eq!(c.include_dirs, strings(&["inc", "lib"]));
    assert_eq!(c.libs, strings(&["./lib"]));
}

#[test]
fn script_profile_is_called() {
    let script = r#"cbit.config({ flags = { "-Wall" }, profile = function() return { "-O1" } end })"#;
    let c = load_cbit_config(script).unwrap();
    assert_eq!(c.flags, strings(&["-Wall", "-O1"]));
}

#[test]
fn script_fields_of_wrong_type_are_ignored() {
    let script = r#"cbit.config({ name = { "a" }, flags = "oops" })"#;
    let c = load_cbit_config(script).unwrap();
    assert_eq!(c.name, "unnamed_project");
    assert_eq!(c.flags, strings(&["-Wall", "-Wextra"]));
}

#[test]
fn script_calls_apply_in_order() {
    let script = r#"cbit.config({ name = "a" }) cbit.config({ name = "b", linker = "clang" })"#;
    let c = load_cbit_config(script).unwrap();
    assert_eq!(c.name, "b");
    assert_eq!(c.linker, "clang");
}

#[test]
fn script_error_is_reported() {
    let r = load_cbit_config("this is not lua");
    assert!(r.is_err());
    assert!(!r.unwrap_err().message.is_empty());
}

#[test]
fn generated_config_loads() {
    let c = load_cbit_config(&config_template("demo")).unwrap();
    assert_eq!(c.name, "demo");
    assert_eq!(c.version, "0.1.0");
    assert_eq!(c.linker, "gcc");
    assert_eq!(c.std, "c11");
    assert_eq!(c.format, "opcode");
    assert_eq!(c.include_dirs, strings(&["lib"]));
    assert_eq!(c.defines, strings(&["NDEBUG"]));
    assert_eq!(c.libs, strings(&["./lib"]));
    // The profile adds one or two flags, depending on CBIT_PROFILE.
    assert_eq!(&c.flags[..2], &strings(&["-Wall", "-Wextra"])[..]);
    assert!(c.flags.len() == 3 || c.flags.len() == 4);
}

#[test]
fn calls_compose() {
    let mut a = empty_table();
    a.name = Some("a".to_string());
    a.profile_flags = Some(strings(&["-O1"]));
    let mut b = empty_table();
    b.flags = Some(strings(&["-g"]));
    b.profile_flags = Some(strings(&["-O2"]));
    let all = config_from_tables(vec![a.clone(), b.clone()]);
    let stepwise = apply_config_table(config_from_tables(vec![a]), b);
    assert_eq!(all.name, stepwise.name);
    assert_eq!(all.flags, stepwise.flags);
    assert_eq!(all.flags, strings(&["-g", "-O2"]));
}
