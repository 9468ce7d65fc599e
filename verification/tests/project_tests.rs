use cbit::project::{config_script_path, config_template, project_skeleton, MAIN_C_TEXT};

#[test]
fn skeleton_paths() {
    let s = project_skeleton("demo");
    assert_eq!(s.root, "demo");
    assert_eq!(s.src_dir, "demo/src");
    assert_eq!(s.main_source, "demo/src/main.c");
    assert_eq!(s.lib_dir, "demo/lib");
}

#[test]
fn script_path() {
    assert_eq!(config_script_path("/home/u/demo"), "/home/u/demo/cbit.lua");
}

#[test]
fn template_names_the_project() {
    let t = config_template("demo");
    assert!(t.starts_with("-- cbit.lua - Project configuration for demo\ncbit.config({\n    name = \"demo\",\n"));
    assert!(t.contains("    libs = { \"./lib\" },\n"));
    assert!(t.ends_with("    end,\n})\n"));
}

#[test]
fn main_source_text() {
    assert_eq!(
        MAIN_C_TEXT,
        "#include <stdio.h>\n\nint main() {\n    printf(\"hello world\");\n    return 0;\n}"
    );
}
