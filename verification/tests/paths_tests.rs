use cbit::paths::{
    has_c_extension, is_c_path, object_path, replace_extension, source_for_object, source_path,
};

#[test]
fn object_of_source() {
    assert_eq!(object_path("main.c"), "./.build/out/main.o");
    assert_eq!(object_path("a.b.c"), "./.build/out/a.b.o");
    assert_eq!(object_path(".c"), "./.build/out/.c.o");
}

#[test]
fn source_paths() {
    assert_eq!(source_path("main.c"), "./src/main.c");
}

#[test]
fn extension_replacement_follows_path_rules() {
    assert_eq!(replace_extension("x", "o"), "x.o");
    assert_eq!(replace_extension("x.", "o"), "x.o");
    assert_eq!(replace_extension(".hidden", "o"), ".hidden.o");
    assert_eq!(replace_extension("..o", "c"), "..c");
    assert_eq!(replace_extension("a.txt", ""), "a");
    assert_eq!(replace_extension("a", ""), "a");
}

#[test]
fn compiled_sources_end_in_dot_c() {
    assert!(is_c_path("./src/main.c"));
    assert!(!is_c_path("./src/main.h"));
    assert!(!is_c_path("./src/c"));
}

#[test]
fn formatter_selects_c_extension() {
    assert!(has_c_extension("main.c"));
    assert!(!has_c_extension(".c"));
    assert!(!has_c_extension("main.cc"));
    assert!(!has_c_extension("c"));
}

#[test]
fn object_sources() {
    assert_eq!(source_for_object("main.o"), Some("./src/main.c".to_string()));
    assert_eq!(source_for_object("notes.txt"), None);
    assert_eq!(source_for_object(".o"), None);
}

#[test]
fn compiled_object_leads_back_to_its_source() {
    for name in ["main.c", "a.b.c", "x..c"] {
        let obj = object_path(name);
        let file = obj.strip_prefix("./.build/out/").unwrap();
        assert_eq!(source_for_object(file), Some(source_path(name)));
    }
}

#[test]
fn source_named_dot_c_is_lost() {
    let obj = object_path(".c");
    let file = obj.strip_prefix("./.build/out/").unwrap();
    assert_eq!(source_for_object(file), Some("./src/.c.c".to_string()));
}
