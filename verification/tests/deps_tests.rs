use cbit::deps::{header_path, included_headers, needs_recompile};
use cbit::pch::{pch_args, redundant_includes, remove_all_chars, strip_redundant_includes};

#[test]
fn quoted_includes_are_found() {
    let src = "#include <stdio.h>\n#include \"util.h\"\n  #include \"sub/b.h\"  \r\nint x;\n";
    assert_eq!(included_headers(src), vec!["util.h".to_string(), "sub/b.h".to_string()]);
}

#[test]
fn single_quote_mark_names_nothing() {
    assert!(included_headers("#include \"broken.h\n").is_empty());
}

#[test]
fn text_between_first_and_last_quote() {
    assert_eq!(included_headers("#include \"a\" // \"b\""), vec!["a\" // \"b".to_string()]);
}

#[test]
fn include_must_start_the_line() {
    assert!(included_headers("// #include \"a.h\"\nx = \"#include\";").is_empty());
}

#[test]
fn last_line_without_newline_counts() {
    assert_eq!(included_headers("int a;\n#include\"z.h\""), vec!["z.h".to_string()]);
}

#[test]
fn empty_source_has_no_includes() {
    assert!(included_headers("").is_empty());
}

#[test]
fn unicode_whitespace_is_trimmed() {
    assert_eq!(included_headers("\u{3000}#include \"w.h\"\u{a0}"), vec!["w.h".to_string()]);
}

#[test]
fn header_path_is_in_src() {
    assert_eq!(header_path("util.h"), "./src/util.h");
}

#[test]
fn missing_files_need_recompile() {
    assert!(needs_recompile(None, Some(5), &vec![]));
    assert!(needs_recompile(Some(5), None, &vec![]));
}

#[test]
fn newer_source_needs_recompile() {
    assert!(needs_recompile(Some(6), Some(5), &vec![]));
    assert!(!needs_recompile(Some(5), Some(5), &vec![]));
}

#[test]
fn newer_header_needs_recompile() {
    assert!(needs_recompile(Some(1), Some(5), &vec![None, Some(3), Some(9)]));
    assert!(!needs_recompile(Some(1), Some(5), &vec![None, Some(3), Some(5)]));
}

#[test]
fn redundant_includes_are_removed() {
    let code = "#include <stdio.h>\n#include <math.h>\n#include \"mine.h\"\nint main(){}\n";
    assert_eq!(strip_redundant_includes(code), "\n\n#include \"mine.h\"\nint main(){}\n");
}

#[test]
fn removal_scans_left_to_right() {
    let code = "#include <stdio.#include <stdio.h>h>";
    assert_eq!(strip_redundant_includes(code), "#include <stdio.h>");
}

#[test]
fn redundant_include_list() {
    assert_eq!(redundant_includes().len(), 8);
    assert_eq!(redundant_includes()[0], "#include <stdio.h>");
    assert_eq!(redundant_includes()[7], "#include <time.h>");
}

#[test]
fn precompile_arguments() {
    assert_eq!(
        pch_args(),
        vec!["-x", "c-header", "./.build/pch/common.h", "-o", "./.build/pch/common.h.gch"]
    );
}

#[test]
fn includes_of_joined_text() {
    let a = "#include \"a.h\"\nint x;";
    let b = "#include \"b.h\"";
    let joined = format!("{}\n{}", a, b);
    let mut expected = included_headers(a);
    expected.extend(included_headers(b));
    assert_eq!(included_headers(&joined), expected);
    assert_eq!(expected, vec!["a.h".to_string(), "b.h".to_string()]);
}

#[test]
fn empty_pattern_removes_nothing() {
    let s: Vec<char> = "abc".chars().collect();
    assert_eq!(remove_all_chars(&s, &vec![]), s);
    let p: Vec<char> = "b".chars().collect();
    assert_eq!(remove_all_chars(&s, &p), vec!['a', 'c']);
}
