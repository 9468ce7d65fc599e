use cbit::commands::{
    binary_path, compile_args, format_style, formatter_args, next_probe, ProbeStep,
    formatter_candidates, link_args, target_link_args,
};
use cbit::config::ProjectConfig;

fn strings(xs: &[&str]) -> Vec<String> {
    xs.iter().map(|s| s.to_string()).collect()
}

fn sample() -> ProjectConfig {
    let mut c = ProjectConfig::default();
    c.name = "app".to_string();
    c.include_dirs = strings(&["lib", "inc"]);
    c.defines = strings(&["NDEBUG"]);
    c.libs = strings(&["./lib", "/opt/x"]);
    c
}

#[test]
fn compile_arguments() {
    let args = compile_args(&sample(), "./src/main.c", "./.build/out/main.o");
    assert_eq!(
        args,
        strings(&[
            "-c",
            "-std=c11",
            "-I./.build/pch/",
            "-Ilib",
            "-Iinc",
            "-DNDEBUG",
            "-Wall",
            "-Wextra",
            "./src/main.c",
            "-o",
            "./.build/out/main.o",
        ])
    );
}

#[test]
fn link_arguments() {
    let args = link_args(&sample(), &strings(&["a.o", "b.o"]));
    assert_eq!(
        args,
        strings(&["a.o", "b.o", "-o", ".build/app", "-L", "./lib", "-L", "/opt/x", "-Wall", "-Wextra"])
    );
}

#[test]
fn target_link_arguments() {
    let args = target_link_args(&sample(), &strings(&["a.o"]), "x86-64");
    assert_eq!(
        args,
        strings(&["a.o", "-o", ".build/app", "-L./lib", "-march=x86-64", "-Wall", "-Wextra"])
    );
}

#[test]
fn program_path() {
    assert_eq!(binary_path("app"), ".build/app");
}

#[test]
fn styles() {
    assert_eq!(format_style("opcode"), "LLVM");
    assert_eq!(format_style("LLVM"), "LLVM");
    assert_eq!(format_style("Google"), "Google");
    assert_eq!(format_style("bitcode"), "bitcode");
}

#[test]
fn style_is_stable() {
    for f in ["opcode", "LLVM", "Google", ""] {
        let once = format_style(f);
        assert_eq!(format_style(&once), once);
    }
}

#[test]
fn formatter_arguments() {
    assert_eq!(formatter_args("LLVM", "./src/a.c"), strings(&["-i", "--style=LLVM", "./src/a.c"]));
}

#[test]
fn formatter_choice() {
    let names = formatter_candidates();
    assert_eq!(names.len(), 7);
    assert_eq!(names[0], "clang-format-19");
    assert_eq!(names[6], "clang-format");
    match next_probe(&names, &vec![]) {
        ProbeStep::Probe(n) => assert_eq!(n, "clang-format-19"),
        other => panic!("unexpected {:?}", other),
    }
    match next_probe(&names, &vec![false, false]) {
        ProbeStep::Probe(n) => assert_eq!(n, "clang-format-17"),
        other => panic!("unexpected {:?}", other),
    }
    match next_probe(&names, &vec![false, false, true]) {
        ProbeStep::Chosen(n) => assert_eq!(n, "clang-format-17"),
        other => panic!("unexpected {:?}", other),
    }
    assert!(matches!(next_probe(&names, &vec![false; 7]), ProbeStep::NoneFound));
}

#[test]
fn probing_stops_at_first_answer() {
    let names = formatter_candidates();
    // Simulate a machine where only clang-format-16 and clang-format answer.
    let answers = |n: &str| n == "clang-format-16" || n == "clang-format";
    let mut answered: Vec<bool> = Vec::new();
    let mut asked: Vec<String> = Vec::new();
    let chosen = loop {
        match next_probe(&names, &answered) {
            ProbeStep::Chosen(n) => break Some(n),
            ProbeStep::NoneFound => break None,
            ProbeStep::Probe(n) => {
                answered.push(answers(&n));
                asked.push(n);
            }
        }
    };
    assert_eq!(chosen, Some("clang-format-16".to_string()));
    assert_eq!(asked.len(), 4);
}
