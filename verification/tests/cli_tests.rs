use cbit::cli::{fails, parse_command, Command};

fn args(xs: &[&str]) -> Vec<String> {
    xs.iter().map(|s| s.to_string()).collect()
}

#[test]
fn no_arguments_gives_hint() {
    assert!(matches!(parse_command(&args(&[])), Command::Hint));
}

#[test]
fn new_with_name() {
    match parse_command(&args(&["new", "demo"])) {
        Command::New(n) => assert_eq!(n, "demo"),
        other => panic!("unexpected {:?}", other),
    }
}

#[test]
fn new_without_name_fails() {
    let c = parse_command(&args(&["new"]));
    assert!(matches!(c, Command::NewUsage));
    assert!(fails(&c));
}

#[test]
fn build_plain() {
    assert!(matches!(parse_command(&args(&["build"])), Command::Build));
    assert!(matches!(parse_command(&args(&["build", "--release"])), Command::Build));
}

#[test]
fn build_for_target() {
    match parse_command(&args(&["build", "--target", "armv8-a"])) {
        Command::BuildTarget(t) => assert_eq!(t, "armv8-a"),
        other => panic!("unexpected {:?}", other),
    }
}

#[test]
fn build_target_without_arch_fails() {
    let c = parse_command(&args(&["build", "--target"]));
    assert!(matches!(c, Command::BuildTargetUsage));
    assert!(fails(&c));
}

#[test]
fn other_commands() {
    assert!(matches!(parse_command(&args(&["clean"])), Command::Clean));
    assert!(matches!(parse_command(&args(&["run"])), Command::Run));
    assert!(matches!(parse_command(&args(&["fmt"])), Command::Fmt));
    assert!(matches!(parse_command(&args(&["-h"])), Command::Help));
    assert!(matches!(parse_command(&args(&["--help"])), Command::Help));
    assert!(!fails(&Command::Run));
}

#[test]
fn unknown_command_fails() {
    let c = parse_command(&args(&["deploy"]));
    match &c {
        Command::Unknown(a) => assert_eq!(a, "deploy"),
        other => panic!("unexpected {:?}", other),
    }
    assert!(fails(&c));
}

#[test]
fn extra_arguments_are_ignored() {
    match parse_command(&args(&["new", "demo", "extra"])) {
        Command::New(n) => assert_eq!(n, "demo"),
        other => panic!("unexpected {:?}", other),
    }
}
