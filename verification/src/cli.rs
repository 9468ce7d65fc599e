//! What the command line asks for.
use vstd::prelude::*;
use crate::text;

verus! {

/// A request read from the command line (the arguments after the program
/// name).
#[derive(Debug)]
pub enum Command {
    /// No argument: the user gets a hint.
    Hint,
    /// `new <name>`: create a project.
    New(String),
    /// `new` without a name: the usage of `new` is shown and the tool fails.
    NewUsage,
    /// `build`: build the project.
    Build,
    /// `build --target <arch>`: build, then link for `arch`.
    BuildTarget(String),
    /// `build --target` without an architecture: usage shown, the tool fails.
    BuildTargetUsage,
    /// `clean`: remove the build directory.
    Clean,
    /// `run`: build, then run the program.
    Run,
    /// `fmt`: format the sources.
    Fmt,
    /// `-h` or `--help`.
    Help,
    /// Any other first argument: reported, and the tool fails.
    Unknown(String),
}

/// A `Command` as plain character sequences.
pub enum CommandView {
    Hint,
    New(Seq<char>),
    NewUsage,
    Build,
    BuildTarget(Seq<char>),
    BuildTargetUsage,
    Clean,
    Run,
    Fmt,
    Help,
    Unknown(Seq<char>),
}

impl View for Command {
    type V = CommandView;

    open spec fn view(&self) -> CommandView {
        match self {
            Command::Hint => CommandView::Hint,
            Command::New(n) => CommandView::New(n@),
            Command::NewUsage => CommandView::NewUsage,
            Command::Build => CommandView::Build,
            Command::BuildTarget(t) => CommandView::BuildTarget(t@),
            Command::BuildTargetUsage => CommandView::BuildTargetUsage,
            Command::Clean => CommandView::Clean,
            Command::Run => CommandView::Run,
            Command::Fmt => CommandView::Fmt,
            Command::Help => CommandView::Help,
            Command::Unknown(a) => CommandView::Unknown(a@),
        }
    }
}

/// The command that `args` asks for. Only the first argument chooses; `new`
/// reads a name after it, `build` reads `--target <arch>` after it, and any
/// further arguments are ignored.
pub open spec fn command_of(args: Seq<Seq<char>>) -> CommandView {
    if args.len() == 0 {
        CommandView::Hint
    } else if args[0] == "new"@ {
        if args.len() < 2 {
            CommandView::NewUsage
        } else {
            CommandView::New(args[1])
        }
    } else if args[0] == "build"@ {
        if args.len() > 1 && args[1] == "--target"@ {
            if args.len() > 2 {
                CommandView::BuildTarget(args[2])
            } else {
                CommandView::BuildTargetUsage
            }
        } else {
            CommandView::Build
        }
    } else if args[0] == "clean"@ {
        CommandView::Clean
    } else if args[0] == "run"@ {
        CommandView::Run
    } else if args[0] == "fmt"@ {
        CommandView::Fmt
    } else if args[0] == "-h"@ || args[0] == "--help"@ {
        CommandView::Help
    } else {
        CommandView::Unknown(args[0])
    }
}

/// Whether a request makes the tool fail after reporting it.
pub open spec fn is_failure(c: CommandView) -> bool {
    c is NewUsage || c is BuildTargetUsage || c is Unknown
}

/// Reads the command that `args` (the arguments after the program name)
/// asks for.
pub fn parse_command(args: &Vec<String>) -> (c: Command)
    ensures
        c@ == command_of(args.deep_view()),
{
    if args.len() == 0 {
        return Command::Hint;
    }
    assert(args.deep_view()[0] == args[0]@);
    let first = args[0].as_str();
    if text::text_equals(first, "new") {
        if args.len() < 2 {
            Command::NewUsage
        } else {
            assert(args.deep_view()[1] == args[1]@);
            Command::New(args[1].clone())
        }
    } else if text::text_equals(first, "build") {
        if args.len() > 1 && text::text_equals(args[1].as_str(), "--target") {
            assert(args.deep_view()[1] == args[1]@);
            if args.len() > 2 {
                assert(args.deep_view()[2] == args[2]@);
                Command::BuildTarget(args[2].clone())
            } else {
                Command::BuildTargetUsage
            }
        } else {
            proof {
                if args.len() > 1 {
                    assert(args.deep_view()[1] == args[1]@);
                }
            }
            Command::Build
        }
    } else if text::text_equals(first, "clean") {
        Command::Clean
    } else if text::text_equals(first, "run") {
        Command::Run
    } else if text::text_equals(first, "fmt") {
        Command::Fmt
    } else if text::text_equals(first, "-h") || text::text_equals(first, "--help") {
        Command::Help
    } else {
        Command::Unknown(args[0].clone())
    }
}

/// Whether the tool fails after reporting the request `c`.
pub fn fails(c: &Command) -> (r: bool)
    ensures
        r == is_failure(c@),
        !r <==> (c@ is Hint || c@ is New || c@ is Build || c@ is BuildTarget || c@ is Clean
            || c@ is Run || c@ is Fmt || c@ is Help),
{
    match c {
        Command::NewUsage | Command::BuildTargetUsage | Command::Unknown(_) => true,
        _ => false,
    }
}

/// The request depends on the first argument alone, except for the name
/// after `new` and the target after `build --target`: appending arguments
/// never changes which command is chosen.
pub proof fn law_first_argument_chooses(args: Seq<Seq<char>>, more: Seq<Seq<char>>)
    requires
        args.len() >= 3,
    ensures
        command_of(args + more) == command_of(args),
{
    let all = args + more;
    assert(all[0] == args[0]);
    assert(all[1] == args[1]);
    assert(all[2] == args[2]);
}

/// The words that the tool knows as a first argument.
pub open spec fn is_known_word(w: Seq<char>) -> bool {
    w == "new"@ || w == "build"@ || w == "clean"@ || w == "run"@ || w == "fmt"@ || w == "-h"@
        || w == "--help"@
}

/// Only the usage errors and unknown words fail: the tool fails exactly when
/// `new` comes without a name, `build --target` comes without an architecture,
/// or the first argument is not a word the tool knows. No argument at all,
/// help, and every complete request succeed.
pub proof fn law_failure_is_usage_error_or_unknown_word(args: Seq<Seq<char>>)
    ensures
        is_failure(command_of(args)) <==> (args.len() > 0 && (
            (args[0] == "new"@ && args.len() < 2)
            || (args[0] == "build"@ && args.len() == 2 && args[1] == "--target"@)
            || !is_known_word(args[0]))),
{
    lemma_known_words_differ();
}

/// Asking for help (`-h` or `--help`) gives the help, whatever follows, and
/// the tool does not fail.
pub proof fn law_help_does_not_fail(args: Seq<Seq<char>>)
    requires
        args.len() > 0,
        args[0] == "-h"@ || args[0] == "--help"@,
    ensures
        command_of(args) is Help,
        !is_failure(command_of(args)),
{
    lemma_known_words_differ();
}

/// The known words are pairwise different.
proof fn lemma_known_words_differ()
    ensures
        "new"@ != "build"@, "new"@ != "clean"@, "new"@ != "run"@, "new"@ != "fmt"@,
        "new"@ != "-h"@, "new"@ != "--help"@,
        "build"@ != "clean"@, "build"@ != "run"@, "build"@ != "fmt"@, "build"@ != "-h"@,
        "build"@ != "--help"@,
        "clean"@ != "run"@, "clean"@ != "fmt"@, "clean"@ != "-h"@, "clean"@ != "--help"@,
        "run"@ != "fmt"@, "run"@ != "-h"@, "run"@ != "--help"@,
        "fmt"@ != "-h"@, "fmt"@ != "--help"@,
        "-h"@ != "--help"@,
{
    reveal_strlit("new");
    reveal_strlit("build");
    reveal_strlit("clean");
    reveal_strlit("run");
    reveal_strlit("fmt");
    reveal_strlit("-h");
    reveal_strlit("--help");
    assert("new"@[0] != "build"@[0]);
    assert("new"@[0] != "clean"@[0]);
    assert("new"@[0] != "run"@[0]);
    assert("new"@[0] != "fmt"@[0]);
    assert("new"@[0] != "-h"@[0]);
    assert("new"@[0] != "--help"@[0]);
    assert("build"@[0] != "clean"@[0]);
    assert("build"@[0] != "run"@[0]);
    assert("build"@[0] != "fmt"@[0]);
    assert("build"@[0] != "-h"@[0]);
    assert("build"@[0] != "--help"@[0]);
    assert("clean"@[0] != "run"@[0]);
    assert("clean"@[0] != "fmt"@[0]);
    assert("clean"@[0] != "-h"@[0]);
    assert("clean"@[0] != "--help"@[0]);
    assert("run"@[0] != "fmt"@[0]);
    assert("run"@[0] != "-h"@[0]);
    assert("run"@[0] != "--help"@[0]);
    assert("fmt"@[0] != "-h"@[0]);
    assert("fmt"@[0] != "--help"@[0]);
    assert("-h"@.len() != "--help"@.len());
}

} // verus!
