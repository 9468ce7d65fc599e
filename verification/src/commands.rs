//! The argument lists of the programs the build runs: the compiler for each
//! source, the linker, the formatter; and the choice of formatter.
use vstd::prelude::*;
use crate::config::{ProjectConfig, ProjectConfigView};
use crate::text;

verus! {

/// The directory where objects are written.
pub const OBJECT_DIR: &'static str = "./.build/out";

/// The build directory.
pub const BUILD_DIR: &'static str = "./.build";

/// The directory that holds the project's C sources.
pub const SOURCE_DIR: &'static str = "./src";

/// Each of `xs` with `p` in front.
pub open spec fn prefix_each(p: Seq<char>, xs: Seq<Seq<char>>) -> Seq<Seq<char>> {
    xs.map_values(|x: Seq<char>| p + x)
}

/// `tag` before each of `xs`: `tag, xs[0], tag, xs[1], ...`.
pub open spec fn tagged(tag: Seq<char>, xs: Seq<Seq<char>>) -> Seq<Seq<char>>
    decreases xs.len(),
{
    if xs.len() == 0 {
        Seq::empty()
    } else {
        tagged(tag, xs.drop_last()) + seq![tag, xs.last()]
    }
}

/// The arguments that compile `source` into `object`: the language standard,
/// the precompiled header directory, the include directories, the defines,
/// the flags, then the source and the object.
pub open spec fn compile_args_spec(
    c: ProjectConfigView,
    source: Seq<char>,
    object: Seq<char>,
) -> Seq<Seq<char>> {
    seq!["-c"@, "-std="@ + c.std, "-I./.build/pch/"@] + prefix_each("-I"@, c.include_dirs)
        + prefix_each("-D"@, c.defines) + c.flags + seq![source, "-o"@, object]
}

/// The path of the linked program.
pub open spec fn binary_path_of(name: Seq<char>) -> Seq<char> {
    ".build/"@ + name
}

/// The arguments that link `objects` into the program: the objects, the
/// output, a `-L` for each library directory, then the flags.
pub open spec fn link_args_spec(c: ProjectConfigView, objects: Seq<Seq<char>>) -> Seq<Seq<char>> {
    objects + seq!["-o"@, binary_path_of(c.name)] + tagged("-L"@, c.libs) + c.flags
}

/// The arguments that link `objects` for the architecture `target`.
pub open spec fn target_link_args_spec(
    c: ProjectConfigView,
    objects: Seq<Seq<char>>,
    target: Seq<char>,
) -> Seq<Seq<char>> {
    objects + seq!["-o"@, binary_path_of(c.name), "-L./lib"@, "-march="@ + target] + c.flags
}

/// The clang-format style for a configured format: `LLVM` for `LLVM` and
/// `opcode`, else the format itself.
pub open spec fn style_of(format: Seq<char>) -> Seq<char> {
    if format == "LLVM"@ || format == "opcode"@ {
        "LLVM"@
    } else {
        format
    }
}

/// The arguments that format `file` in place in `style`.
pub open spec fn formatter_args_spec(style: Seq<char>, file: Seq<char>) -> Seq<Seq<char>> {
    seq!["-i"@, "--style="@ + style, file]
}

/// The formatter programs tried, newest first.
pub open spec fn formatter_candidates_spec() -> Seq<Seq<char>> {
    seq![
        "clang-format-19"@,
        "clang-format-18"@,
        "clang-format-17"@,
        "clang-format-16"@,
        "clang-format-15"@,
        "clang-format-14"@,
        "clang-format"@,
    ]
}

/// The first of `names` whose entry in `found` is true.
pub open spec fn first_found(names: Seq<Seq<char>>, found: Seq<bool>) -> Option<Seq<char>>
    decreases names.len(),
{
    if names.len() == 0 || found.len() == 0 {
        None
    } else if found[0] {
        Some(names[0])
    } else {
        first_found(names.drop_first(), found.drop_first())
    }
}

/// Appends one argument.
fn push_arg(args: &mut Vec<String>, a: String)
    ensures
        final(args).deep_view() == old(args).deep_view().push(a@),
{
    let ghost before = args.deep_view();
    args.push(a);
    assert(args.deep_view() =~= before.push(a@));
}

/// Appends a copy of each of `xs`.
fn push_all(args: &mut Vec<String>, xs: &Vec<String>)
    ensures
        final(args).deep_view() == old(args).deep_view() + xs.deep_view(),
{
    let ghost start = args.deep_view();
    let mut i: usize = 0;
    while i < xs.len()
        invariant
            i <= xs.len(),
            args.deep_view() == start + xs.deep_view().take(i as int),
        decreases xs.len() - i,
    {
        push_arg(args, xs[i].clone());
        assert(xs.deep_view().take(i + 1) =~= xs.deep_view().take(i as int).push(xs[i as int]@));
        i = i + 1;
    }
    assert(xs.deep_view().take(xs.len() as int) =~= xs.deep_view());
}

/// Appends each of `xs` with `p` in front.
fn push_prefixed(args: &mut Vec<String>, p: &str, xs: &Vec<String>)
    ensures
        final(args).deep_view() == old(args).deep_view() + prefix_each(p@, xs.deep_view()),
{
    let ghost start = args.deep_view();
    let mut i: usize = 0;
    while i < xs.len()
        invariant
            i <= xs.len(),
            args.deep_view() == start + prefix_each(p@, xs.deep_view().take(i as int)),
        decreases xs.len() - i,
    {
        push_arg(args, text::concat(p, xs[i].as_str()));
        assert(prefix_each(p@, xs.deep_view().take(i + 1)) =~= prefix_each(
            p@,
            xs.deep_view().take(i as int),
        ).push(p@ + xs[i as int]@));
        i = i + 1;
    }
    assert(xs.deep_view().take(xs.len() as int) =~= xs.deep_view());
}

/// Appends `tag` before each of `xs`.
fn push_tagged(args: &mut Vec<String>, tag: &str, xs: &Vec<String>)
    ensures
        final(args).deep_view() == old(args).deep_view() + tagged(tag@, xs.deep_view()),
{
    let ghost start = args.deep_view();
    let mut i: usize = 0;
    while i < xs.len()
        invariant
            i <= xs.len(),
            args.deep_view() == start + tagged(tag@, xs.deep_view().take(i as int)),
        decreases xs.len() - i,
    {
        push_arg(args, tag.to_owned());
        push_arg(args, xs[i].clone());
        let ghost prev = xs.deep_view().take(i as int);
        assert(xs.deep_view().take(i + 1).drop_last() =~= prev);
        assert(start + tagged(tag@, xs.deep_view().take(i + 1)) =~= start + tagged(tag@, prev)
            + seq![tag@, xs[i as int]@]);
        i = i + 1;
    }
    assert(xs.deep_view().take(xs.len() as int) =~= xs.deep_view());
}

/// The arguments that compile the source at `source` into the object at
/// `object` with the configuration `config`.
pub fn compile_args(config: &ProjectConfig, source: &str, object: &str) -> (args: Vec<String>)
    ensures
        args.deep_view() == compile_args_spec(config@, source@, object@),
{
    let mut args: Vec<String> = Vec::new();
    push_arg(&mut args, "-c".to_owned());
    push_arg(&mut args, text::concat("-std=", config.std.as_str()));
    push_arg(&mut args, "-I./.build/pch/".to_owned());
    push_prefixed(&mut args, "-I", &config.include_dirs);
    push_prefixed(&mut args, "-D", &config.defines);
    push_all(&mut args, &config.flags);
    push_arg(&mut args, source.to_owned());
    push_arg(&mut args, "-o".to_owned());
    push_arg(&mut args, object.to_owned());
    assert(args.deep_view() =~= compile_args_spec(config@, source@, object@));
    args
}

/// The path of the program linked for the project `name`.
pub fn binary_path(name: &str) -> (p: String)
    ensures
        p@ == binary_path_of(name@),
{
    text::concat(".build/", name)
}

/// The arguments that link `objects` into the project's program.
pub fn link_args(config: &ProjectConfig, objects: &Vec<String>) -> (args: Vec<String>)
    ensures
        args.deep_view() == link_args_spec(config@, objects.deep_view()),
{
    let mut args: Vec<String> = Vec::new();
    assert(args.deep_view() =~= Seq::<Seq<char>>::empty());
    push_all(&mut args, objects);
    push_arg(&mut args, "-o".to_owned());
    push_arg(&mut args, binary_path(config.name.as_str()));
    push_tagged(&mut args, "-L", &config.libs);
    push_all(&mut args, &config.flags);
    assert(args.deep_view() =~= link_args_spec(config@, objects.deep_view()));
    args
}

/// The arguments that link `objects` into the project's program for the
/// architecture `target`.
pub fn target_link_args(config: &ProjectConfig, objects: &Vec<String>, target: &str) -> (args: Vec<
    String,
>)
    ensures
        args.deep_view() == target_link_args_spec(config@, objects.deep_view(), target@),
{
    let mut args: Vec<String> = Vec::new();
    assert(args.deep_view() =~= Seq::<Seq<char>>::empty());
    push_all(&mut args, objects);
    push_arg(&mut args, "-o".to_owned());
    push_arg(&mut args, binary_path(config.name.as_str()));
    push_arg(&mut args, "-L./lib".to_owned());
    push_arg(&mut args, text::concat("-march=", target));
    push_all(&mut args, &config.flags);
    assert(args.deep_view() =~= target_link_args_spec(config@, objects.deep_view(), target@));
    args
}

/// The clang-format style for the configured `format`.
pub fn format_style(format: &str) -> (style: String)
    ensures
        style@ == style_of(format@),
{
    if text::text_equals(format, "LLVM") || text::text_equals(format, "opcode") {
        "LLVM".to_owned()
    } else {
        format.to_owned()
    }
}

/// The arguments that format `file` in place in `style`.
pub fn formatter_args(style: &str, file: &str) -> (args: Vec<String>)
    ensures
        args.deep_view() == formatter_args_spec(style@, file@),
{
    let mut args: Vec<String> = Vec::new();
    push_arg(&mut args, "-i".to_owned());
    push_arg(&mut args, text::concat("--style=", style));
    push_arg(&mut args, file.to_owned());
    assert(args.deep_view() =~= formatter_args_spec(style@, file@));
    args
}

/// The formatter programs tried, newest first.
pub fn formatter_candidates() -> (names: Vec<String>)
    ensures
        names.deep_view() == formatter_candidates_spec(),
{
    let mut names: Vec<String> = Vec::new();
    push_arg(&mut names, "clang-format-19".to_owned());
    push_arg(&mut names, "clang-format-18".to_owned());
    push_arg(&mut names, "clang-format-17".to_owned());
    push_arg(&mut names, "clang-format-16".to_owned());
    push_arg(&mut names, "clang-format-15".to_owned());
    push_arg(&mut names, "clang-format-14".to_owned());
    push_arg(&mut names, "clang-format".to_owned());
    assert(names.deep_view() =~= formatter_candidates_spec());
    names
}

/// What to do next while looking for a formatter.
#[derive(Debug)]
pub enum ProbeStep {
    /// Use this formatter: it is the first that answered.
    Chosen(String),
    /// Ask this formatter next.
    Probe(String),
    /// Every formatter was asked and none answered.
    NoneFound,
}

/// A `ProbeStep` as plain character sequences.
pub enum ProbeStepView {
    Chosen(Seq<char>),
    Probe(Seq<char>),
    NoneFound,
}

impl View for ProbeStep {
    type V = ProbeStepView;

    open spec fn view(&self) -> ProbeStepView {
        match self {
            ProbeStep::Chosen(n) => ProbeStepView::Chosen(n@),
            ProbeStep::Probe(n) => ProbeStepView::Probe(n@),
            ProbeStep::NoneFound => ProbeStepView::NoneFound,
        }
    }
}

/// The next step once the first `answered.len()` of `names` have been asked,
/// `answered[i]` telling whether `names[i]` answered: the first that
/// answered is chosen; otherwise the next name is asked, until none is left.
pub open spec fn probe_step_of(names: Seq<Seq<char>>, answered: Seq<bool>) -> ProbeStepView {
    match first_found(names, answered) {
        Some(n) => ProbeStepView::Chosen(n),
        None => if answered.len() < names.len() {
            ProbeStepView::Probe(names[answered.len() as int])
        } else {
            ProbeStepView::NoneFound
        },
    }
}

/// The first of `names` whose entry in `found` is true.
fn first_available(names: &Vec<String>, found: &Vec<bool>) -> (r: Option<String>)
    requires
        found.len() <= names.len(),
    ensures
        r.deep_view() == first_found(names.deep_view(), found@),
{
    let mut i: usize = 0;
    assert(names.deep_view().skip(0) =~= names.deep_view());
    assert(found@.skip(0) =~= found@);
    while i < found.len()
        invariant
            i <= found.len() <= names.len(),
            first_found(names.deep_view(), found@) == first_found(
                names.deep_view().skip(i as int),
                found@.skip(i as int),
            ),
        decreases found.len() - i,
    {
        let ghost ns = names.deep_view().skip(i as int);
        let ghost fs = found@.skip(i as int);
        assert(ns.drop_first() =~= names.deep_view().skip(i + 1));
        assert(fs.drop_first() =~= found@.skip(i + 1));
        assert(fs[0] == found@[i as int]);
        assert(ns[0] == names[i as int]@);
        if found[i] {
            return Some(names[i].clone());
        }
        i = i + 1;
    }
    assert(found@.skip(i as int).len() == 0);
    None
}

/// What to do next while looking for a formatter among `names`, given which
/// of the names asked so far answered (`answered`, in order).
pub fn next_probe(names: &Vec<String>, answered: &Vec<bool>) -> (step: ProbeStep)
    requires
        answered.len() <= names.len(),
    ensures
        step@ == probe_step_of(names.deep_view(), answered@),
{
    match first_available(names, answered) {
        Some(n) => ProbeStep::Chosen(n),
        None => {
            if answered.len() < names.len() {
                assert(names.deep_view()[answered.len() as int] == names[answered.len() as int]@);
                ProbeStep::Probe(names[answered.len()].clone())
            } else {
                ProbeStep::NoneFound
            }
        },
    }
}

proof fn lemma_first_found_none(names: Seq<Seq<char>>, found: Seq<bool>)
    requires
        forall|i: int| 0 <= i < found.len() ==> !found[i],
    ensures
        first_found(names, found) is None,
    decreases names.len(),
{
    if names.len() > 0 && found.len() > 0 {
        lemma_first_found_none(names.drop_first(), found.drop_first());
    }
}

proof fn lemma_first_found_push_true(names: Seq<Seq<char>>, found: Seq<bool>)
    requires
        found.len() < names.len(),
        forall|i: int| 0 <= i < found.len() ==> !found[i],
    ensures
        first_found(names, found.push(true)) == Some(names[found.len() as int]),
    decreases found.len(),
{
    if found.len() > 0 {
        assert(found.push(true).drop_first() =~= found.drop_first().push(true));
        lemma_first_found_push_true(names.drop_first(), found.drop_first());
    }
}

/// Looking for a formatter asks the names in order and stops at the first
/// that answers: while none has answered, the next name is asked; once one
/// answers, it is chosen and nothing more is asked.
pub proof fn law_probing_stops_at_first_answer(names: Seq<Seq<char>>, answered: Seq<bool>)
    requires
        answered.len() < names.len(),
        forall|i: int| 0 <= i < answered.len() ==> !answered[i],
    ensures
        probe_step_of(names, answered) == ProbeStepView::Probe(names[answered.len() as int]),
        probe_step_of(names, answered.push(true)) == ProbeStepView::Chosen(
            names[answered.len() as int],
        ),
{
    lemma_first_found_none(names, answered);
    lemma_first_found_push_true(names, answered);
}

proof fn lemma_tagged_len(tag: Seq<char>, xs: Seq<Seq<char>>)
    ensures
        tagged(tag, xs).len() == 2 * xs.len(),
    decreases xs.len(),
{
    if xs.len() > 0 {
        lemma_tagged_len(tag, xs.drop_last());
    }
}

proof fn lemma_tagged_at(tag: Seq<char>, xs: Seq<Seq<char>>, i: int)
    requires
        0 <= i < xs.len(),
    ensures
        tagged(tag, xs)[2 * i] == tag,
        tagged(tag, xs)[2 * i + 1] == xs[i],
    decreases xs.len(),
{
    let prev = tagged(tag, xs.drop_last());
    lemma_tagged_len(tag, xs.drop_last());
    assert(tagged(tag, xs) == prev + seq![tag, xs.last()]);
    if i < xs.len() - 1 {
        lemma_tagged_at(tag, xs.drop_last(), i);
        assert(xs.drop_last()[i] == xs[i]);
    }
}

/// The compiler is given, in order: `-c`, the standard, the precompiled
/// header directory, `-I` with each include directory, `-D` with each
/// define, each flag, then the source, `-o` and the object; nothing else.
pub proof fn law_compile_args_layout(c: ProjectConfigView, source: Seq<char>, object: Seq<char>)
    ensures
        ({
            let a = compile_args_spec(c, source, object);
            let ni = c.include_dirs.len() as int;
            let nd = c.defines.len() as int;
            let nf = c.flags.len() as int;
            &&& a.len() == 6 + ni + nd + nf
            &&& a[0] == "-c"@
            &&& a[1] == "-std="@ + c.std
            &&& a[2] == "-I./.build/pch/"@
            &&& forall|i: int| 0 <= i < ni ==> a[3 + i] == "-I"@ + c.include_dirs[i]
            &&& forall|i: int| 0 <= i < nd ==> a[3 + ni + i] == "-D"@ + c.defines[i]
            &&& forall|i: int| 0 <= i < nf ==> a[3 + ni + nd + i] == c.flags[i]
            &&& a[3 + ni + nd + nf] == source
            &&& a[4 + ni + nd + nf] == "-o"@
            &&& a[5 + ni + nd + nf] == object
        }),
{
    let a = compile_args_spec(c, source, object);
    let ni = c.include_dirs.len() as int;
    let nd = c.defines.len() as int;
    let nf = c.flags.len() as int;
    let p0 = seq!["-c"@, "-std="@ + c.std, "-I./.build/pch/"@];
    let pi = prefix_each("-I"@, c.include_dirs);
    let pd = prefix_each("-D"@, c.defines);
    let tail = seq![source, "-o"@, object];
    assert(a == p0 + pi + pd + c.flags + tail);
    assert forall|i: int| 0 <= i < ni implies a[3 + i] == "-I"@ + c.include_dirs[i] by {
        assert((p0 + pi)[3 + i] == pi[i]);
    }
    assert forall|i: int| 0 <= i < nd implies a[3 + ni + i] == "-D"@ + c.defines[i] by {
        assert((p0 + pi + pd)[3 + ni + i] == pd[i]);
    }
    assert forall|i: int| 0 <= i < nf implies a[3 + ni + nd + i] == c.flags[i] by {
        assert((p0 + pi + pd + c.flags)[3 + ni + nd + i] == c.flags[i]);
    }
}

/// The linker is given, in order: every object, `-o` and the program path,
/// `-L` with each library directory, then each flag; nothing else.
pub proof fn law_link_args_layout(c: ProjectConfigView, objects: Seq<Seq<char>>)
    ensures
        link_args_spec(c, objects).len() == objects.len() + 2 + 2 * c.libs.len() + c.flags.len(),
        link_args_spec(c, objects).take(objects.len() as int) == objects,
        link_args_spec(c, objects)[objects.len() as int] == "-o"@,
        link_args_spec(c, objects)[objects.len() + 1int] == binary_path_of(c.name),
        forall|i: int|
            0 <= i < c.libs.len() ==> link_args_spec(c, objects)[objects.len() + 3 + 2 * i]
                == #[trigger] c.libs[i] && link_args_spec(c, objects)[objects.len() + 2 + 2 * i]
                == "-L"@,
        forall|i: int|
            0 <= i < c.flags.len() ==> link_args_spec(c, objects)[objects.len() + 2 + 2
                * c.libs.len() + i] == #[trigger] c.flags[i],
{
    let a = link_args_spec(c, objects);
    let n = objects.len() as int;
    let nl = c.libs.len() as int;
    let mid = seq!["-o"@, binary_path_of(c.name)];
    let tg = tagged("-L"@, c.libs);
    lemma_tagged_len("-L"@, c.libs);
    assert(a == objects + mid + tg + c.flags);
    assert(a.take(n) =~= objects);
    assert forall|i: int| 0 <= i < nl implies a[n + 3 + 2 * i] == #[trigger] c.libs[i] && a[n + 2
        + 2 * i] == "-L"@ by {
        lemma_tagged_at("-L"@, c.libs, i);
        assert((objects + mid + tg)[n + 2 + 2 * i] == tg[2 * i]);
        assert((objects + mid + tg)[n + 3 + 2 * i] == tg[2 * i + 1]);
    }
    let nf = c.flags.len() as int;
    assert forall|i: int| 0 <= i < nf implies a[n + 2 + 2 * nl + i] == #[trigger] c.flags[i] by {
        assert((objects + mid + tg + c.flags)[n + 2 + 2 * nl + i] == c.flags[i]);
    }
}

/// The linker for a target is given, in order: every object, `-o` and the
/// program path, `-L./lib`, `-march=` with the target, then each flag;
/// nothing else.
pub proof fn law_target_link_args_layout(
    c: ProjectConfigView,
    objects: Seq<Seq<char>>,
    target: Seq<char>,
)
    ensures
        ({
            let a = target_link_args_spec(c, objects, target);
            let n = objects.len() as int;
            let nf = c.flags.len() as int;
            &&& a.len() == n + 4 + nf
            &&& a.take(n) == objects
            &&& a[n] == "-o"@
            &&& a[n + 1] == binary_path_of(c.name)
            &&& a[n + 2] == "-L./lib"@
            &&& a[n + 3] == "-march="@ + target
            &&& forall|i: int| 0 <= i < nf ==> a[n + 4 + i] == c.flags[i]
        }),
{
    let a = target_link_args_spec(c, objects, target);
    let n = objects.len() as int;
    assert(a.take(n) =~= objects);
}

/// Choosing the style again from a chosen style changes nothing.
pub proof fn law_style_is_stable(format: Seq<char>)
    ensures
        style_of(style_of(format)) == style_of(format),
{
}

} // verus!
