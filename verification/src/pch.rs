//! The precompiled common header: its location, its text, and the includes
//! that it makes redundant in each source.
use vstd::prelude::*;
use crate::text;

verus! {

/// The directory of the precompiled header.
pub const PCH_DIR: &'static str = "./.build/pch";

/// The common header that is precompiled.
pub const PCH_HEADER: &'static str = "./.build/pch/common.h";

/// The precompiled form of the common header.
pub const PCH_OUTPUT: &'static str = "./.build/pch/common.h.gch";

/// The text written to the common header when it does not exist.
pub const PCH_HEADER_TEXT: &'static str = "\n            #ifndef COMMON_H\n            #define COMMON_H\n            #include <stdio.h>\n            #include <stdlib.h>\n            #include <string.h>\n            #include <stdbool.h>\n            #include <stdint.h>\n            #include <stddef.h>\n            #include <math.h>\n            #include <time.h>\n            #endif\n            ";

/// The standard includes that the common header already provides.
pub open spec fn redundant_includes_spec() -> Seq<Seq<char>> {
    seq![
        "#include <stdio.h>"@,
        "#include <stdlib.h>"@,
        "#include <string.h>"@,
        "#include <stdbool.h>"@,
        "#include <stdint.h>"@,
        "#include <stddef.h>"@,
        "#include <math.h>"@,
        "#include <time.h>"@
    ]
}

/// The standard includes that the common header already provides.
pub fn redundant_includes() -> (v: Vec<String>)
    ensures
        v.deep_view() == redundant_includes_spec(),
{
    let mut v: Vec<String> = Vec::new();
    v.push("#include <stdio.h>".to_owned());
    v.push("#include <stdlib.h>".to_owned());
    v.push("#include <string.h>".to_owned());
    v.push("#include <stdbool.h>".to_owned());
    v.push("#include <stdint.h>".to_owned());
    v.push("#include <stddef.h>".to_owned());
    v.push("#include <math.h>".to_owned());
    v.push("#include <time.h>".to_owned());
    assert(v.deep_view() =~= redundant_includes_spec());
    v
}

/// The arguments that precompile the common header.
pub open spec fn pch_args_spec() -> Seq<Seq<char>> {
    seq!["-x"@, "c-header"@, PCH_HEADER@, "-o"@, PCH_OUTPUT@]
}

/// The arguments that precompile the common header.
pub fn pch_args() -> (v: Vec<String>)
    ensures
        v.deep_view() == pch_args_spec(),
{
    let mut v: Vec<String> = Vec::new();
    v.push("-x".to_owned());
    v.push("c-header".to_owned());
    v.push(PCH_HEADER.to_owned());
    v.push("-o".to_owned());
    v.push(PCH_OUTPUT.to_owned());
    assert(v.deep_view() =~= pch_args_spec());
    v
}

/// `s` with every occurrence of `pat` removed, scanning from the left and
/// resuming after each removed occurrence, as `str::replace(pat, "")` gives
/// it (an empty `pat` removes nothing).
pub open spec fn remove_all(s: Seq<char>, pat: Seq<char>) -> Seq<char>
    decreases s.len(),
{
    if s.len() == 0 {
        s
    } else if 0 < pat.len() <= s.len() && s.take(pat.len() as int) == pat {
        remove_all(s.skip(pat.len() as int), pat)
    } else {
        seq![s[0]] + remove_all(s.drop_first(), pat)
    }
}

/// `s` with the patterns `pats` removed one after the other.
pub open spec fn remove_each(s: Seq<char>, pats: Seq<Seq<char>>) -> Seq<char>
    decreases pats.len(),
{
    if pats.len() == 0 {
        s
    } else {
        remove_all(remove_each(s, pats.drop_last()), pats.last())
    }
}

/// An empty pattern removes nothing.
proof fn lemma_remove_nothing(s: Seq<char>, pat: Seq<char>)
    requires
        pat.len() == 0,
    ensures
        remove_all(s, pat) == s,
    decreases s.len(),
{
    if s.len() > 0 {
        lemma_remove_nothing(s.drop_first(), pat);
        assert(seq![s[0]] + s.drop_first() =~= s);
    }
}

/// `s` with every occurrence of `pat` removed.
pub fn remove_all_chars(s: &Vec<char>, pat: &Vec<char>) -> (r: Vec<char>)
    ensures
        r@ == remove_all(s@, pat@),
{
    if pat.len() == 0 {
        proof {
            lemma_remove_nothing(s@, pat@);
        }
        return s.clone();
    }
    let mut out: Vec<char> = Vec::new();
    let mut i: usize = 0;
    assert(s@.skip(0) =~= s@);
    while i < s.len()
        invariant
            i <= s.len(),
            pat.len() > 0,
            out@ + remove_all(s@.skip(i as int), pat@) == remove_all(s@, pat@),
        decreases s.len() - i,
    {
        let ghost rest = s@.skip(i as int);
        if text::matches_at(s, i, pat) {
            assert(rest.skip(pat.len() as int) =~= s@.skip(i + pat.len()));
            i = i + pat.len();
        } else {
            let ghost before = out@;
            out.push(s[i]);
            assert(rest.drop_first() =~= s@.skip(i + 1));
            assert(rest[0] == s@[i as int]);
            assert(out@ + remove_all(s@.skip(i + 1), pat@) =~= before + (seq![s@[i as int]]
                + remove_all(rest.drop_first(), pat@)));
            i = i + 1;
        }
    }
    assert(remove_all(s@.skip(i as int), pat@) =~= s@.skip(i as int));
    assert(out@ + s@.skip(i as int) =~= out@);
    out
}

/// The source text with the includes that the common header provides
/// removed, each in turn.
pub fn strip_redundant_includes(code: &str) -> (r: String)
    ensures
        r@ == remove_each(code@, redundant_includes_spec()),
{
    let includes = redundant_includes();
    let mut cur = text::chars_of(code);
    let mut k: usize = 0;
    while k < includes.len()
        invariant
            k <= includes.len(),
            includes.deep_view() == redundant_includes_spec(),
            cur@ == remove_each(code@, redundant_includes_spec().take(k as int)),
        decreases includes.len() - k,
    {
        let pat = text::chars_of(includes[k].as_str());
        assert(pat@ == redundant_includes_spec()[k as int]);
        cur = remove_all_chars(&cur, &pat);
        assert(redundant_includes_spec().take(k + 1).drop_last() =~= redundant_includes_spec().take(
            k as int,
        ));
        k = k + 1;
    }
    assert(redundant_includes_spec().take(includes.len() as int) =~= redundant_includes_spec());
    text::string_of_chars(&cur)
}

} // verus!
