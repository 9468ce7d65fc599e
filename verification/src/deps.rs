//! Which object files are out of date: the quoted `#include` directives of a
//! C source, and the comparison of modification times.
use vstd::prelude::*;
use crate::text;

verus! {

/// The directive word that opens an include line.
pub open spec fn include_word() -> Seq<char> {
    seq!['#', 'i', 'n', 'c', 'l', 'u', 'd', 'e']
}

/// The header that one line of C source names in quotes: the line, trimmed,
/// starts with `#include` and holds two distinct quote marks; the header is
/// the text between the first and the last of them.
pub open spec fn header_of_line(line: Seq<char>) -> Option<Seq<char>> {
    let t = text::trim(line);
    if text::starts_with(t, include_word()) && t.contains('"') {
        let a = text::first_index_of(t, '"');
        let b = text::last_index_of(t, '"');
        if a != b {
            Some(t.subrange(a + 1, b))
        } else {
            None
        }
    } else {
        None
    }
}

/// `s` cut at each line feed. A carriage return before a line feed stays at
/// the end of its line, where trimming removes it.
pub open spec fn split_lines(s: Seq<char>) -> Seq<Seq<char>>
    decreases s.len(),
{
    if s.len() == 0 {
        seq![Seq::<char>::empty()]
    } else {
        let rest = split_lines(s.drop_last());
        if s.last() == '\n' {
            rest.push(Seq::<char>::empty())
        } else {
            rest.update(rest.len() - 1, rest.last().push(s.last()))
        }
    }
}

/// The headers named by `lines`, in order.
pub open spec fn headers_of_lines(lines: Seq<Seq<char>>) -> Seq<Seq<char>>
    decreases lines.len(),
{
    if lines.len() == 0 {
        Seq::empty()
    } else {
        let r = headers_of_lines(lines.drop_last());
        match header_of_line(lines.last()) {
            Some(h) => r.push(h),
            None => r,
        }
    }
}

/// The headers that a C source names in quoted `#include` lines, in order.
pub open spec fn quoted_includes(content: Seq<char>) -> Seq<Seq<char>> {
    headers_of_lines(split_lines(content))
}

/// The path under which a quoted header is looked for.
pub open spec fn header_path_of(name: Seq<char>) -> Seq<char> {
    "./src/"@ + name
}

/// A modification time that is known and later than `o`.
pub open spec fn newer_than(t: Option<i128>, o: i128) -> bool {
    match t {
        Some(h) => h > o,
        None => false,
    }
}

/// An object is out of date when the source or the object cannot be
/// examined, when the source is newer, or when a header it includes is newer.
pub open spec fn out_of_date(
    src_mtime: Option<i128>,
    obj_mtime: Option<i128>,
    header_mtimes: Seq<Option<i128>>,
) -> bool {
    match (src_mtime, obj_mtime) {
        (Some(s), Some(o)) => s > o || exists|i: int|
            0 <= i < header_mtimes.len() && #[trigger] newer_than(header_mtimes[i], o),
        _ => true,
    }
}

proof fn lemma_split_lines_nonempty(s: Seq<char>)
    ensures
        split_lines(s).len() >= 1,
    decreases s.len(),
{
    if s.len() > 0 {
        lemma_split_lines_nonempty(s.drop_last());
    }
}

proof fn lemma_split_lines_concat(a: Seq<char>, b: Seq<char>)
    ensures
        split_lines(a + seq!['\n'] + b) == split_lines(a) + split_lines(b),
    decreases b.len(),
{
    let s = a + seq!['\n'] + b;
    if b.len() == 0 {
        assert(s.drop_last() =~= a);
        assert(split_lines(b) =~= seq![Seq::<char>::empty()]);
        assert(split_lines(a).push(Seq::<char>::empty()) =~= split_lines(a) + split_lines(b));
    } else {
        lemma_split_lines_concat(a, b.drop_last());
        lemma_split_lines_nonempty(b.drop_last());
        assert(s.drop_last() =~= a + seq!['\n'] + b.drop_last());
        assert(s.last() == b.last());
        let la = split_lines(a);
        let lb = split_lines(b.drop_last());
        if b.last() == '\n' {
            assert((la + lb).push(Seq::<char>::empty()) =~= la + lb.push(Seq::<char>::empty()));
        } else {
            let l = la + lb;
            assert(l.last() == lb.last());
            assert(l.update(l.len() - 1, l.last().push(b.last())) =~= la + lb.update(
                lb.len() - 1,
                lb.last().push(b.last()),
            ));
        }
    }
}

proof fn lemma_headers_concat(x: Seq<Seq<char>>, y: Seq<Seq<char>>)
    ensures
        headers_of_lines(x + y) == headers_of_lines(x) + headers_of_lines(y),
    decreases y.len(),
{
    if y.len() == 0 {
        assert(x + y =~= x);
        assert(headers_of_lines(x) + Seq::<Seq<char>>::empty() =~= headers_of_lines(x));
    } else {
        lemma_headers_concat(x, y.drop_last());
        assert((x + y).drop_last() =~= x + y.drop_last());
        assert((x + y).last() == y.last());
        let hx = headers_of_lines(x);
        let hy = headers_of_lines(y.drop_last());
        match header_of_line(y.last()) {
            Some(h) => {
                assert((hx + hy).push(h) =~= hx + hy.push(h));
            },
            None => {},
        }
    }
}

/// Scanning a source is scanning its lines: the includes of two texts joined
/// by a line feed are the includes of the first followed by those of the
/// second.
pub proof fn law_includes_of_joined_text(a: Seq<char>, b: Seq<char>)
    ensures
        quoted_includes(a + seq!['\n'] + b) == quoted_includes(a) + quoted_includes(b),
{
    lemma_split_lines_concat(a, b);
    lemma_headers_concat(split_lines(a), split_lines(b));
}

/// The header named by the line `v[lo..hi]`.
fn header_in_line(v: &Vec<char>, lo: usize, hi: usize) -> (r: Option<String>)
    requires
        lo <= hi <= v.len(),
    ensures
        r.deep_view() == header_of_line(v@.subrange(lo as int, hi as int)),
{
    let (a, b) = text::trim_bounds(v, lo, hi);
    let ghost t = v@.subrange(a as int, b as int);
    let word = vec!['#', 'i', 'n', 'c', 'l', 'u', 'd', 'e'];
    assert(word@ == include_word());
    if b - a < 8 || !text::matches_at(v, a, &word) {
        proof {
            if b - a >= 8 {
                assert(v@.skip(a as int).take(8) =~= t.take(8));
            }
        }
        return None;
    }
    assert(text::starts_with(t, include_word())) by {
        assert(v@.skip(a as int).take(8) =~= t.take(8));
    }
    let first = text::find_first(v, a, b, '"');
    match first {
        None => None,
        Some(i) => {
            let last = text::find_last(v, a, b, '"');
            match last {
                None => {
                    assert(t[i - a] == '"');
                    None
                },
                Some(j) => {
                    proof {
                        text::lemma_first_index(t, '"', i - a);
                        text::lemma_last_index(t, '"', j - a);
                    }
                    if i == j {
                        None
                    } else {
                        let s = text::string_of_range(v, i + 1, j);
                        assert(v@.subrange(i + 1, j as int) =~= t.subrange(i - a + 1, j - a));
                        Some(s)
                    }
                },
            }
        },
    }
}

/// The headers that `content` names in quoted `#include` lines, in order of
/// appearance, as the build scans a C source for its dependencies.
pub fn included_headers(content: &str) -> (hs: Vec<String>)
    ensures
        hs.deep_view() == quoted_includes(content@),
{
    let v = text::chars_of(content);
    let mut out: Vec<String> = Vec::new();
    let mut start: usize = 0;
    let mut i: usize = 0;
    proof {
        assert(v@.take(0) =~= Seq::<char>::empty());
        assert(v@.subrange(0, 0) =~= Seq::<char>::empty());
    }
    while i < v.len()
        invariant
            start <= i <= v.len(),
            split_lines(v@.take(i as int)).len() >= 1,
            split_lines(v@.take(i as int)).last() == v@.subrange(start as int, i as int),
            out.deep_view() == headers_of_lines(split_lines(v@.take(i as int)).drop_last()),
        decreases v.len() - i,
    {
        let ghost lines = split_lines(v@.take(i as int));
        assert(v@.take(i + 1).drop_last() =~= v@.take(i as int));
        assert(v@.take(i + 1).last() == v@[i as int]);
        if v[i] == '\n' {
            let h = header_in_line(&v, start, i);
            let ghost before = out.deep_view();
            match h {
                Some(s) => {
                    out.push(s);
                    assert(out.deep_view() =~= before.push(s@));
                },
                None => {},
            }
            proof {
                let lines2 = split_lines(v@.take(i + 1));
                assert(lines2 == lines.push(Seq::<char>::empty()));
                assert(lines2.drop_last() =~= lines);
                assert(lines.drop_last().push(lines.last()) =~= lines);
                assert(v@.subrange(i + 1, i + 1) =~= Seq::<char>::empty());
            }
            start = i + 1;
        } else {
            proof {
                let lines2 = split_lines(v@.take(i + 1));
                assert(lines2 == lines.update(lines.len() - 1, lines.last().push(v@[i as int])));
                assert(lines2.drop_last() =~= lines.drop_last());
                assert(v@.subrange(start as int, i + 1) =~= v@.subrange(start as int, i as int).push(
                    v@[i as int],
                ));
            }
        }
        i = i + 1;
    }
    assert(v@.take(v.len() as int) =~= v@);
    let h = header_in_line(&v, start, v.len());
    let ghost before = out.deep_view();
    match h {
        Some(s) => {
            out.push(s);
            assert(out.deep_view() =~= before.push(s@));
        },
        None => {},
    }
    proof {
        let lines = split_lines(v@);
        assert(lines.drop_last().push(lines.last()) =~= lines);
    }
    out
}

/// The path at which the build looks for a header named in quotes.
pub fn header_path(name: &str) -> (p: String)
    ensures
        p@ == header_path_of(name@),
{
    text::concat("./src/", name)
}

/// Whether an object must be rebuilt, from the modification times of its
/// source, of the object itself and of the headers the source includes
/// (`None` where a file cannot be examined).
pub fn needs_recompile(
    src_mtime: Option<i128>,
    obj_mtime: Option<i128>,
    header_mtimes: &Vec<Option<i128>>,
) -> (r: bool)
    ensures
        r == out_of_date(src_mtime, obj_mtime, header_mtimes@),
{
    let s = match src_mtime {
        Some(s) => s,
        None => return true,
    };
    let o = match obj_mtime {
        Some(o) => o,
        None => return true,
    };
    if s > o {
        return true;
    }
    let mut i: usize = 0;
    while i < header_mtimes.len()
        invariant
            i <= header_mtimes.len(),
            src_mtime == Some(s),
            obj_mtime == Some(o),
            forall|j: int| 0 <= j < i ==> !newer_than(#[trigger] header_mtimes@[j], o),
        decreases header_mtimes.len() - i,
    {
        match header_mtimes[i] {
            Some(h) => {
                if h > o {
                    assert(newer_than(header_mtimes@[i as int], o));
                    return true;
                }
            },
            None => {},
        }
        i = i + 1;
    }
    false
}

/// An object whose source or whose own file cannot be examined is rebuilt,
/// whatever the headers.
pub proof fn law_unknown_time_means_rebuild(
    src_mtime: Option<i128>,
    obj_mtime: Option<i128>,
    header_mtimes: Seq<Option<i128>>,
)
    requires
        src_mtime is None || obj_mtime is None,
    ensures
        out_of_date(src_mtime, obj_mtime, header_mtimes),
{
}

/// An object older than its source is rebuilt.
pub proof fn law_newer_source_means_rebuild(s: i128, o: i128, header_mtimes: Seq<Option<i128>>)
    requires
        s > o,
    ensures
        out_of_date(Some(s), Some(o), header_mtimes),
{
}

/// An object older than any one of the included headers, wherever that
/// header stands in the list, is rebuilt.
pub proof fn law_newer_header_means_rebuild(
    s: i128,
    o: i128,
    header_mtimes: Seq<Option<i128>>,
    i: int,
    h: i128,
)
    requires
        0 <= i < header_mtimes.len(),
        header_mtimes[i] == Some(h),
        h > o,
    ensures
        out_of_date(Some(s), Some(o), header_mtimes),
{
    assert(newer_than(header_mtimes[i], o));
}

/// An object at least as new as its source and as every header whose time
/// is known is kept.
pub proof fn law_fresh_object_is_kept(s: i128, o: i128, header_mtimes: Seq<Option<i128>>)
    requires
        s <= o,
        forall|i: int|
            0 <= i < header_mtimes.len() ==> match #[trigger] header_mtimes[i] {
                Some(h) => h <= o,
                None => true,
            },
    ensures
        !out_of_date(Some(s), Some(o), header_mtimes),
{
    assert forall|i: int| 0 <= i < header_mtimes.len() implies !#[trigger] newer_than(
        header_mtimes[i],
        o,
    ) by {
        match header_mtimes[i] {
            Some(h) => {},
            None => {},
        }
    }
}

} // verus!
