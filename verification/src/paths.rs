//! Where the build puts things: source and object paths, file extensions as
//! `std::path::Path` reads them from a file name, and which objects have lost
//! their source.
use vstd::prelude::*;
use crate::text;

verus! {

/// The position of the dot that starts the extension of a file name, or -1
/// where the name has none: the last dot, unless it is the first character
/// or the name is `..`.
pub open spec fn extension_dot(name: Seq<char>) -> int {
    let i = text::last_index_of(name, '.');
    if i >= 1 && name != seq!['.', '.'] {
        i
    } else {
        -1
    }
}

/// The extension of a file name, as `Path::extension` gives it.
pub open spec fn extension(name: Seq<char>) -> Option<Seq<char>> {
    let i = extension_dot(name);
    if i >= 1 {
        Some(name.skip(i + 1))
    } else {
        None
    }
}

/// The file name without its extension, as `Path::file_stem` gives it.
pub open spec fn file_stem(name: Seq<char>) -> Seq<char> {
    let i = extension_dot(name);
    if i >= 1 {
        name.take(i)
    } else {
        name
    }
}

/// The file name with its extension replaced by (or extended with) `ext`,
/// as `Path::with_extension` gives it for a file name (which is never `.`
/// or `..`); an empty `ext` removes the extension and its dot.
pub open spec fn with_extension(name: Seq<char>, ext: Seq<char>) -> Seq<char> {
    if ext.len() == 0 {
        file_stem(name)
    } else {
        file_stem(name) + seq!['.'] + ext
    }
}

/// The path of a C source, from its file name in the source directory.
pub open spec fn source_path_of(name: Seq<char>) -> Seq<char> {
    "./src/"@ + name
}

/// The path of the object compiled from the source with file name `name`.
pub open spec fn object_path_of(name: Seq<char>) -> Seq<char> {
    "./.build/out/"@ + with_extension(name, seq!['o'])
}

/// For a file name in the object directory: where its source would be, if
/// the file is an object (extension `o`).
pub open spec fn source_of_object(name: Seq<char>) -> Option<Seq<char>> {
    if extension(name) == Some(seq!['o']) {
        Some(source_path_of(with_extension(name, seq!['c'])))
    } else {
        None
    }
}

/// The position where the extension dot of `v` stands, or the length of `v`
/// where there is none.
fn stem_end(v: &Vec<char>) -> (r: usize)
    ensures
        r <= v@.len(),
        r < v@.len() <==> extension_dot(v@) >= 1,
        r == (if extension_dot(v@) >= 1 {
            extension_dot(v@)
        } else {
            v@.len() as int
        }),
{
    let len = v.len();
    let last = text::find_last(v, 0, len, '.');
    assert(v@.subrange(0, len as int) =~= v@);
    match last {
        None => len,
        Some(i) => {
            proof {
                text::lemma_last_index(v@, '.', i as int);
            }
            let dot_dot = len == 2 && v[0] == '.' && v[1] == '.';
            proof {
                if dot_dot {
                    assert(v@ =~= seq!['.', '.']);
                }
                if !dot_dot && v@ == seq!['.', '.'] {
                    assert(v@[0] == '.' && v@[1] == '.');
                }
            }
            if i >= 1 && !dot_dot {
                i
            } else {
                len
            }
        },
    }
}

/// `name` with its extension replaced by `ext`, as `Path::with_extension`
/// gives it.
pub fn replace_extension(name: &str, ext: &str) -> (r: String)
    ensures
        r@ == with_extension(name@, ext@),
{
    let v = text::chars_of(name);
    let e = stem_end(&v);
    let stem = text::string_of_range(&v, 0, e);
    assert(v@.subrange(0, e as int) =~= file_stem(name@));
    if ext.is_empty() {
        return stem;
    }
    let mut r = text::concat(stem.as_str(), ".");
    proof {
        reveal_strlit(".");
    }
    r.append(ext);
    r
}

/// The path of a C source file with file name `name`.
pub fn source_path(name: &str) -> (p: String)
    ensures
        p@ == source_path_of(name@),
{
    text::concat("./src/", name)
}

/// The path of the object that the build compiles from the source file
/// `name`.
pub fn object_path(name: &str) -> (p: String)
    ensures
        p@ == object_path_of(name@),
{
    proof {
        reveal_strlit("o");
    }
    let file = replace_extension(name, "o");
    text::concat("./.build/out/", file.as_str())
}

/// Whether a source path is compiled: it ends in `.c`.
pub fn is_c_path(path: &str) -> (r: bool)
    ensures
        r == text::ends_with(path@, seq!['.', 'c']),
{
    let v = text::chars_of(path);
    let suffix = vec!['.', 'c'];
    assert(v@.subrange(0, v@.len() as int) =~= v@);
    text::ends_with_at(&v, 0, v.len(), &suffix)
}

/// Whether a file name has the extension `c`, as the formatter selects files.
pub fn has_c_extension(name: &str) -> (r: bool)
    ensures
        r == (extension(name@) == Some(seq!['c'])),
{
    let v = text::chars_of(name);
    let e = stem_end(&v);
    if e == v.len() {
        return false;
    }
    let r = v.len() - e == 2 && v[e + 1] == 'c';
    proof {
        if r {
            assert(name@.skip(e + 1) =~= seq!['c']);
        }
        if !r && extension(name@) == Some(seq!['c']) {
            assert(name@.skip(e + 1)[0] == 'c');
        }
    }
    r
}

/// For a file name in the object directory: the path of its source, when the
/// file is an object; the build removes the object if that source is gone.
pub fn source_for_object(name: &str) -> (r: Option<String>)
    ensures
        r.deep_view() == source_of_object(name@),
{
    let v = text::chars_of(name);
    let e = stem_end(&v);
    if e == v.len() {
        return None;
    }
    if !(v.len() - e == 2 && v[e + 1] == 'o') {
        proof {
            if extension(name@) == Some(seq!['o']) {
                assert(name@.skip(e + 1)[0] == 'o');
            }
        }
        return None;
    }
    assert(name@.skip(e + 1) =~= seq!['o']);
    proof {
        reveal_strlit("c");
    }
    let file = replace_extension(name, "c");
    Some(source_path(file.as_str()))
}

/// A source with extension `c`, once compiled, is never taken for an orphan:
/// the object's name leads the cleanup back to that very source path.
pub proof fn law_object_leads_back_to_source(name: Seq<char>)
    requires
        extension(name) == Some(seq!['c']),
    ensures
        source_of_object(with_extension(name, seq!['o'])) == Some(source_path_of(name)),
{
    let i = extension_dot(name);
    assert(text::last_index_of(name, '.') == i);
    assert(name.contains('.'));
    text::lemma_last_index_exists(name, '.');
    assert(text::is_last_index(name, '.', i));
    assert(name.skip(i + 1) == seq!['c']);
    assert(name.skip(i + 1).len() == 1);
    assert(name.len() == i + 2);
    let m = with_extension(name, seq!['o']);
    assert(m =~= name.take(i) + seq!['.', 'o']);
    assert(text::is_last_index(m, '.', i));
    text::lemma_last_index(m, '.', i);
    assert(m != seq!['.', '.']) by {
        assert(m.len() == i + 2);
    }
    assert(extension_dot(m) == i);
    assert(m.skip(i + 1) =~= seq!['o']);
    assert(file_stem(m) =~= name.take(i));
    assert(with_extension(m, seq!['c']) =~= name) by {
        assert(name[i] == '.');
        assert(name[i + 1] == name.skip(i + 1)[0]);
    }
}

} // verus!
