//! Paths as texts whose components are separated by `/`.

use vstd::prelude::*;
use crate::text::{ends_with, push_chars, slice_chars, starts_with, starts_with_chars};

verus! {

/// One more than the last position below `hi` where `s` holds `c`, or zero
/// where there is none: the start of what follows the last `c`.
pub open spec fn after_last(s: Seq<char>, c: char, hi: int) -> int
    decreases hi,
{
    if 0 < hi <= s.len() && s[hi - 1] != c {
        after_last(s, c, hi - 1)
    } else if hi <= 0 {
        0
    } else {
        hi
    }
}

/// The last component of a path: what follows its last `/`.
pub open spec fn file_name(path: Seq<char>) -> Seq<char> {
    path.subrange(after_last(path, '/', path.len() as int), path.len() as int)
}

/// The position of the dot that sets the extension of a file name off, if
/// it has one: its last dot, unless that is its first character.
pub open spec fn extension_dot(name: Seq<char>) -> Option<int> {
    let start = after_last(name, '.', name.len() as int);
    if start >= 2 {
        Some(start - 1)
    } else {
        None
    }
}

/// The stem of the file that a path names: its last component without the
/// extension. A path that ends in `/` or in `..`, or is empty, names no file.
pub open spec fn file_stem(path: Seq<char>) -> Option<Seq<char>> {
    let name = file_name(path);
    if name.len() == 0 || name == ".."@ {
        None
    } else {
        match extension_dot(name) {
            Some(dot) => Some(name.subrange(0, dot)),
            None => Some(name),
        }
    }
}

/// The extension of the file that a path names: what follows the last dot of
/// its last component, unless that dot is its first character.
pub open spec fn extension(path: Seq<char>) -> Option<Seq<char>> {
    let name = file_name(path);
    if name.len() == 0 || name == ".."@ {
        None
    } else {
        match extension_dot(name) {
            Some(dot) => Some(name.subrange(dot + 1, name.len() as int)),
            None => None,
        }
    }
}

/// `base` extended by the component `name`.
pub open spec fn joined_path(base: Seq<char>, name: Seq<char>) -> Seq<char> {
    if base.len() == 0 || ends_with(base, "/"@) {
        base + name
    } else {
        base + "/"@ + name
    }
}

/// What is left of `path` below the directory `base`: `None` where `path`
/// does not lie in `base`.
pub open spec fn relative_to(path: Seq<char>, base: Seq<char>) -> Option<Seq<char>> {
    let rest = path.subrange(base.len() as int, path.len() as int);
    if !starts_with(path, base) {
        None
    } else if rest.len() == 0 || ends_with(base, "/"@) {
        Some(rest)
    } else if rest[0] == '/' {
        Some(rest.subrange(1, rest.len() as int))
    } else {
        None
    }
}

/// The first position at or after `i` where `s` holds `c`, or the length of
/// `s` where there is none.
pub open spec fn first_index_from(s: Seq<char>, c: char, i: int) -> int
    decreases s.len() - i,
{
    if 0 <= i < s.len() && s[i] != c {
        first_index_from(s, c, i + 1)
    } else {
        i
    }
}

/// The directory under `base` in which the file `path` lies: the first
/// component of the path below `base`. `None` where the file lies in `base`
/// itself or not in `base` at all.
pub open spec fn first_directory(path: Seq<char>, base: Seq<char>) -> Option<Seq<char>> {
    match relative_to(path, base) {
        Some(relative) => {
            let slash = first_index_from(relative, '/', 0);
            if 0 < slash < relative.len() {
                Some(relative.subrange(0, slash))
            } else {
                None
            }
        },
        None => None,
    }
}

/// The first position at or after `from` where `s` holds `c`, or the length
/// of `s`.
pub(crate) fn find_char(s: &Vec<char>, c: char, from: usize) -> (i: usize)
    requires
        from <= s.len(),
    ensures
        i == first_index_from(s@, c, from as int),
        from <= i <= s.len(),
{
    let mut i: usize = from;
    while i < s.len() && s[i] != c
        invariant
            from <= i <= s.len(),
            first_index_from(s@, c, i as int) == first_index_from(s@, c, from as int),
        decreases s.len() - i,
    {
        i += 1;
    }
    i
}

/// The start of what follows the last `c` in `s`.
pub fn find_after_last(s: &Vec<char>, c: char) -> (i: usize)
    ensures
        i == after_last(s@, c, s@.len() as int),
        i <= s.len(),
{
    let mut i: usize = s.len();
    while i > 0 && s[i - 1] != c
        invariant
            i <= s.len(),
            after_last(s@, c, i as int) == after_last(s@, c, s@.len() as int),
        decreases i,
    {
        i -= 1;
    }
    i
}

/// The last component of `path`.
pub fn file_name_chars(path: &Vec<char>) -> (name: Vec<char>)
    ensures
        name@ == file_name(path@),
{
    let start = find_after_last(path, '/');
    slice_chars(path, start, path.len())
}

/// Whether `name` names no file: it is empty or `..`.
fn names_no_file(name: &Vec<char>) -> (r: bool)
    ensures
        r == (name@.len() == 0 || name@ == ".."@),
{
    proof {
        reveal_strlit("..");
    }
    if name.len() == 0 {
        return true;
    }
    let r = name.len() == 2 && name[0] == '.' && name[1] == '.';
    proof {
        if r {
            assert(name@ =~= ".."@);
        }
    }
    r
}

/// The stem of the file that `path` names.
pub fn file_stem_chars(path: &Vec<char>) -> (stem: Option<Vec<char>>)
    ensures
        stem.deep_view() == file_stem(path@),
{
    let name = file_name_chars(path);
    if names_no_file(&name) {
        return None;
    }
    let start = find_after_last(&name, '.');
    if start >= 2 {
        Some(slice_chars(&name, 0, start - 1))
    } else {
        Some(name)
    }
}

/// The extension of the file that `path` names.
pub fn extension_chars(path: &Vec<char>) -> (ext: Option<Vec<char>>)
    ensures
        ext.deep_view() == extension(path@),
{
    let name = file_name_chars(path);
    if names_no_file(&name) {
        return None;
    }
    let start = find_after_last(&name, '.');
    if start >= 2 {
        Some(slice_chars(&name, start, name.len()))
    } else {
        None
    }
}

/// `base` extended by the component `name`.
pub fn join_path_chars(base: &Vec<char>, name: &Vec<char>) -> (out: Vec<char>)
    ensures
        out@ == joined_path(base@, name@),
{
    let mut out = slice_chars(base, 0, base.len());
    proof {
        assert(out@ =~= base@);
        reveal_strlit("/");
    }
    if !(base.len() == 0 || base[base.len() - 1] == '/') {
        out.push('/');
        proof {
            assert(out@ =~= base@ + "/"@);
            if ends_with(base@, "/"@) {
                assert(base@.subrange(base@.len() - 1, base@.len() as int)[0] == '/');
            }
        }
    } else if base.len() > 0 {
        proof {
            assert(base@.subrange(base@.len() - 1, base@.len() as int) =~= "/"@);
        }
    }
    push_chars(&mut out, name);
    out
}

/// The directory under `base` in which the file `path` lies.
pub fn first_directory_chars(path: &Vec<char>, base: &Vec<char>) -> (dir: Option<Vec<char>>)
    ensures
        dir.deep_view() == first_directory(path@, base@),
{
    if !starts_with_chars(path, base) {
        return None;
    }
    proof {
        reveal_strlit("/");
    }
    let rest = slice_chars(path, base.len(), path.len());
    let relative: Vec<char>;
    if rest.len() == 0 || (base.len() > 0 && base[base.len() - 1] == '/') {
        proof {
            if rest.len() != 0 {
                assert(base@.subrange(base@.len() - 1, base@.len() as int) =~= "/"@);
            }
        }
        relative = rest;
    } else if rest[0] == '/' {
        proof {
            if ends_with(base@, "/"@) {
                assert(base@.subrange(base@.len() - 1, base@.len() as int)[0] == '/');
            }
        }
        relative = slice_chars(&rest, 1, rest.len());
    } else {
        proof {
            if ends_with(base@, "/"@) {
                assert(base@.subrange(base@.len() - 1, base@.len() as int)[0] == '/');
            }
        }
        return None;
    }
    let slash = find_char(&relative, '/', 0);
    if 0 < slash && slash < relative.len() {
        Some(slice_chars(&relative, 0, slash))
    } else {
        None
    }
}

} // verus!
