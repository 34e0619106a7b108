//! Unix path syntax, as `std::path::Path` reads it: the final component's
//! name (`file_name`), its stem (`file_stem`), and the path without its
//! final component (`parent`).  Only the text is examined; nothing here
//! looks at the file system.

use vstd::prelude::*;

use crate::text::{chars_of, concat, concat3, range_is, string_of_range};

verus! {

/// The path without trailing separators and trailing `.` components, which
/// do not count as components.  A leading `/` or `.` is kept.
pub open spec fn trim_tail(s: Seq<char>) -> Seq<char>
    decreases s.len(),
{
    if s.len() >= 2 && s.last() == '/' {
        trim_tail(s.drop_last())
    } else if s.len() >= 2 && s.last() == '.' && s[s.len() - 2] == '/' {
        trim_tail(s.drop_last())
    } else {
        s
    }
}

/// Index of the last `/` in `s`, or -1 when there is none.
pub open spec fn last_sep(s: Seq<char>) -> int
    decreases s.len(),
{
    if s.len() == 0 {
        -1
    } else if s.last() == '/' {
        s.len() - 1
    } else {
        last_sep(s.drop_last())
    }
}

/// The text after the last `/`.
pub open spec fn last_piece(s: Seq<char>) -> Seq<char> {
    s.skip(last_sep(s) + 1)
}

/// The final component's name, when the final component is a normal one
/// (not the root, `.` or `..`).
pub open spec fn file_name_spec(s: Seq<char>) -> Option<Seq<char>> {
    let p = last_piece(trim_tail(s));
    if p.len() == 0 || p == "."@ || p == ".."@ {
        None
    } else {
        Some(p)
    }
}

/// The path without its final component: none for the empty path and the
/// root, the empty path for a single relative component, otherwise the
/// text before the final component with trailing separators and `.`
/// components removed.
pub open spec fn parent_spec(s: Seq<char>) -> Option<Seq<char>> {
    let t = trim_tail(s);
    if t.len() == 0 || t == "/"@ {
        None
    } else if t == "."@ {
        Some(Seq::empty())
    } else {
        Some(trim_tail(t.take(t.len() - last_piece(t).len())))
    }
}

/// Index of the last `.` in `s`, or -1.
pub open spec fn last_dot(s: Seq<char>) -> int
    decreases s.len(),
{
    if s.len() == 0 {
        -1
    } else if s.last() == '.' {
        s.len() - 1
    } else {
        last_dot(s.drop_last())
    }
}

/// The stem of a file name: the whole name when it has no `.` or only a
/// leading one, otherwise the part before the last `.`.
pub open spec fn stem_of(name: Seq<char>) -> Seq<char> {
    if last_dot(name) <= 0 {
        name
    } else {
        name.take(last_dot(name))
    }
}

/// The stem of the path's file name (`Path::file_stem`).
pub open spec fn file_stem_spec(s: Seq<char>) -> Option<Seq<char>> {
    match file_name_spec(s) {
        Some(n) => Some(stem_of(n)),
        None => None,
    }
}

// ---------------------------------------------------------------------------

/// Length of `trim_tail(cs[..n])`.
fn trimmed_len(cs: &Vec<char>, n: usize) -> (k: usize)
    requires
        n <= cs.len(),
    ensures
        k <= n,
        trim_tail(cs@.take(n as int)) == cs@.take(k as int),
{
    let mut k = n;
    while k >= 2 && (cs[k - 1] == '/' || (cs[k - 1] == '.' && cs[k - 2] == '/'))
        invariant
            k <= n <= cs.len(),
            trim_tail(cs@.take(n as int)) == trim_tail(cs@.take(k as int)),
        decreases k,
    {
        assert(cs@.take(k as int).drop_last() =~= cs@.take(k - 1));
        k = k - 1;
    }
    proof {
        let t = cs@.take(k as int);
        assert(trim_tail(t) == t);
    }
    k
}

/// One past the last `/` in `cs[..k]` (0 when there is none).
fn piece_start(cs: &Vec<char>, k: usize) -> (i: usize)
    requires
        k <= cs.len(),
    ensures
        i <= k,
        i as int == last_sep(cs@.take(k as int)) + 1,
{
    let mut j = k;
    while j > 0 && cs[j - 1] != '/'
        invariant
            j <= k <= cs.len(),
            last_sep(cs@.take(k as int)) == last_sep(cs@.take(j as int)),
        decreases j,
    {
        assert(cs@.take(j as int).drop_last() =~= cs@.take(j - 1));
        j = j - 1;
    }
    proof {
        if j > 0 {
            assert(cs@.take(j as int).last() == '/');
        }
    }
    j
}

/// `Path::file_name` on a Unix path.
pub fn file_name(path: &str) -> (r: Option<String>)
    ensures
        r.deep_view() == file_name_spec(path@),
{
    let cs = chars_of(path);
    assert(cs@.take(cs.len() as int) =~= cs@);
    let k = trimmed_len(&cs, cs.len());
    let i = piece_start(&cs, k);
    let ghost t = cs@.take(k as int);
    assert(cs@.subrange(i as int, k as int) =~= last_piece(t));
    if i == k || range_is(&cs, i, k, ".") || range_is(&cs, i, k, "..") {
        None
    } else {
        Some(string_of_range(&cs, i, k))
    }
}

/// `Path::parent` on a Unix path.
pub fn parent(path: &str) -> (r: Option<String>)
    ensures
        r.deep_view() == parent_spec(path@),
{
    let cs = chars_of(path);
    assert(cs@.take(cs.len() as int) =~= cs@);
    let k = trimmed_len(&cs, cs.len());
    let ghost t = cs@.take(k as int);
    if k == 0 || range_is(&cs, 0, k, "/") {
        assert(cs@.subrange(0, k as int) =~= t);
        return None;
    }
    if range_is(&cs, 0, k, ".") {
        assert(cs@.subrange(0, k as int) =~= t);
        return Some(String::new());
    }
    assert(cs@.subrange(0, k as int) =~= t);
    let i = piece_start(&cs, k);
    assert(last_piece(t).len() == k - i);
    assert(t.take(t.len() - last_piece(t).len()) =~= cs@.take(i as int));
    let j = trimmed_len(&cs, i);
    let r = string_of_range(&cs, 0, j);
    assert(cs@.subrange(0, j as int) =~= cs@.take(j as int));
    Some(r)
}

/// The stem of a file name.
pub fn stem(name: &str) -> (r: String)
    ensures
        r@ == stem_of(name@),
{
    let cs = chars_of(name);
    let mut j = cs.len();
    assert(cs@.take(j as int) =~= cs@);
    while j > 0 && cs[j - 1] != '.'
        invariant
            j <= cs.len(),
            cs@ == name@,
            last_dot(name@) == last_dot(cs@.take(j as int)),
        decreases j,
    {
        assert(cs@.take(j as int).drop_last() =~= cs@.take(j - 1));
        j = j - 1;
    }
    proof {
        if j > 0 {
            assert(cs@.take(j as int).last() == '.');
        }
    }
    if j <= 1 {
        let r = string_of_range(&cs, 0, cs.len());
        assert(cs@.subrange(0, cs.len() as int) =~= cs@);
        r
    } else {
        let r = string_of_range(&cs, 0, j - 1);
        assert(cs@.subrange(0, j - 1) =~= cs@.take(j - 1));
        r
    }
}

/// `Path::file_stem` on a Unix path.
pub fn file_stem(path: &str) -> (r: Option<String>)
    ensures
        r.deep_view() == file_stem_spec(path@),
{
    match file_name(path) {
        Some(n) => Some(stem(n.as_str())),
        None => None,
    }
}

/// The path `path` names when read from the directory `base`, as
/// `Path::join` forms it: `path` itself when it is absolute, else `base`
/// and `path` with one separator between them (none after an empty base or
/// one that already ends in a separator).
pub open spec fn resolve_spec(base: Seq<char>, path: Seq<char>) -> Seq<char> {
    if path.len() > 0 && path[0] == '/' {
        path
    } else if base.len() == 0 || base.last() == '/' {
        base + path
    } else {
        base + "/"@ + path
    }
}

/// The path `path` names when read from the directory `base`.
pub fn resolve(base: &str, path: &str) -> (r: String)
    ensures
        r@ == resolve_spec(base@, path@),
{
    let pc = chars_of(path);
    if pc.len() > 0 && pc[0] == '/' {
        return path.to_owned();
    }
    let bc = chars_of(base);
    if bc.len() == 0 || bc[bc.len() - 1] == '/' {
        concat(base, path)
    } else {
        proof {
            reveal_strlit("/");
        }
        concat3(base, "/", path)
    }
}

} // verus!
