//! Paths as text. Both `/` and `\` separate the parts of a path that comes in; a path
//! that goes out has `/` only.
use crate::text::{chars_of, push_all, slice_of, string_of, strip_leading};
use vstd::prelude::*;

verus! {

/// The characters that separate the parts of a path.
pub open spec fn is_separator(c: char) -> bool {
    c == '/' || c == '\\'
}

/// `s` with each backslash turned into a slash.
pub open spec fn unix_style(s: Seq<char>) -> Seq<char> {
    s.map_values(|c: char| if c == '\\' { '/' } else { c })
}

/// Whether the path `path` starts with all of `root` and `root` ends where a part of
/// `path` ends. Both are in unix style.
pub open spec fn is_under(root: Seq<char>, path: Seq<char>) -> bool {
    &&& 0 < root.len() <= path.len()
    &&& path.take(root.len() as int) == root
    &&& (root.len() == path.len() || root.last() == '/' || path[root.len() as int] == '/')
}

/// `path` relative to `root` and in unix style: what follows `root` where `path` lies
/// under it, all of `path` where it does not.
pub open spec fn rel_unix_path(root: Seq<char>, path: Seq<char>) -> Seq<char> {
    let r = unix_style(root);
    let p = unix_style(path);
    if is_under(r, p) {
        strip_leading(p.skip(r.len() as int), |c: char| c == '/')
    } else {
        p
    }
}

/// `v` with each backslash turned into a slash.
fn to_unix_style(v: &Vec<char>) -> (r: Vec<char>)
    ensures
        r@ == unix_style(v@),
{
    let mut out: Vec<char> = Vec::new();
    let mut i: usize = 0;
    while i < v.len()
        invariant
            i <= v.len(),
            out@ == unix_style(v@).take(i as int),
        decreases v.len() - i,
    {
        let c = v[i];
        out.push(if c == '\\' { '/' } else { c });
        assert(unix_style(v@).take(i + 1) == unix_style(v@).take(i as int).push(
            unix_style(v@)[i as int],
        ));
        i += 1;
    }
    assert(unix_style(v@).take(v.len() as int) == unix_style(v@));
    out
}

/// Whether `path` lies under `root` in the sense of `is_under`.
fn lies_under(root: &Vec<char>, path: &Vec<char>) -> (r: bool)
    ensures
        r == is_under(root@, path@),
{
    if root.len() == 0 || root.len() > path.len() {
        return false;
    }
    if !crate::text::matches_at(path, root, 0) {
        return false;
    }
    assert(path@.take(root.len() as int) == path@.subrange(0, 0 + root.len()));
    root.len() == path.len() || root[root.len() - 1] == '/' || path[root.len()] == '/'
}

/// Makes `path` relative to `root` and writes it in unix style. A path that does not
/// lie under `root` is kept whole.
pub fn to_rel_unix_path(root: &str, path: &str) -> (r: String)
    ensures
        r@ == rel_unix_path(root@, path@),
{
    let r = to_unix_style(&chars_of(root));
    let p = to_unix_style(&chars_of(path));
    if lies_under(&r, &p) {
        let mut from: usize = r.len();
        while from < p.len() && p[from] == '/'
            invariant
                r.len() <= from <= p.len(),
                forall|i: int| r.len() <= i < from ==> #[trigger] p@[i] == '/',
            decreases p.len() - from,
        {
            from += 1;
        }
        proof {
            let slash = |c: char| c == '/';
            let rest = p@.skip(r.len() as int);
            let k = from - r.len();
            assert forall|i: int| 0 <= i < k implies slash(#[trigger] rest[i]) by {
                assert(rest[i] == p@[i + r.len()]);
            }
            crate::text::lemma_strip_leading_skip(rest, slash, k);
            assert(rest.skip(k) == p@.skip(from as int));
            assert(strip_leading(p@.skip(from as int), slash) == p@.skip(from as int)) by {
                if from < p.len() {
                    assert(p@.skip(from as int).first() == p@[from as int]);
                }
            }
            assert(p@.skip(from as int) == p@.subrange(from as int, p.len() as int));
        }
        let out = slice_of(&p, from, p.len());
        string_of(&out)
    } else {
        string_of(&p)
    }
}

/// Whether a path starts at the root of the file system.
pub open spec fn is_absolute(path: Seq<char>) -> bool {
    path.len() > 0 && is_separator(path.first())
}

/// `name` seen from the directory `base`: `name` itself where it is absolute, else
/// `base`, a slash where `base` does not end in a separator, and `name`.
pub open spec fn path_joined(base: Seq<char>, name: Seq<char>) -> Seq<char> {
    if is_absolute(name) {
        name
    } else if base.len() == 0 || is_separator(base.last()) {
        base + name
    } else {
        base + seq!['/'] + name
    }
}

/// The path of `name` seen from the directory `base`.
pub fn join_path(base: &str, name: &str) -> (r: String)
    ensures
        r@ == path_joined(base@, name@),
{
    let b = chars_of(base);
    let n = chars_of(name);
    if n.len() > 0 && (n[0] == '/' || n[0] == '\\') {
        return string_of(&n);
    }
    let mut out: Vec<char> = Vec::new();
    push_all(&mut out, &b);
    if b.len() > 0 && !(b[b.len() - 1] == '/' || b[b.len() - 1] == '\\') {
        out.push('/');
    }
    push_all(&mut out, &n);
    assert(out@ == path_joined(base@, name@));
    string_of(&out)
}

/// The directory to scan for tests. `same_directory` says whether `tests_dir_name`
/// and `root` name one directory: then it is `root`, so that the two are never joined.
/// Otherwise it is `tests_dir_name` seen from `root`.
pub fn get_tests_dir(root: &str, tests_dir_name: &str, same_directory: bool) -> (r: String)
    ensures
        r@ == if same_directory {
            root@
        } else {
            path_joined(root@, tests_dir_name@)
        },
{
    if same_directory {
        string_of(&chars_of(root))
    } else {
        join_path(root, tests_dir_name)
    }
}

/// Whether the file at `path` has the extension `rs`: its name ends in `.rs` and has
/// something before that.
pub open spec fn has_rs_extension(path: Seq<char>) -> bool {
    let n = path.len() as int;
    &&& n >= 4
    &&& path.subrange(n - 3, n) == seq!['.', 'r', 's']
    &&& !is_separator(path[n - 4])
}

/// Whether the file at `path` has the extension `rs`.
pub fn is_rust_file(path: &str) -> (r: bool)
    ensures
        r == has_rs_extension(path@),
{
    let v = chars_of(path);
    let n = v.len();
    if n < 4 {
        return false;
    }
    let ends = v[n - 3] == '.' && v[n - 2] == 'r' && v[n - 1] == 's';
    proof {
        let tail = v@.subrange(n - 3, n as int);
        assert(tail[0] == v@[n - 3] && tail[1] == v@[n - 2] && tail[2] == v@[n - 1]);
        if ends {
            assert(tail == seq!['.', 'r', 's']);
        }
    }
    ends && !(v[n - 4] == '/' || v[n - 4] == '\\')
}

} // verus!
