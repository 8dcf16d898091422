//! Small formatting helpers shared by the manifest builder and the workflow renderer.
use crate::text::{
    chars_of, decimal, push_all, push_decimal, replace_chars, replaced, string_of, strip_leading,
    strip_trailing,
};
use vstd::prelude::*;

pub mod paths;
pub mod scripts;
pub mod walk;

pub use paths::{get_tests_dir, to_rel_unix_path};
pub use walk::collect_rs_files_with_manifest;

verus! {

/// One level of indentation in the workflow file.
pub const YAML_INDENT: &'static str = "  ";

/// A source file together with the build manifest that governs it.
#[derive(Debug, Clone)]
pub struct RustFile {
    /// Where the file lies.
    pub path: String,
    /// The manifest of the nearest enclosing directory that has one.
    pub manifest_path: Option<String>,
}

/// A `RustFile` as a mathematical value.
pub struct RustFileView {
    pub path: Seq<char>,
    pub manifest_path: Option<Seq<char>>,
}

impl DeepView for RustFile {
    type V = RustFileView;

    open spec fn deep_view(&self) -> RustFileView {
        RustFileView { path: self.path@, manifest_path: self.manifest_path.deep_view() }
    }
}

/// The letters and digits of ASCII.
pub open spec fn is_ascii_alphanumeric(c: char) -> bool {
    ('0' <= c <= '9') || ('a' <= c <= 'z') || ('A' <= c <= 'Z')
}

/// `c` in lower case, where it is a capital letter of ASCII.
pub open spec fn ascii_lowercase(c: char) -> char {
    if 'A' <= c <= 'Z' {
        ((c as int) + 32) as char
    } else {
        c
    }
}

/// What a character contributes to a slug: itself in lower case where it is a letter
/// or digit of ASCII, a hyphen otherwise.
pub open spec fn slug_char(c: char) -> char {
    if is_ascii_alphanumeric(c) {
        ascii_lowercase(c)
    } else {
        '-'
    }
}

/// `s` with each run of hyphens shortened to one hyphen.
pub open spec fn squeezed(s: Seq<char>) -> Seq<char>
    decreases s.len(),
{
    if s.len() == 0 {
        s
    } else {
        let init = squeezed(s.drop_last());
        if s.last() == '-' && init.len() > 0 && init.last() == '-' {
            init
        } else {
            init.push(s.last())
        }
    }
}

/// The slug of a name: lower case, every run of other characters than letters and digits
/// of ASCII turned into one hyphen, and no hyphen at either end.
pub open spec fn slug(s: Seq<char>) -> Seq<char> {
    let hyphen = |c: char| c == '-';
    strip_trailing(strip_leading(squeezed(s.map_values(|c: char| slug_char(c))), hyphen), hyphen)
}

/// The slug of `name`, used as the identifier of a workflow step.
pub fn slug_id(name: &str) -> (r: String)
    ensures
        r@ == slug(name@),
{
    let v = chars_of(name);
    let ghost mapped = name@.map_values(|c: char| slug_char(c));
    let mut out: Vec<char> = Vec::new();
    let mut last_dash = false;
    let mut i: usize = 0;
    assert(mapped.take(0) == Seq::<char>::empty());
    while i < v.len()
        invariant
            i <= v.len(),
            v@ == name@,
            mapped == name@.map_values(|c: char| slug_char(c)),
            out@ == squeezed(mapped.take(i as int)),
            last_dash == (out.len() > 0 && out@.last() == '-'),
        decreases v.len() - i,
    {
        let ch = v[i];
        assert(mapped.take(i + 1).drop_last() == mapped.take(i as int));
        assert(mapped.take(i + 1).last() == slug_char(ch));
        if ('0' <= ch && ch <= '9') || ('a' <= ch && ch <= 'z') {
            out.push(ch);
            last_dash = false;
        } else if 'A' <= ch && ch <= 'Z' {
            out.push(((ch as u8) + 32u8) as char);
            last_dash = false;
        } else if !last_dash {
            out.push('-');
            last_dash = true;
        }
        i += 1;
    }
    assert(mapped.take(v.len() as int) == mapped);
    let trimmed = trim_hyphens(&out);
    string_of(&trimmed)
}

/// `v` without the hyphens at its start and at its end.
fn trim_hyphens(v: &Vec<char>) -> (r: Vec<char>)
    ensures
        r@ == strip_trailing(strip_leading(v@, |c: char| c == '-'), |c: char| c == '-'),
{
    let mut from: usize = 0;
    while from < v.len() && v[from] == '-'
        invariant
            from <= v.len(),
            forall|i: int| 0 <= i < from ==> #[trigger] v@[i] == '-',
        decreases v.len() - from,
    {
        from += 1;
    }
    let mut to: usize = v.len();
    while to > from && v[to - 1] == '-'
        invariant
            from <= to <= v.len(),
            forall|i: int| to <= i < v.len() ==> #[trigger] v@[i] == '-',
        decreases to,
    {
        to -= 1;
    }
    proof {
        let hyphen = |c: char| c == '-';
        let rest = v@.skip(from as int);
        assert forall|i: int| 0 <= i < from implies hyphen(#[trigger] v@[i]) by {}
        crate::text::lemma_strip_leading_skip(v@, hyphen, from as int);
        assert(strip_leading(rest, hyphen) == rest);
        let k = to - from;
        assert forall|i: int| k <= i < rest.len() implies hyphen(#[trigger] rest[i]) by {
            assert(rest[i] == v@[i + from]);
        }
        crate::text::lemma_strip_trailing_take(rest, hyphen, k);
        assert(rest.take(k) == v@.subrange(from as int, to as int));
        let kept = rest.take(k);
        assert(strip_trailing(kept, hyphen) == kept) by {
            if kept.len() > 0 {
                assert(kept.last() == v@[to - 1]);
            }
        }
    }
    crate::text::slice_of(v, from, to)
}


/// The characters that a slug is made of.
pub open spec fn is_slug_char(c: char) -> bool {
    ('0' <= c <= '9') || ('a' <= c <= 'z') || c == '-'
}

/// Whether `s` reads as a slug: made of lower-case letters, digits and hyphens, with no
/// two hyphens in a row and no hyphen at either end.
pub open spec fn is_slug(s: Seq<char>) -> bool {
    &&& forall|i: int| 0 <= i < s.len() ==> is_slug_char(#[trigger] s[i])
    &&& forall|i: int| 0 <= i < s.len() - 1 ==> !(#[trigger] s[i] == '-' && s[i + 1] == '-')
    &&& s.len() > 0 ==> s.first() != '-' && s.last() != '-'
}

proof fn lemma_squeezed_shape(m: Seq<char>)
    requires
        forall|i: int| 0 <= i < m.len() ==> is_slug_char(#[trigger] m[i]),
    ensures
        forall|i: int| 0 <= i < squeezed(m).len() ==> is_slug_char(#[trigger] squeezed(m)[i]),
        forall|i: int|
            0 <= i < squeezed(m).len() - 1 ==> !(#[trigger] squeezed(m)[i] == '-' && squeezed(
                m,
            )[i + 1] == '-'),
    decreases m.len(),
{
    if m.len() > 0 {
        let init = m.drop_last();
        assert forall|i: int| 0 <= i < init.len() implies is_slug_char(#[trigger] init[i]) by {
            assert(init[i] == m[i]);
        }
        lemma_squeezed_shape(init);
        let q = squeezed(init);
        let r = squeezed(m);
        assert(is_slug_char(m[m.len() - 1]));
        assert forall|i: int| 0 <= i < r.len() implies is_slug_char(#[trigger] r[i]) by {
            if i < q.len() {
                assert(r[i] == q[i]);
            }
        }
        assert forall|i: int| 0 <= i < r.len() - 1 implies !(#[trigger] r[i] == '-' && r[i + 1]
            == '-') by {
            assert(r[i] == q[i]);
            if i + 1 < q.len() {
                assert(r[i + 1] == q[i + 1]);
            }
        }
    }
}

proof fn lemma_strip_leading_is_skip(x: Seq<char>, drop: spec_fn(char) -> bool) -> (k: int)
    ensures
        0 <= k <= x.len(),
        strip_leading(x, drop) == x.skip(k),
        k < x.len() ==> !drop(x[k]),
    decreases x.len(),
{
    if x.len() > 0 && drop(x.first()) {
        let k = lemma_strip_leading_is_skip(x.drop_first(), drop);
        assert(x.drop_first().skip(k) == x.skip(k + 1));
        k + 1
    } else {
        assert(x.skip(0) == x);
        0
    }
}

proof fn lemma_strip_trailing_is_take(x: Seq<char>, drop: spec_fn(char) -> bool) -> (k: int)
    ensures
        0 <= k <= x.len(),
        strip_trailing(x, drop) == x.take(k),
        k > 0 ==> !drop(x[k - 1]),
    decreases x.len(),
{
    if x.len() > 0 && drop(x.last()) {
        let k = lemma_strip_trailing_is_take(x.drop_last(), drop);
        assert(x.drop_last().take(k) == x.take(k));
        k
    } else {
        assert(x.take(x.len() as int) == x);
        x.len() as int
    }
}

/// Every slug reads as a slug.
pub proof fn lemma_slug_is_slug(s: Seq<char>)
    ensures
        is_slug(slug(s)),
{
    let hyphen = |c: char| c == '-';
    let m = s.map_values(|c: char| slug_char(c));
    assert forall|i: int| 0 <= i < m.len() implies is_slug_char(#[trigger] m[i]) by {
        let c = s[i];
        assert(m[i] == slug_char(c));
        if 'A' <= c <= 'Z' {
            assert('a' <= ascii_lowercase(c) <= 'z');
        }
    }
    lemma_squeezed_shape(m);
    let q = squeezed(m);
    let a = lemma_strip_leading_is_skip(q, hyphen);
    let x = q.skip(a);
    let b = lemma_strip_trailing_is_take(x, hyphen);
    let t = x.take(b);
    assert(t == slug(s));
    assert forall|i: int| 0 <= i < t.len() implies is_slug_char(#[trigger] t[i]) by {
        assert(t[i] == q[i + a]);
    }
    assert forall|i: int| 0 <= i < t.len() - 1 implies !(#[trigger] t[i] == '-' && t[i + 1]
        == '-') by {
        assert(t[i] == q[i + a]);
        assert(t[i + 1] == q[i + a + 1]);
    }
    if t.len() > 0 {
        assert(t.first() == q[a]);
        assert(t.last() == x[b - 1]);
    }
}

proof fn lemma_squeezed_fixes(t: Seq<char>)
    requires
        forall|i: int| 0 <= i < t.len() - 1 ==> !(#[trigger] t[i] == '-' && t[i + 1] == '-'),
    ensures
        squeezed(t) == t,
    decreases t.len(),
{
    if t.len() > 0 {
        let init = t.drop_last();
        assert forall|i: int| 0 <= i < init.len() - 1 implies !(#[trigger] init[i] == '-' && init[i
            + 1] == '-') by {
            assert(init[i] == t[i]);
            assert(init[i + 1] == t[i + 1]);
        }
        lemma_squeezed_fixes(init);
        if init.len() > 0 {
            assert(init.last() == t[t.len() - 2]);
        }
        assert(init.push(t.last()) == t);
    }
}

/// A text that reads as a slug is its own slug.
pub proof fn lemma_slug_fixes_slugs(t: Seq<char>)
    requires
        is_slug(t),
    ensures
        slug(t) == t,
{
    let m = t.map_values(|c: char| slug_char(c));
    assert(m == t) by {
        assert forall|i: int| 0 <= i < t.len() implies m[i] == t[i] by {
            assert(is_slug_char(t[i]));
        }
    }
    lemma_squeezed_fixes(t);
}

/// Taking the slug of a slug changes nothing.
pub proof fn lemma_slug_idempotent(x: Seq<char>)
    ensures
        slug(slug(x)) == slug(x),
{
    lemma_slug_is_slug(x);
    lemma_slug_fixes_slugs(slug(x));
}


/// `s` between double quotes, each double quote inside it written after a backslash.
pub open spec fn yaml_quoted(s: Seq<char>) -> Seq<char> {
    seq!['"'] + replaced(s, seq!['"'], seq!['\\', '"']) + seq!['"']
}

/// Quotes `s` for the workflow file: between double quotes, with each double quote
/// inside it escaped. Nothing else is escaped.
pub fn yaml_quote(s: &str) -> (r: String)
    ensures
        r@ == yaml_quoted(s@),
{
    let v = chars_of(s);
    let pat: Vec<char> = vec!['"'];
    let with: Vec<char> = vec!['\\', '"'];
    assert(pat@ == seq!['"']);
    assert(with@ == seq!['\\', '"']);
    let body = replace_chars(&v, &pat, &with);
    let mut out: Vec<char> = vec!['"'];
    assert(out@ == seq!['"']);
    push_all(&mut out, &body);
    out.push('"');
    assert(out@ == yaml_quoted(s@));
    string_of(&out)
}

/// The placeholder that stands for a count in descriptions and commands.
pub open spec fn placeholder() -> Seq<char> {
    seq!['#', '#']
}

/// `s` with each placeholder replaced by the decimal numeral of `n`.
pub open spec fn with_count(s: Seq<char>, n: nat) -> Seq<char> {
    replaced(s, placeholder(), decimal(n))
}

/// `v` with each placeholder replaced by the decimal numeral of `n`.
pub fn fill_count(v: &Vec<char>, n: u64) -> (r: Vec<char>)
    ensures
        r@ == with_count(v@, n as nat),
{
    let pat: Vec<char> = vec!['#', '#'];
    assert(pat@ == placeholder());
    let mut number: Vec<char> = Vec::new();
    push_decimal(&mut number, n);
    assert(number@ == decimal(n as nat));
    replace_chars(v, &pat, &number)
}

/// Replaces each placeholder `##` in `s` by the decimal numeral of `num_commits`.
pub fn replace_double_hashtag(s: &str, num_commits: u32) -> (r: String)
    ensures
        r@ == with_count(s@, num_commits as nat),
{
    let v = chars_of(s);
    let out = fill_count(&v, num_commits as u64);
    string_of(&out)
}

} // verus!
