//! The checks that are made beside those for the test functions: lint, commit,
//! branch and test-count checks.
use crate::text::{
    chars_of, decimal, decimal_string, lemma_deep_view_push, lemma_strip_trailing_take, same_chars,
    slice_of, string_of, strip_trailing, to_uppercase, uppercase_of,
};
use crate::types::{AutoTest, AutoTestView, TestKind, TestKindView, TestMeta, TestMetaView};
use vstd::prelude::*;
use vstd::string::StringExecFns;

verus! {

/// How long a check may run, in seconds.
pub const DEFAULT_TIMEOUT: u64 = 10;

/// The name of the directory that holds the manifest at `path`, a path in unix style:
/// the part of the path before its last part. It is a single dot for the bare manifest
/// file name, and where the path has no such part or has `..` there.
pub open spec fn dir_label(path: Seq<char>) -> Seq<char> {
    let slash = |c: char| c == '/';
    let other = |c: char| c != '/';
    let parent = strip_trailing(strip_trailing(strip_trailing(path, slash), other), slash);
    let name = parent.skip(strip_trailing(parent, other).len() as int);
    if path == "Cargo.toml"@ || name.len() == 0 || name == seq!['.', '.'] {
        seq!['.']
    } else {
        name
    }
}

/// Whether a label names the build unit at the root.
pub open spec fn is_root_label(label: Seq<char>) -> bool {
    label == seq!['.'] || label == "Cargo.toml"@
}

/// Where the run of slashes that ends before `end` starts.
fn back_over_slashes(v: &Vec<char>, end: usize) -> (k: usize)
    requires
        end <= v.len(),
    ensures
        k <= end,
        strip_trailing(v@.take(end as int), |c: char| c == '/') == v@.take(k as int),
{
    let mut k: usize = end;
    while k > 0 && v[k - 1] == '/'
        invariant
            k <= end <= v.len(),
            forall|i: int| k <= i < end ==> #[trigger] v@[i] == '/',
        decreases k,
    {
        k -= 1;
    }
    proof {
        let slash = |c: char| c == '/';
        let s = v@.take(end as int);
        assert forall|i: int| k <= i < s.len() implies slash(#[trigger] s[i]) by {
            assert(s[i] == v@[i]);
        }
        lemma_strip_trailing_take(s, slash, k as int);
        assert(s.take(k as int) == v@.take(k as int));
        if k > 0 {
            assert(v@.take(k as int).last() == v@[k - 1]);
        }
    }
    k
}

/// Where the run of other characters than slashes that ends before `end` starts.
fn back_over_name(v: &Vec<char>, end: usize) -> (k: usize)
    requires
        end <= v.len(),
    ensures
        k <= end,
        strip_trailing(v@.take(end as int), |c: char| c != '/') == v@.take(k as int),
{
    let mut k: usize = end;
    while k > 0 && v[k - 1] != '/'
        invariant
            k <= end <= v.len(),
            forall|i: int| k <= i < end ==> #[trigger] v@[i] != '/',
        decreases k,
    {
        k -= 1;
    }
    proof {
        let other = |c: char| c != '/';
        let s = v@.take(end as int);
        assert forall|i: int| k <= i < s.len() implies other(#[trigger] s[i]) by {
            assert(s[i] == v@[i]);
        }
        lemma_strip_trailing_take(s, other, k as int);
        assert(s.take(k as int) == v@.take(k as int));
        if k > 0 {
            assert(v@.take(k as int).last() == v@[k - 1]);
        }
    }
    k
}

/// The label of the build unit whose manifest is at `path`: the name of the directory
/// that holds the manifest, or a single dot for the unit at the root.
pub fn manifest_dir_label(path: &str) -> (r: String)
    ensures
        r@ == dir_label(path@),
{
    let v = chars_of(path);
    let bare = chars_of("Cargo.toml");
    let dots: Vec<char> = vec!['.', '.'];
    assert(dots@ == seq!['.', '.']);
    assert(v@.take(v.len() as int) == v@);
    let a = back_over_slashes(&v, v.len());
    let b = back_over_name(&v, a);
    let c = back_over_slashes(&v, b);
    let d = back_over_name(&v, c);
    let name = slice_of(&v, d, c);
    assert(name@ == v@.take(c as int).skip(d as int));
    assert(v@.take(d as int).len() == d);
    if same_chars(&v, &bare) || name.len() == 0 || same_chars(&name, &dots) {
        let dot: Vec<char> = vec!['.'];
        assert(dot@ == seq!['.']);
        string_of(&dot)
    } else {
        string_of(&name)
    }
}

/// The lint check of the build unit whose manifest is at `path`.
pub open spec fn clippy_check(path: Seq<char>, points: u32) -> AutoTestView {
    let label = dir_label(path);
    if is_root_label(label) {
        AutoTestView {
            meta: TestMetaView {
                name: "CLIPPY_STYLE_CHECK"@,
                description: "`cargo clippy` style check"@,
                points,
                timeout: DEFAULT_TIMEOUT,
            },
            kind: TestKindView::Clippy { manifest_path: None },
        }
    } else {
        AutoTestView {
            meta: TestMetaView {
                name: "CLIPPY_STYLE_CHECK_"@ + uppercase_of(label),
                description: "`cargo clippy` style check for `"@ + label + "`"@,
                points,
                timeout: DEFAULT_TIMEOUT,
            },
            kind: TestKindView::Clippy { manifest_path: Some(path) },
        }
    }
}

fn is_root(label: &str) -> (r: bool)
    ensures
        r == is_root_label(label@),
{
    proof {
        reveal_strlit(".");
        assert("."@ =~= seq!['.']);
    }
    crate::text::same_text(label, ".") || crate::text::same_text(label, "Cargo.toml")
}

fn clippy_autotest_for(manifest_path: &str, points: u32) -> (r: AutoTest)
    ensures
        r.deep_view() == clippy_check(manifest_path@, points),
{
    let dir = manifest_dir_label(manifest_path);
    if is_root(dir.as_str()) {
        AutoTest {
            meta: TestMeta {
                name: String::from_str("CLIPPY_STYLE_CHECK"),
                description: String::from_str("`cargo clippy` style check"),
                points,
                timeout: DEFAULT_TIMEOUT,
            },
            kind: TestKind::Clippy { manifest_path: None },
        }
    } else {
        let mut name = String::from_str("CLIPPY_STYLE_CHECK_");
        name.append(to_uppercase(dir.as_str()).as_str());
        let mut doc = String::from_str("`cargo clippy` style check for `");
        doc.append(dir.as_str());
        doc.append("`");
        AutoTest {
            meta: TestMeta { name, description: doc, points, timeout: DEFAULT_TIMEOUT },
            kind: TestKind::Clippy { manifest_path: Some(String::from_str(manifest_path)) },
        }
    }
}

/// One lint check for each build unit of `manifest_paths`, in their order.
pub fn clippy_autotests(manifest_paths: &Vec<String>, points: u32) -> (r: Vec<AutoTest>)
    ensures
        r.deep_view() == manifest_paths.deep_view().map_values(
            |p: Seq<char>| clippy_check(p, points),
        ),
{
    let ghost want = manifest_paths.deep_view().map_values(|p: Seq<char>| clippy_check(p, points));
    let mut out: Vec<AutoTest> = Vec::new();
    let mut i: usize = 0;
    while i < manifest_paths.len()
        invariant
            i <= manifest_paths.len(),
            want == manifest_paths.deep_view().map_values(|p: Seq<char>| clippy_check(p, points)),
            out.deep_view() == want.take(i as int),
        decreases manifest_paths.len() - i,
    {
        let t = clippy_autotest_for(manifest_paths[i].as_str(), points);
        assert(manifest_paths.deep_view()[i as int] == manifest_paths@[i as int]@);
        let ghost before = out;
        out.push(t);
        proof {
            lemma_deep_view_push(before, out, t);
            assert(out.deep_view() =~= want.take(i + 1));
        }
        i += 1;
    }
    assert(want.take(want.len() as int) == want);
    out
}

/// The check that asks for `value` of something: its name is `prefix`, an underscore
/// and the number; its description holds the placeholder in place of the number.
pub open spec fn threshold_check(
    prefix: Seq<char>,
    what: Seq<char>,
    value: u32,
    points: u32,
    kind: TestKindView,
) -> AutoTestView {
    AutoTestView {
        meta: TestMetaView {
            name: prefix + "_"@ + decimal(value as nat),
            description: "Ensures at least ## "@ + what + "."@,
            points,
            timeout: DEFAULT_TIMEOUT,
        },
        kind,
    }
}

/// The check that asks for `value` commits.
pub open spec fn commit_check(value: u32, points: u32) -> AutoTestView {
    threshold_check(
        "COMMIT_COUNT"@,
        "commits"@,
        value,
        points,
        TestKindView::CommitCount { min_commits: value },
    )
}

/// The check that asks for `value` branches.
pub open spec fn branch_check(value: u32, points: u32) -> AutoTestView {
    threshold_check(
        "BRANCH_COUNT"@,
        "branches"@,
        value,
        points,
        TestKindView::BranchCount { min_branches: value },
    )
}

fn threshold_autotest(prefix: &str, what: &str, value: u32, points: u32, kind: TestKind) -> (r:
    AutoTest)
    ensures
        r.deep_view() == threshold_check(prefix@, what@, value, points, kind.deep_view()),
{
    let mut name = String::from_str(prefix);
    name.append("_");
    name.append(decimal_string(value as u64).as_str());
    let mut doc = String::from_str("Ensures at least ## ");
    doc.append(what);
    doc.append(".");
    AutoTest { meta: TestMeta { name, description: doc, points, timeout: DEFAULT_TIMEOUT }, kind }
}

/// One commit check for each number of `thresholds`, in their order.
pub fn commit_count_autotests(thresholds: &Vec<u32>, points: u32) -> (r: Vec<AutoTest>)
    ensures
        r.deep_view() == thresholds@.map_values(|v: u32| commit_check(v, points)),
{
    let ghost want = thresholds@.map_values(|v: u32| commit_check(v, points));
    let mut out: Vec<AutoTest> = Vec::new();
    let mut i: usize = 0;
    while i < thresholds.len()
        invariant
            i <= thresholds.len(),
            want == thresholds@.map_values(|v: u32| commit_check(v, points)),
            out.deep_view() == want.take(i as int),
        decreases thresholds.len() - i,
    {
        let v = thresholds[i];
        let t = threshold_autotest(
            "COMMIT_COUNT",
            "commits",
            v,
            points,
            TestKind::CommitCount { min_commits: v },
        );
        let ghost before = out;
        out.push(t);
        proof {
            lemma_deep_view_push(before, out, t);
            assert(out.deep_view() =~= want.take(i + 1));
        }
        i += 1;
    }
    assert(want.take(want.len() as int) == want);
    out
}

/// One branch check for each number of `thresholds`, in their order.
pub fn branch_count_autotests(thresholds: &Vec<u32>, points: u32) -> (r: Vec<AutoTest>)
    ensures
        r.deep_view() == thresholds@.map_values(|v: u32| branch_check(v, points)),
{
    let ghost want = thresholds@.map_values(|v: u32| branch_check(v, points));
    let mut out: Vec<AutoTest> = Vec::new();
    let mut i: usize = 0;
    while i < thresholds.len()
        invariant
            i <= thresholds.len(),
            want == thresholds@.map_values(|v: u32| branch_check(v, points)),
            out.deep_view() == want.take(i as int),
        decreases thresholds.len() - i,
    {
        let v = thresholds[i];
        let t = threshold_autotest(
            "BRANCH_COUNT",
            "branches",
            v,
            points,
            TestKind::BranchCount { min_branches: v },
        );
        let ghost before = out;
        out.push(t);
        proof {
            lemma_deep_view_push(before, out, t);
            assert(out.deep_view() =~= want.take(i + 1));
        }
        i += 1;
    }
    assert(want.take(want.len() as int) == want);
    out
}

/// The check that asks the build unit whose manifest is at `path` for `required`
/// tests.
pub open spec fn test_count_check(path: Seq<char>, points: u32, required: u32) -> AutoTestView {
    let label = dir_label(path);
    if is_root_label(label) {
        AutoTestView {
            meta: TestMetaView {
                name: "TEST_COUNT"@,
                description: "Submission has at least ## tests"@,
                points,
                timeout: DEFAULT_TIMEOUT,
            },
            kind: TestKindView::TestCount { min_tests: required, manifest_path: None },
        }
    } else {
        AutoTestView {
            meta: TestMetaView {
                name: "TEST_COUNT_"@ + uppercase_of(path),
                description: label + " submission has at least ## tests"@,
                points,
                timeout: DEFAULT_TIMEOUT,
            },
            kind: TestKindView::TestCount { min_tests: required, manifest_path: Some(path) },
        }
    }
}

fn test_count_autotest_for(manifest_path: &str, points: u32, required_tests: u32) -> (r: AutoTest)
    ensures
        r.deep_view() == test_count_check(manifest_path@, points, required_tests),
{
    let dir = manifest_dir_label(manifest_path);
    if is_root(dir.as_str()) {
        AutoTest {
            meta: TestMeta {
                name: String::from_str("TEST_COUNT"),
                description: String::from_str("Submission has at least ## tests"),
                points,
                timeout: DEFAULT_TIMEOUT,
            },
            kind: TestKind::TestCount { min_tests: required_tests, manifest_path: None },
        }
    } else {
        let mut name = String::from_str("TEST_COUNT_");
        name.append(to_uppercase(manifest_path).as_str());
        let mut doc = dir;
        doc.append(" submission has at least ## tests");
        AutoTest {
            meta: TestMeta { name, description: doc, points, timeout: DEFAULT_TIMEOUT },
            kind: TestKind::TestCount {
                min_tests: required_tests,
                manifest_path: Some(String::from_str(manifest_path)),
            },
        }
    }
}

/// The test-count checks: none where `required` is 0, else one for each build unit of
/// `manifest_paths`, in their order.
pub open spec fn test_count_checks(required: u32, points: u32, paths: Seq<Seq<char>>) -> Seq<
    AutoTestView,
> {
    if required == 0 {
        Seq::empty()
    } else {
        paths.map_values(|p: Seq<char>| test_count_check(p, points, required))
    }
}

/// The test-count checks for the build units of `manifest_paths`, which asks each for
/// `required` tests; none where `required` is 0.
pub fn test_count_autotests(required: u32, points: u32, manifest_paths: &Vec<String>) -> (r: Vec<
    AutoTest,
>)
    ensures
        r.deep_view() == test_count_checks(required, points, manifest_paths.deep_view()),
{
    let mut out: Vec<AutoTest> = Vec::new();
    if required == 0 {
        assert(out.deep_view() =~= Seq::<AutoTestView>::empty());
        return out;
    }
    let ghost want = manifest_paths.deep_view().map_values(
        |p: Seq<char>| test_count_check(p, points, required),
    );
    let mut i: usize = 0;
    while i < manifest_paths.len()
        invariant
            i <= manifest_paths.len(),
            want == manifest_paths.deep_view().map_values(
                |p: Seq<char>| test_count_check(p, points, required),
            ),
            out.deep_view() == want.take(i as int),
        decreases manifest_paths.len() - i,
    {
        let t = test_count_autotest_for(manifest_paths[i].as_str(), points, required);
        assert(manifest_paths.deep_view()[i as int] == manifest_paths@[i as int]@);
        let ghost before = out;
        out.push(t);
        proof {
            lemma_deep_view_push(before, out, t);
            assert(out.deep_view() =~= want.take(i + 1));
        }
        i += 1;
    }
    assert(want.take(want.len() as int) == want);
    out
}

} // verus!
