//! Building the manifest from the tests that were found.
use crate::cli::{commit_thresholds, RunConfig};
use crate::text::lemma_deep_view_push;
use crate::types::{AutoTest, AutoTestView};
use functions::{
    branch_check, branch_count_autotests, clippy_autotests, clippy_check, commit_check,
    commit_count_autotests, test_count_autotests, test_count_checks,
};
use scan::{
    cargo_check, distinct_units, find_all_tests, found_all, LoadedFile, LoadedFileView,
    TestWithManifest, TestWithManifestView,
};
use vstd::prelude::*;

pub mod functions;
pub mod scan;

verus! {

/// Why no manifest could be built.
#[derive(Debug)]
pub enum InitError {
    /// There was no source file to scan.
    NoSourceFiles,
    /// A source file is no valid source text.
    ParseError { path: String, message: String },
    /// The source files hold no test function.
    NoTestsFound,
}

/// An `InitError` as a mathematical value.
pub enum InitErrorView {
    NoSourceFiles,
    ParseError { path: Seq<char>, message: Seq<char> },
    NoTestsFound,
}

impl DeepView for InitError {
    type V = InitErrorView;

    open spec fn deep_view(&self) -> InitErrorView {
        match *self {
            InitError::NoSourceFiles => InitErrorView::NoSourceFiles,
            InitError::ParseError { path, message } => InitErrorView::ParseError {
                path: path@,
                message: message@,
            },
            InitError::NoTestsFound => InitErrorView::NoTestsFound,
        }
    }
}

/// The lint checks of a manifest: one for each build unit where the style check is
/// wanted, none where it is not.
pub open spec fn clippy_checks(style_check: bool, points: u32, units: Seq<Seq<char>>) -> Seq<
    AutoTestView,
> {
    if style_check {
        units.map_values(|u: Seq<char>| clippy_check(u, points))
    } else {
        Seq::empty()
    }
}

/// The checks of the manifest for `tests` under the settings `cfg`, in this order: one
/// check for each test; the lint checks, one for each build unit; the commit checks;
/// the branch checks; the test-count checks, one for each build unit. The build units
/// come in ascending order.
pub open spec fn synthesized(tests: Seq<TestWithManifestView>, cfg: RunConfig) -> Seq<
    AutoTestView,
> {
    let units = distinct_units(tests, cfg.root@);
    let points = cfg.num_points;
    tests.map_values(|t: TestWithManifestView| cargo_check(t, cfg.root@, points)) + clippy_checks(
        cfg.style_check,
        points,
        units,
    ) + commit_thresholds(
        cfg.commit_counts_flag,
        cfg.require_commits@,
        cfg.num_commit_checks,
    ).map_values(|v: u32| commit_check(v, points)) + cfg.require_branches@.map_values(
        |v: u32| branch_check(v, points),
    ) + test_count_checks(cfg.require_tests, points, units)
}

/// Moves the checks of `more` to the end of `checks`.
fn append_checks(checks: &mut Vec<AutoTest>, more: Vec<AutoTest>)
    ensures
        final(checks).deep_view() == old(checks).deep_view() + more.deep_view(),
{
    let ghost before = checks.deep_view();
    let mut more = more;
    let ghost added = more@;
    checks.append(&mut more);
    assert(checks.deep_view() =~= before + added.map_values(|t: AutoTest| t.deep_view()));
    assert(added.map_values(|t: AutoTest| t.deep_view()) =~= Seq::new(
        added.len(),
        |i: int| added[i].deep_view(),
    ));
}

/// The checks of the manifest for `tests` under the settings `cfg`.
pub fn synthesize(tests: &Vec<TestWithManifest>, cfg: &RunConfig) -> (r: Vec<AutoTest>)
    ensures
        r.deep_view() == synthesized(tests.deep_view(), *cfg),
{
    let root = cfg.root.as_str();
    let points = cfg.num_points;
    let units = TestWithManifest::get_distinct_manifest_paths(tests, root);
    let ghost want = tests.deep_view().map_values(
        |t: TestWithManifestView| cargo_check(t, cfg.root@, points),
    );
    let mut items: Vec<AutoTest> = Vec::new();
    let mut i: usize = 0;
    assert(items.deep_view() =~= want.take(0));
    while i < tests.len()
        invariant
            i <= tests.len(),
            root@ == cfg.root@,
            want == tests.deep_view().map_values(
                |t: TestWithManifestView| cargo_check(t, cfg.root@, points),
            ),
            items.deep_view() == want.take(i as int),
        decreases tests.len() - i,
    {
        let check = tests[i].autotest(root, points);
        let ghost before = items;
        items.push(check);
        proof {
            lemma_deep_view_push(before, items, check);
            assert(tests.deep_view()[i as int] == tests@[i as int].deep_view());
            assert(want[i as int] == check.deep_view());
            assert(items.deep_view() =~= want.take(i + 1));
        }
        i += 1;
    }
    assert(want.take(tests.len() as int) == want);
    if cfg.style_check {
        append_checks(&mut items, clippy_autotests(&units, points));
    } else {
        assert(items.deep_view() + Seq::<AutoTestView>::empty() =~= items.deep_view());
    }
    let thresholds = cfg.resolve_commit_thresholds();
    append_checks(&mut items, commit_count_autotests(&thresholds, points));
    append_checks(&mut items, branch_count_autotests(&cfg.require_branches, points));
    append_checks(&mut items, test_count_autotests(cfg.require_tests, points, &units));
    items
}

/// What `run` returns for `files` under the settings `cfg`.
pub open spec fn manifest_of(files: Seq<LoadedFileView>, cfg: RunConfig) -> Result<
    Seq<AutoTestView>,
    InitErrorView,
> {
    if files.len() == 0 {
        Err(InitErrorView::NoSourceFiles)
    } else {
        match found_all(files) {
            Err(e) => Err(InitErrorView::ParseError { path: e.path, message: e.message }),
            Ok(tests) => if tests.len() == 0 {
                Err(InitErrorView::NoTestsFound)
            } else {
                Ok(synthesized(tests, cfg))
            },
        }
    }
}

/// An outcome of `run` as a mathematical value.
pub open spec fn manifest_view(r: Result<Vec<AutoTest>, InitError>) -> Result<
    Seq<AutoTestView>,
    InitErrorView,
> {
    match r {
        Ok(checks) => Ok(checks.deep_view()),
        Err(e) => Err(e.deep_view()),
    }
}

/// Builds the manifest for the source files `files` under the settings `cfg`: finds
/// the tests of the files and makes their checks. It fails where there is no file,
/// where a file is no valid source text, and where the files hold no test.
pub fn run(files: &Vec<LoadedFile>, cfg: &RunConfig) -> (r: Result<Vec<AutoTest>, InitError>)
    ensures
        manifest_view(r) == manifest_of(files.deep_view(), *cfg),
{
    if files.len() == 0 {
        return Err(InitError::NoSourceFiles);
    }
    match find_all_tests(files) {
        Err(e) => Err(InitError::ParseError { path: e.path, message: e.message }),
        Ok(tests) => {
            if tests.len() == 0 {
                Err(InitError::NoTestsFound)
            } else {
                Ok(synthesize(&tests, cfg))
            }
        },
    }
}

} // verus!
