//! The checks of a grading manifest.
use crate::text::{as_deref, chars_of, decimal_string, replace_chars, replaced, string_of};
use crate::utils::{fill_count, with_count};
use crate::utils::scripts::{BRANCH_COUNT_SCRIPT_NAME, COMMIT_COUNT_SCRIPT_NAME};
use command_makers::{
    branch_count_cmd, cargo_test_cmd, cargo_test_command, clippy_cmd, clippy_command,
    commit_count_cmd, script_command, test_count_cmd, test_count_command,
};
use vstd::prelude::*;
use vstd::string::StringExecFns;

pub mod command_makers;
pub mod step_cmd;

pub use step_cmd::StepCmd;

verus! {

/// What every check has.
#[derive(Debug, Clone)]
pub struct TestMeta {
    /// The name of the check.
    pub name: String,
    /// What the check is for. Each `##` in it stands for the check's threshold.
    pub description: String,
    /// The score of the check.
    pub points: u32,
    /// How long the check may run, in seconds.
    pub timeout: u64,
}

/// What a check does.
#[derive(Debug, Clone)]
pub enum TestKind {
    /// Runs one test function.
    CargoTest { manifest_path: Option<String> },
    /// Runs the lint check.
    Clippy { manifest_path: Option<String> },
    /// Asks for a number of commits.
    CommitCount { min_commits: u32 },
    /// Asks for a number of branches.
    BranchCount { min_branches: u32 },
    /// Asks for a number of tests.
    TestCount { min_tests: u32, manifest_path: Option<String> },
}

/// One check of the manifest.
#[derive(Debug, Clone)]
pub struct AutoTest {
    pub meta: TestMeta,
    pub kind: TestKind,
}

/// A `TestMeta` as a mathematical value.
pub struct TestMetaView {
    pub name: Seq<char>,
    pub description: Seq<char>,
    pub points: u32,
    pub timeout: u64,
}

/// A `TestKind` as a mathematical value.
pub enum TestKindView {
    CargoTest { manifest_path: Option<Seq<char>> },
    Clippy { manifest_path: Option<Seq<char>> },
    CommitCount { min_commits: u32 },
    BranchCount { min_branches: u32 },
    TestCount { min_tests: u32, manifest_path: Option<Seq<char>> },
}

/// An `AutoTest` as a mathematical value.
pub struct AutoTestView {
    pub meta: TestMetaView,
    pub kind: TestKindView,
}

impl DeepView for TestMeta {
    type V = TestMetaView;

    open spec fn deep_view(&self) -> TestMetaView {
        TestMetaView {
            name: self.name@,
            description: self.description@,
            points: self.points,
            timeout: self.timeout,
        }
    }
}

impl DeepView for TestKind {
    type V = TestKindView;

    open spec fn deep_view(&self) -> TestKindView {
        match *self {
            TestKind::CargoTest { manifest_path } => TestKindView::CargoTest {
                manifest_path: manifest_path.deep_view(),
            },
            TestKind::Clippy { manifest_path } => TestKindView::Clippy {
                manifest_path: manifest_path.deep_view(),
            },
            TestKind::CommitCount { min_commits } => TestKindView::CommitCount { min_commits },
            TestKind::BranchCount { min_branches } => TestKindView::BranchCount { min_branches },
            TestKind::TestCount { min_tests, manifest_path } => TestKindView::TestCount {
                min_tests,
                manifest_path: manifest_path.deep_view(),
            },
        }
    }
}

impl DeepView for AutoTest {
    type V = AutoTestView;

    open spec fn deep_view(&self) -> AutoTestView {
        AutoTestView { meta: self.meta.deep_view(), kind: self.kind.deep_view() }
    }
}

/// `s` made safe for a cell of a table: a backslash before each backslash, each
/// vertical bar and each backtick.
pub open spec fn escaped(s: Seq<char>) -> Seq<char> {
    replaced(
        replaced(replaced(s, seq!['\\'], seq!['\\', '\\']), seq!['|'], seq!['\\', '|']),
        seq!['`'],
        seq!['\\', '`'],
    )
}

/// The threshold of a check that has one.
pub open spec fn threshold_of(kind: TestKindView) -> Option<u32> {
    match kind {
        TestKindView::CommitCount { min_commits } => Some(min_commits),
        TestKindView::BranchCount { min_branches } => Some(min_branches),
        TestKindView::TestCount { min_tests, .. } => Some(min_tests),
        _ => None,
    }
}

/// The description of a check as it is shown: each placeholder replaced by the
/// check's threshold, where it has one, and the whole escaped for a table.
pub open spec fn description_of(t: AutoTestView) -> Seq<char> {
    match threshold_of(t.kind) {
        Some(n) => escaped(with_count(t.meta.description, n as nat)),
        None => escaped(t.meta.description),
    }
}

/// The command line that a check runs.
pub open spec fn command_of(t: AutoTestView) -> Seq<char> {
    match t.kind {
        TestKindView::CargoTest { manifest_path } => cargo_test_command(t.meta.name, manifest_path),
        TestKindView::Clippy { manifest_path } => clippy_command(manifest_path),
        TestKindView::CommitCount { min_commits } => script_command(
            COMMIT_COUNT_SCRIPT_NAME@,
            min_commits as nat,
        ),
        TestKindView::BranchCount { min_branches } => script_command(
            BRANCH_COUNT_SCRIPT_NAME@,
            min_branches as nat,
        ),
        TestKindView::TestCount { min_tests, manifest_path } => test_count_command(
            min_tests as nat,
            manifest_path,
        ),
    }
}

/// The cells of the row that a check has in the table of checks.
pub open spec fn row_of(t: AutoTestView) -> Seq<Seq<char>> {
    seq![
        seq!['`'] + t.meta.name + seq!['`'],
        crate::text::decimal(t.meta.points as nat),
        description_of(t),
    ]
}

fn esc_chars(v: &Vec<char>) -> (r: Vec<char>)
    ensures
        r@ == escaped(v@),
{
    let backslash: Vec<char> = vec!['\\'];
    let bar: Vec<char> = vec!['|'];
    let tick: Vec<char> = vec!['`'];
    let two: Vec<char> = vec!['\\', '\\'];
    let esc_bar: Vec<char> = vec!['\\', '|'];
    let esc_tick: Vec<char> = vec!['\\', '`'];
    assert(backslash@ == seq!['\\'] && bar@ == seq!['|'] && tick@ == seq!['`']);
    assert(two@ == seq!['\\', '\\'] && esc_bar@ == seq!['\\', '|'] && esc_tick@ == seq!['\\', '`']);
    let a = replace_chars(v, &backslash, &two);
    let b = replace_chars(&a, &bar, &esc_bar);
    replace_chars(&b, &tick, &esc_tick)
}

impl AutoTest {
    /// The description as it is shown: each placeholder `##` replaced by the check's
    /// threshold, where it has one, and the whole escaped for a table.
    pub fn resolved_description(&self) -> (r: String)
        ensures
            r@ == description_of(self.deep_view()),
    {
        let v = chars_of(self.meta.description.as_str());
        let filled = match &self.kind {
            TestKind::CommitCount { min_commits } => fill_count(&v, *min_commits as u64),
            TestKind::BranchCount { min_branches } => fill_count(&v, *min_branches as u64),
            TestKind::TestCount { min_tests, .. } => fill_count(&v, *min_tests as u64),
            _ => v,
        };
        string_of(&esc_chars(&filled))
    }

    /// The command line that the check runs.
    pub fn command(&self) -> (r: String)
        ensures
            r@ == command_of(self.deep_view()),
    {
        match &self.kind {
            TestKind::CargoTest { manifest_path } => cargo_test_cmd(
                self.meta.name.as_str(),
                as_deref(manifest_path),
            ),
            TestKind::Clippy { manifest_path } => clippy_cmd(as_deref(manifest_path)),
            TestKind::CommitCount { min_commits } => commit_count_cmd(min_commits),
            TestKind::BranchCount { min_branches } => branch_count_cmd(min_branches),
            TestKind::TestCount { min_tests, manifest_path } => test_count_cmd(
                *min_tests,
                as_deref(manifest_path),
            ),
        }
    }

    /// The headings of the table of checks.
    pub fn column_names() -> (r: Vec<&'static str>)
        ensures
            r@.len() == 3,
            r@[0]@ == "Name"@,
            r@[1]@ == "Points"@,
            r@[2]@ == "Description"@,
    {
        vec!["Name", "Points", "Description"]
    }

    /// The cells of the check's row in the table of checks: its name between
    /// backticks, its points, and its description as it is shown.
    pub fn column_values(&self) -> (r: Vec<String>)
        ensures
            r.deep_view() == row_of(self.deep_view()),
    {
        let mut name = String::from_str("`");
        name.append(self.meta.name.as_str());
        name.append("`");
        proof {
            reveal_strlit("`");
            assert("`"@ =~= seq!['`']);
        }
        let out = vec![name, decimal_string(self.meta.points as u64), self.resolved_description()];
        assert(out.deep_view() =~= row_of(self.deep_view()));
        out
    }
}

} // verus!
