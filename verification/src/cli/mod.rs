//! The settings of a run, as the command line gives them and as the manifest builder
//! reads them.
use crate::text::same_text;
use vstd::prelude::*;
use vstd::string::StringExecFns;

pub mod build;
pub mod init;
pub mod table;
pub mod textparsers;

verus! {

/// The settings of `init` as they are given on the command line.
#[derive(Debug)]
pub struct InitArgs {
    /// The root of the project.
    pub root: String,
    /// Where the tests lie.
    pub tests_dir: String,
    /// The points of each check.
    pub default_points: u32,
    /// Leaves out the lint check.
    pub no_style_check: bool,
    /// Leaves out the commit checks.
    pub no_commit_count: bool,
    /// The older way to ask for commit checks: one for each number from 1 up to this.
    pub num_commit_checks: Option<u32>,
    /// The numbers of commits to ask for.
    pub require_commits: Vec<u32>,
    /// The numbers of branches to ask for.
    pub require_branches: Vec<u32>,
    /// The number of tests to ask for; 0 asks for none.
    pub require_tests: u32,
}

/// The settings of `build`.
#[derive(Debug)]
pub struct BuildArgs {
    pub root: String,
    /// Grade on every push, not only on request.
    pub grade_on_push: bool,
}

/// The settings of `table`.
#[derive(Debug)]
pub struct TableArgs {
    pub root: String,
    pub no_clipboard: bool,
    pub to_readme: bool,
}

/// The settings of `reset`.
#[derive(Debug)]
pub struct ResetArgs {
    pub root: String,
}

/// What the program is asked to do.
#[derive(Debug)]
pub enum Command {
    /// Scan for tests and write the manifest.
    Init(InitArgs),
    /// Render the workflow from the manifest.
    Build(BuildArgs),
    /// Show the checks as a table.
    Table(TableArgs),
    /// Remove what the program wrote.
    Reset(ResetArgs),
}

/// A parsed command line.
#[derive(Debug)]
pub struct Cli {
    pub command: Command,
}

/// The settings that the manifest builder reads.
#[derive(Debug, Clone)]
pub struct RunConfig {
    pub root: String,
    pub tests_dir_name: String,
    pub num_points: u32,
    pub style_check: bool,
    /// Whether commit checks are wanted at all.
    pub commit_counts_flag: bool,
    /// The older way to ask for commit checks: one for each number from 1 up to this.
    pub num_commit_checks: Option<u32>,
    /// The number of tests to ask for; 0 asks for none.
    pub require_tests: u32,
    /// The numbers of commits to ask for, in the order in which the checks come.
    pub require_commits: Vec<u32>,
    /// The numbers of branches to ask for, in the order in which the checks come.
    pub require_branches: Vec<u32>,
}

/// The numbers `1, 2, ..., n`.
pub open spec fn one_up_to(n: nat) -> Seq<u32> {
    Seq::new(n, |i: int| (i + 1) as u32)
}

/// The numbers of commits that checks ask for. The rules, the first that applies:
/// none where commit checks are disabled; the explicit list, as given, where it is
/// not empty; `1..=n` where the older setting gives `n`; else the single number 1.
pub open spec fn commit_thresholds(enabled: bool, explicit: Seq<u32>, legacy: Option<u32>) -> Seq<
    u32,
> {
    if !enabled {
        Seq::empty()
    } else if explicit.len() > 0 {
        explicit
    } else {
        match legacy {
            Some(n) => one_up_to(n as nat),
            None => seq![1u32],
        }
    }
}

/// Where commit checks are disabled there is no threshold, whatever else is set.
pub proof fn lemma_disabled_commit_checks(explicit: Seq<u32>, legacy: Option<u32>)
    ensures
        commit_thresholds(false, explicit, legacy) == Seq::<u32>::empty(),
{
}

/// An explicit list of thresholds is taken as it is, in its order, whatever the older
/// setting says.
pub proof fn lemma_explicit_thresholds_win(explicit: Seq<u32>, legacy: Option<u32>)
    requires
        explicit.len() > 0,
    ensures
        commit_thresholds(true, explicit, legacy) == explicit,
{
}

/// Without an explicit list the older setting `n` gives the thresholds from 1 up to
/// `n`, in ascending order; none where `n` is 0.
pub proof fn lemma_legacy_thresholds(n: u32)
    ensures
        commit_thresholds(true, Seq::empty(), Some(n)).len() == n,
        forall|i: int|
            0 <= i < n ==> #[trigger] commit_thresholds(true, Seq::empty(), Some(n))[i] == i + 1,
{
}

/// With commit checks enabled and nothing else set, the one threshold is 1.
pub proof fn lemma_default_threshold()
    ensures
        commit_thresholds(true, Seq::empty(), None) == seq![1u32],
{
}

/// The numbers `1, 2, ..., n`.
pub fn count_up_to(n: u32) -> (r: Vec<u32>)
    ensures
        r@ == one_up_to(n as nat),
{
    let mut out: Vec<u32> = Vec::new();
    let mut i: u32 = 0;
    while i < n
        invariant
            i <= n,
            out@ == one_up_to(i as nat),
        decreases n - i,
    {
        i += 1;
        out.push(i);
        assert(out@ =~= one_up_to(i as nat));
    }
    out
}

/// A copy of `v`.
pub fn copy_numbers(v: &Vec<u32>) -> (r: Vec<u32>)
    ensures
        r@ == v@,
{
    let mut out: Vec<u32> = Vec::new();
    let mut i: usize = 0;
    while i < v.len()
        invariant
            i <= v.len(),
            out@ == v@.take(i as int),
        decreases v.len() - i,
    {
        out.push(v[i]);
        i += 1;
    }
    assert(v@.take(v.len() as int) == v@);
    out
}

impl RunConfig {
    /// The numbers of commits that checks ask for, by the rules of `commit_thresholds`.
    pub fn resolve_commit_thresholds(&self) -> (r: Vec<u32>)
        ensures
            r@ == commit_thresholds(
                self.commit_counts_flag,
                self.require_commits@,
                self.num_commit_checks,
            ),
    {
        if !self.commit_counts_flag {
            return Vec::new();
        }
        if self.require_commits.len() > 0 {
            return copy_numbers(&self.require_commits);
        }
        match self.num_commit_checks {
            Some(n) => count_up_to(n),
            None => {
                let out: Vec<u32> = vec![1u32];
                assert(out@ =~= seq![1u32]);
                out
            },
        }
    }
}

/// The directory of the tests that `args` asks for: the root where only the root is
/// given, the tests directory otherwise.
pub open spec fn tests_dir_of(args: InitArgs) -> String {
    if args.tests_dir@ == "."@ && args.root@ != "."@ {
        args.root
    } else {
        args.tests_dir
    }
}

impl From<InitArgs> for RunConfig {
    fn from(args: InitArgs) -> (r: Self) {
        let tests_dir = if same_text(args.tests_dir.as_str(), ".") && !same_text(
            args.root.as_str(),
            ".",
        ) {
            args.root.clone()
        } else {
            args.tests_dir
        };
        RunConfig {
            tests_dir_name: tests_dir,
            root: args.root,
            num_points: args.default_points,
            style_check: !args.no_style_check,
            commit_counts_flag: !args.no_commit_count,
            num_commit_checks: args.num_commit_checks,
            require_tests: args.require_tests,
            require_commits: args.require_commits,
            require_branches: args.require_branches,
        }
    }
}

impl vstd::std_specs::convert::FromSpecImpl<InitArgs> for RunConfig {
    open spec fn obeys_from_spec() -> bool {
        true
    }

    open spec fn from_spec(args: InitArgs) -> Self {
        RunConfig {
            tests_dir_name: tests_dir_of(args),
            root: args.root,
            num_points: args.default_points,
            style_check: !args.no_style_check,
            commit_counts_flag: !args.no_commit_count,
            num_commit_checks: args.num_commit_checks,
            require_tests: args.require_tests,
            require_commits: args.require_commits,
            require_branches: args.require_branches,
        }
    }
}

impl Default for RunConfig {
    /// The settings with every check switched off and one point for each test.
    fn default() -> (r: Self)
        ensures
            r.root@.len() == 0,
            r.tests_dir_name@ == "."@,
            r.num_points == 1,
            !r.style_check,
            !r.commit_counts_flag,
            r.num_commit_checks is None,
            r.require_tests == 0,
            r.require_commits@.len() == 0,
            r.require_branches@.len() == 0,
    {
        RunConfig {
            root: String::new(),
            tests_dir_name: String::from_str("."),
            num_points: 1,
            style_check: false,
            commit_counts_flag: false,
            num_commit_checks: None,
            require_tests: 0,
            require_commits: Vec::new(),
            require_branches: Vec::new(),
        }
    }
}

} // verus!
