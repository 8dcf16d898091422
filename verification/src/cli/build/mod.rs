//! Rendering the manifest as a workflow.
use crate::sorted::{keys_of, lemma_listing_unique, listing, lists, put_entry};
use crate::text::{
    chars_of, join, joined, lemma_deep_view_push, same_text, string_of, to_uppercase, trim, trimmed,
    uppercase_of,
};
use crate::types::{command_of, AutoTest, AutoTestView, TestKind, TestKindView, TestMeta};
use crate::utils::{fill_count, slug, slug_id, with_count};
use steps::{
    command_step_text, indent_lines, indented_lines, lines_of, reporter_step_text, CommandStep,
    CommandStepView, CommandWith, CommandWithView, ReporterStep, ReporterStepView,
};
use vstd::prelude::*;
use vstd::string::StringExecFns;

pub mod build_functions;
pub mod steps;

verus! {

/// The depth at which the steps of the workflow are written.
pub const STEP_INDENT: usize = 3;

/// Whether a check counts: it is worth more than no points.
pub open spec fn counts() -> spec_fn(AutoTestView) -> bool {
    |t: AutoTestView| t.meta.points > 0
}

/// The checks that count.
pub open spec fn graded(tests: Seq<AutoTestView>) -> Seq<AutoTestView> {
    tests.filter(counts())
}

/// Whether a check runs a test function of the build unit `mp`.
pub open spec fn runs_test_of(mp: Option<Seq<char>>) -> spec_fn(AutoTestView) -> bool {
    |t: AutoTestView| t.kind == (TestKindView::CargoTest { manifest_path: mp })
}

/// How many of `all` run a test function of the build unit `mp`.
pub open spec fn cargo_test_count(all: Seq<AutoTestView>, mp: Option<Seq<char>>) -> nat {
    all.filter(runs_test_of(mp)).len()
}

/// The command of the check `t` as the workflow runs it. In a test-count check the
/// placeholder gives way to the number of checks among `all` that run a test function
/// of the same build unit.
pub open spec fn rendered_command(t: AutoTestView, all: Seq<AutoTestView>) -> Seq<char> {
    match t.kind {
        TestKindView::TestCount { manifest_path, .. } => with_count(
            command_of(t),
            cargo_test_count(all, manifest_path),
        ),
        _ => command_of(t),
    }
}

/// The name under which a check appears in the workflow.
pub open spec fn step_name(t: AutoTestView) -> Seq<char> {
    trimmed(t.meta.name)
}

/// The identifier of the step of a check: the slug of its name.
pub open spec fn step_id(t: AutoTestView) -> Seq<char> {
    slug(step_name(t))
}

/// The step that runs `cmd` for the check `t`.
pub open spec fn step_with(t: AutoTestView, cmd: Seq<char>) -> CommandStepView {
    CommandStepView {
        name: step_name(t),
        id: step_id(t),
        uses: "classroom-resources/autograding-command-grader@v1"@,
        with: CommandWithView {
            test_name: step_name(t),
            setup_command: Seq::empty(),
            command: cmd,
            timeout: t.meta.timeout,
            max_score: t.meta.points,
        },
    }
}

/// How the step of `t` that runs `cmd` is written: the step, and an empty line.
pub open spec fn step_text(t: AutoTestView, cmd: Seq<char>) -> Seq<char> {
    command_step_text(step_with(t, cmd), STEP_INDENT as nat) + seq!['\n']
}

/// How the steps of `tests` are written, one after the other; `all` are the checks of
/// the workflow.
pub open spec fn steps_text(tests: Seq<AutoTestView>, all: Seq<AutoTestView>) -> Seq<char>
    decreases tests.len(),
{
    if tests.len() == 0 {
        Seq::empty()
    } else {
        steps_text(tests.drop_last(), all) + step_text(
            tests.last(),
            rendered_command(tests.last(), all),
        )
    }
}

/// The identifiers of the steps of `tests`, in order.
pub open spec fn step_ids(tests: Seq<AutoTestView>) -> Seq<Seq<char>> {
    tests.map_values(|t: AutoTestView| step_id(t))
}

/// The name that the reporter gives the result of the step `id`.
pub open spec fn env_key(id: Seq<char>) -> Seq<char> {
    uppercase_of(id) + "_RESULTS"@
}

/// Where the reporter finds the result of the step `id`.
pub open spec fn env_value(id: Seq<char>) -> Seq<char> {
    "${{steps."@ + id + ".outputs.result}}"@
}

/// The environment of the reporter for the steps `ids`: for each step the name of its
/// result with where to find it. Of two steps with one name the later one stays.
pub open spec fn env_map(ids: Seq<Seq<char>>) -> Map<Seq<char>, Seq<char>>
    decreases ids.len(),
{
    if ids.len() == 0 {
        Map::empty()
    } else {
        env_map(ids.drop_last()).insert(env_key(ids.last()), env_value(ids.last()))
    }
}

/// The step that reports the results of the steps `ids`. Its environment is in
/// ascending order of the names; the steps to report are in the order of `ids`.
pub open spec fn reporter_of(ids: Seq<Seq<char>>) -> ReporterStepView {
    ReporterStepView {
        name: "Autograding Reporter"@,
        uses: "classroom-resources/autograding-grading-reporter@v1"@,
        env: listing(env_map(ids)),
        runners_csv: joined(ids, seq![',']),
    }
}

/// The workflow for the checks `tests` after the head `preamble`: a step for each
/// check that counts, in order, then the reporter for those steps.
pub open spec fn workflow(preamble: Seq<char>, tests: Seq<AutoTestView>) -> Seq<char> {
    preamble + steps_text(tests, tests) + reporter_step_text(
        reporter_of(step_ids(tests)),
        STEP_INDENT as nat,
    )
}

/// Whether two optional texts are the same.
fn same_option(a: &Option<String>, b: &Option<String>) -> (r: bool)
    ensures
        r == (a.deep_view() == b.deep_view()),
{
    match (a, b) {
        (Some(x), Some(y)) => same_text(x.as_str(), y.as_str()),
        (None, None) => true,
        _ => false,
    }
}

/// How many of `all` run a test function of the build unit `mp`.
fn count_cargo_tests(all: &Vec<AutoTest>, mp: &Option<String>) -> (r: usize)
    ensures
        r == cargo_test_count(all.deep_view(), mp.deep_view()),
{
    let ghost pred = runs_test_of(mp.deep_view());
    let mut n: usize = 0;
    let mut i: usize = 0;
    proof {
        reveal(Seq::filter);
        assert(all.deep_view().take(0) =~= Seq::<AutoTestView>::empty());
    }
    while i < all.len()
        invariant
            i <= all.len(),
            n <= i,
            pred == runs_test_of(mp.deep_view()),
            n == all.deep_view().take(i as int).filter(pred).len(),
        decreases all.len() - i,
    {
        let ghost upto = all.deep_view().take(i + 1);
        proof {
            reveal(Seq::filter);
            assert(upto.drop_last() == all.deep_view().take(i as int));
            assert(upto.last() == all@[i as int].deep_view());
        }
        match &all[i].kind {
            TestKind::CargoTest { manifest_path } => {
                if same_option(manifest_path, mp) {
                    n += 1;
                }
            },
            _ => {},
        }
        i += 1;
    }
    assert(all.deep_view().take(all.len() as int) == all.deep_view());
    n
}

/// A copy of a check.
pub fn copy_check(t: &AutoTest) -> (r: AutoTest)
    ensures
        r.deep_view() == t.deep_view(),
{
    let kind = match &t.kind {
        TestKind::CargoTest { manifest_path } => TestKind::CargoTest {
            manifest_path: crate::text::clone_text(manifest_path),
        },
        TestKind::Clippy { manifest_path } => TestKind::Clippy {
            manifest_path: crate::text::clone_text(manifest_path),
        },
        TestKind::CommitCount { min_commits } => TestKind::CommitCount {
            min_commits: *min_commits,
        },
        TestKind::BranchCount { min_branches } => TestKind::BranchCount {
            min_branches: *min_branches,
        },
        TestKind::TestCount { min_tests, manifest_path } => TestKind::TestCount {
            min_tests: *min_tests,
            manifest_path: crate::text::clone_text(manifest_path),
        },
    };
    AutoTest {
        meta: TestMeta {
            name: t.meta.name.clone(),
            description: t.meta.description.clone(),
            points: t.meta.points,
            timeout: t.meta.timeout,
        },
        kind,
    }
}

/// The command of the check `t` as the workflow runs it; `all` are the checks of the
/// workflow.
pub fn render_command(t: &AutoTest, all: &Vec<AutoTest>) -> (r: String)
    ensures
        r@ == rendered_command(t.deep_view(), all.deep_view()),
{
    let base = t.command();
    match &t.kind {
        TestKind::TestCount { manifest_path, .. } => {
            let n = count_cargo_tests(all, manifest_path);
            let filled = fill_count(&chars_of(base.as_str()), n as u64);
            string_of(&filled)
        },
        _ => base,
    }
}

/// Builds the workflow file from the checks of a manifest.
pub struct YAMLAutograder {
    /// The head of the workflow file.
    pub preamble: String,
    /// The workflow as far as it is written.
    pub autograder_content: String,
    /// The checks that the workflow is built from.
    pub tests: Vec<AutoTest>,
    /// The identifiers of the steps that are written.
    pub ids: Vec<String>,
}

impl YAMLAutograder {
    /// The checks that the workflow is built from.
    pub open spec fn checks(&self) -> Seq<AutoTestView> {
        self.tests.deep_view()
    }

    /// The identifiers of the steps that are written.
    pub open spec fn written_ids(&self) -> Seq<Seq<char>> {
        self.ids.deep_view()
    }

    /// A builder with nothing in it.
    pub fn new() -> (r: Self)
        ensures
            r.preamble@ == Seq::<char>::empty(),
            r.autograder_content@ == Seq::<char>::empty(),
            r.checks() == Seq::<AutoTestView>::empty(),
            r.written_ids() == Seq::<Seq<char>>::empty(),
    {
        let r = YAMLAutograder {
            preamble: String::new(),
            autograder_content: String::new(),
            tests: Vec::new(),
            ids: Vec::new(),
        };
        assert(r.tests.deep_view() =~= Seq::<AutoTestView>::empty());
        assert(r.ids.deep_view() =~= Seq::<Seq<char>>::empty());
        r
    }

    /// Sets the head of the workflow file.
    pub fn set_preamble(&mut self, preamble: String)
        ensures
            final(self).preamble@ == preamble@,
            final(self).autograder_content@ == old(self).autograder_content@,
            final(self).checks() == old(self).checks(),
            final(self).written_ids() == old(self).written_ids(),
    {
        self.preamble = preamble;
    }

    /// Sets the checks of the workflow: those of `tests` that count, in order. No step
    /// is written yet.
    pub fn set_tests(&mut self, tests: Vec<AutoTest>)
        ensures
            final(self).checks() == graded(tests.deep_view()),
            final(self).written_ids() == Seq::<Seq<char>>::empty(),
            final(self).preamble@ == old(self).preamble@,
            final(self).autograder_content@ == old(self).autograder_content@,
    {
        let mut kept: Vec<AutoTest> = Vec::new();
        let mut i: usize = 0;
        proof {
            reveal(Seq::filter);
            assert(tests.deep_view().take(0) =~= Seq::<AutoTestView>::empty());
            assert(kept.deep_view() =~= Seq::<AutoTestView>::empty());
        }
        while i < tests.len()
            invariant
                i <= tests.len(),
                kept.deep_view() == graded(tests.deep_view().take(i as int)),
            decreases tests.len() - i,
        {
            let ghost upto = tests.deep_view().take(i + 1);
            proof {
                reveal(Seq::filter);
                assert(upto.drop_last() == tests.deep_view().take(i as int));
                assert(upto.last() == tests@[i as int].deep_view());
            }
            if tests[i].meta.points > 0 {
                let t = copy_check(&tests[i]);
                let ghost before = kept;
                kept.push(t);
                proof {
                    lemma_deep_view_push(before, kept, t);
                }
            }
            i += 1;
        }
        assert(tests.deep_view().take(tests.len() as int) == tests.deep_view());
        self.tests = kept;
        self.ids = Vec::new();
        assert(self.ids.deep_view() =~= Seq::<Seq<char>>::empty());
    }

    /// Writes the step of the check `test` that runs `cmd`, and notes its identifier.
    pub fn compile_test_step(&mut self, test: &AutoTest, cmd: &str)
        ensures
            final(self).autograder_content@ == old(self).autograder_content@ + step_text(
                test.deep_view(),
                cmd@,
            ),
            final(self).written_ids() == old(self).written_ids().push(step_id(test.deep_view())),
            final(self).preamble@ == old(self).preamble@,
            final(self).checks() == old(self).checks(),
    {
        let name = trim(test.meta.name.as_str());
        let id = slug_id(name.as_str());
        let ghost before = self.ids;
        let noted = id.clone();
        self.ids.push(noted);
        proof {
            lemma_deep_view_push(before, self.ids, noted);
        }
        let step = CommandStep {
            name: name.clone(),
            id,
            uses: String::from_str("classroom-resources/autograding-command-grader@v1"),
            with: CommandWith {
                test_name: name,
                setup_command: String::new(),
                command: String::from_str(cmd),
                timeout: test.meta.timeout,
                max_score: test.meta.points,
            },
        };
        assert(step.deep_view() == step_with(test.deep_view(), cmd@));
        step.write_to(&mut self.autograder_content, STEP_INDENT);
        self.autograder_content.push('\n');
    }

    /// Writes the steps of all the checks, in order.
    pub fn compile_test_steps(&mut self)
        ensures
            final(self).autograder_content@ == old(self).autograder_content@ + steps_text(
                old(self).checks(),
                old(self).checks(),
            ),
            final(self).written_ids() == old(self).written_ids() + step_ids(old(self).checks()),
            final(self).preamble@ == old(self).preamble@,
            final(self).checks() == old(self).checks(),
    {
        let ghost all = self.checks();
        let ghost ids = self.written_ids();
        let ghost content = self.autograder_content@;
        let mut i: usize = 0;
        assert(all.take(0) =~= Seq::<AutoTestView>::empty());
        assert(content + Seq::<char>::empty() =~= content);
        assert(ids + step_ids(all.take(0)) =~= ids);
        while i < self.tests.len()
            invariant
                i <= self.tests.len(),
                all == self.checks(),
                self.preamble@ == old(self).preamble@,
                self.autograder_content@ == content + steps_text(all.take(i as int), all),
                self.written_ids() == ids + step_ids(all.take(i as int)),
            decreases self.tests.len() - i,
        {
            let ghost upto = all.take(i + 1);
            assert(upto.drop_last() == all.take(i as int));
            assert(upto.last() == self.tests@[i as int].deep_view());
            let test = copy_check(&self.tests[i]);
            let cmd = render_command(&test, &self.tests);
            self.compile_test_step(&test, cmd.as_str());
            assert(self.autograder_content@ =~= content + steps_text(upto, all));
            assert(self.written_ids() =~= ids + step_ids(upto));
            i += 1;
        }
        assert(all.take(self.tests.len() as int) == all);
    }

    /// Writes the step that reports the results of the steps written so far.
    pub fn compile_test_reporter(&mut self)
        ensures
            final(self).autograder_content@ == old(self).autograder_content@ + reporter_step_text(
                reporter_of(old(self).written_ids()),
                STEP_INDENT as nat,
            ),
            final(self).written_ids() == old(self).written_ids(),
            final(self).preamble@ == old(self).preamble@,
            final(self).checks() == old(self).checks(),
    {
        let ghost ids = self.written_ids();
        let mut env: Vec<(String, String)> = Vec::new();
        let mut i: usize = 0;
        assert(ids.take(0) =~= Seq::<Seq<char>>::empty());
        assert(keys_of(env.deep_view()) =~= Seq::<Seq<char>>::empty());
        assert(lists(env.deep_view(), env_map(ids.take(0))));
        while i < self.ids.len()
            invariant
                i <= self.ids.len(),
                ids == self.ids.deep_view(),
                lists(env.deep_view(), env_map(ids.take(i as int))),
            decreases self.ids.len() - i,
        {
            let ghost upto = ids.take(i + 1);
            assert(upto.drop_last() == ids.take(i as int));
            assert(upto.last() == self.ids@[i as int]@);
            let id = self.ids[i].as_str();
            let mut key = to_uppercase(id);
            key.append("_RESULTS");
            let mut value = String::from_str("${{steps.");
            value.append(id);
            value.append(".outputs.result}}");
            put_entry(&mut env, key, value);
            i += 1;
        }
        assert(ids.take(self.ids.len() as int) == ids);
        proof {
            reveal_strlit(",");
            assert(","@ =~= seq![',']);
            lemma_listing_unique(env.deep_view(), listing(env_map(ids)), env_map(ids));
        }
        let reporter = ReporterStep {
            name: String::from_str("Autograding Reporter"),
            uses: String::from_str("classroom-resources/autograding-grading-reporter@v1"),
            env,
            runners_csv: join(&self.ids, ","),
        };
        assert(reporter.deep_view() == reporter_of(ids));
        reporter.write_to(&mut self.autograder_content, STEP_INDENT);
    }

    /// Writes each line of `s` to the workflow, at the depth `indent_level`.
    pub fn insert_autograder_string(&mut self, s: String, indent_level: usize)
        ensures
            final(self).autograder_content@ == old(self).autograder_content@ + indented_lines(
                lines_of(s@),
                indent_level as nat,
            ),
            final(self).written_ids() == old(self).written_ids(),
            final(self).preamble@ == old(self).preamble@,
            final(self).checks() == old(self).checks(),
    {
        indent_lines(&mut self.autograder_content, indent_level, s.as_str());
    }

    /// Writes the workflow anew and returns it: the head, a step for each check, and
    /// the reporter.
    pub fn compile(&mut self) -> (r: String)
        ensures
            r@ == workflow(old(self).preamble@, old(self).checks()),
            final(self).autograder_content@ == r@,
            final(self).written_ids() == step_ids(old(self).checks()),
            final(self).preamble@ == old(self).preamble@,
            final(self).checks() == old(self).checks(),
    {
        self.autograder_content = self.preamble.clone();
        self.ids = Vec::new();
        assert(self.ids.deep_view() =~= Seq::<Seq<char>>::empty());
        self.compile_test_steps();
        assert(self.written_ids() =~= step_ids(self.checks()));
        self.compile_test_reporter();
        self.autograder_content.clone()
    }
}

/// Which helper scripts the steps of a workflow run.
#[derive(Debug, Clone, Copy, PartialEq, Eq, Structural)]
pub struct ScriptsNeeded {
    /// The script that counts commits.
    pub commit_count: bool,
    /// The script that counts branches.
    pub branch_count: bool,
}

/// Whether one of `tests` asks for a number of commits.
pub open spec fn asks_commits(tests: Seq<AutoTestView>) -> bool {
    exists|i: int| 0 <= i < tests.len() && (#[trigger] tests[i]).kind is CommitCount
}

/// Whether one of `tests` asks for a number of branches.
pub open spec fn asks_branches(tests: Seq<AutoTestView>) -> bool {
    exists|i: int| 0 <= i < tests.len() && (#[trigger] tests[i]).kind is BranchCount
}

impl YAMLAutograder {
    /// The helper scripts that must lie beside the workflow: each one that a step of
    /// the workflow runs.
    pub fn needed_scripts(&self) -> (r: ScriptsNeeded)
        ensures
            r.commit_count == asks_commits(self.checks()),
            r.branch_count == asks_branches(self.checks()),
    {
        let mut commit_count = false;
        let mut branch_count = false;
        let mut i: usize = 0;
        while i < self.tests.len()
            invariant
                i <= self.tests.len(),
                commit_count == asks_commits(self.checks().take(i as int)),
                branch_count == asks_branches(self.checks().take(i as int)),
            decreases self.tests.len() - i,
        {
            let ghost before = self.checks().take(i as int);
            let ghost upto = self.checks().take(i + 1);
            assert(upto[i as int] == self.tests@[i as int].deep_view());
            proof {
                if asks_commits(before) {
                    let k = choose|k: int|
                        0 <= k < before.len() && (#[trigger] before[k]).kind is CommitCount;
                    assert(upto[k] == before[k]);
                }
                if asks_branches(before) {
                    let k = choose|k: int|
                        0 <= k < before.len() && (#[trigger] before[k]).kind is BranchCount;
                    assert(upto[k] == before[k]);
                }
                if asks_commits(upto) {
                    let k = choose|k: int|
                        0 <= k < upto.len() && (#[trigger] upto[k]).kind is CommitCount;
                    if k < i {
                        assert(before[k] == upto[k]);
                    }
                }
                if asks_branches(upto) {
                    let k = choose|k: int|
                        0 <= k < upto.len() && (#[trigger] upto[k]).kind is BranchCount;
                    if k < i {
                        assert(before[k] == upto[k]);
                    }
                }
            }
            match &self.tests[i].kind {
                TestKind::CommitCount { .. } => {
                    commit_count = true;
                },
                TestKind::BranchCount { .. } => {
                    branch_count = true;
                },
                _ => {},
            }
            i += 1;
        }
        assert(self.checks().take(self.tests.len() as int) == self.checks());
        ScriptsNeeded { commit_count, branch_count }
    }
}

/// The workflow for the checks `tests` after the head `preamble`. Checks worth no
/// points are left out of it.
pub fn compile_workflow(preamble: &str, tests: Vec<AutoTest>) -> (r: String)
    ensures
        r@ == workflow(preamble@, graded(tests.deep_view())),
{
    let mut builder = YAMLAutograder::new();
    builder.set_preamble(String::from_str(preamble));
    builder.set_tests(tests);
    builder.compile()
}

} // verus!
