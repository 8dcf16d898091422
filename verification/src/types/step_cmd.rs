//! The command of a step, told apart by what the step does.
use crate::text::as_deref;
use crate::types::command_makers::{
    cargo_test_cmd, cargo_test_command, clippy_cmd, clippy_command, commit_count_cmd,
    script_command, test_count_cmd, test_count_command,
};
use crate::utils::scripts::COMMIT_COUNT_SCRIPT_NAME;
use vstd::prelude::*;

verus! {

/// What a step runs.
#[derive(Debug, Clone)]
pub enum StepCmd {
    /// One test function.
    CargoTest { function_name: String, manifest_path: Option<String> },
    /// The lint check.
    ClippyCheck { manifest_path: Option<String> },
    /// The check for a number of commits.
    CommitCount { name: String, min: u32 },
    /// The check for a number of tests.
    TestCount { manifest_path: Option<String>, min: u32 },
}

/// A `StepCmd` as a mathematical value.
pub enum StepCmdView {
    CargoTest { function_name: Seq<char>, manifest_path: Option<Seq<char>> },
    ClippyCheck { manifest_path: Option<Seq<char>> },
    CommitCount { name: Seq<char>, min: u32 },
    TestCount { manifest_path: Option<Seq<char>>, min: u32 },
}

impl DeepView for StepCmd {
    type V = StepCmdView;

    open spec fn deep_view(&self) -> StepCmdView {
        match *self {
            StepCmd::CargoTest { function_name, manifest_path } => StepCmdView::CargoTest {
                function_name: function_name@,
                manifest_path: manifest_path.deep_view(),
            },
            StepCmd::ClippyCheck { manifest_path } => StepCmdView::ClippyCheck {
                manifest_path: manifest_path.deep_view(),
            },
            StepCmd::CommitCount { name, min } => StepCmdView::CommitCount { name: name@, min },
            StepCmd::TestCount { manifest_path, min } => StepCmdView::TestCount {
                manifest_path: manifest_path.deep_view(),
                min,
            },
        }
    }
}

/// The command line of a step.
pub open spec fn step_command(cmd: StepCmdView) -> Seq<char> {
    match cmd {
        StepCmdView::CargoTest { function_name, manifest_path } => cargo_test_command(
            function_name,
            manifest_path,
        ),
        StepCmdView::ClippyCheck { manifest_path } => clippy_command(manifest_path),
        StepCmdView::CommitCount { min, .. } => script_command(
            COMMIT_COUNT_SCRIPT_NAME@,
            min as nat,
        ),
        StepCmdView::TestCount { manifest_path, min } => test_count_command(
            min as nat,
            manifest_path,
        ),
    }
}

impl StepCmd {
    /// The command line of the step.
    pub fn command(&self) -> (r: String)
        ensures
            r@ == step_command(self.deep_view()),
    {
        match self {
            StepCmd::CargoTest { function_name, manifest_path } => cargo_test_cmd(
                function_name.as_str(),
                as_deref(manifest_path),
            ),
            StepCmd::ClippyCheck { manifest_path } => clippy_cmd(as_deref(manifest_path)),
            StepCmd::CommitCount { min, .. } => commit_count_cmd(min),
            StepCmd::TestCount { manifest_path, min } => test_count_cmd(
                *min,
                as_deref(manifest_path),
            ),
        }
    }
}

} // verus!
