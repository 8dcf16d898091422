use autograder_setup::types::command_makers::{
    branch_count_cmd, cargo_test_cmd, clippy_cmd, commit_count_cmd, test_count_cmd,
};
use autograder_setup::types::{AutoTest, StepCmd, TestKind, TestMeta};
use autograder_setup::utils::scripts::{
    branch_count_script, commit_count_script, script_names, BRANCH_COUNT_SCRIPT_CONTENTS,
    COMMIT_COUNT_SCRIPT_CONTENTS,
};

fn check(name: &str, description: &str, points: u32, kind: TestKind) -> AutoTest {
    AutoTest {
        meta: TestMeta { name: name.into(), description: description.into(), points, timeout: 10 },
        kind,
    }
}

#[test]
fn cargo_test_command_names_the_manifest_of_a_member() {
    let t = check("unit_adds", "", 1, TestKind::CargoTest { manifest_path: Some("member/Cargo.toml".into()) });
    assert_eq!(t.command(), "cargo test unit_adds --manifest-path member/Cargo.toml");
    let t = check("unit_adds", "", 1, TestKind::CargoTest { manifest_path: None });
    assert_eq!(t.command(), "cargo test unit_adds");
    assert!(!t.command().contains("--manifest-path"));
}

#[test]
fn commands_leave_out_the_manifest_of_the_root() {
    for root in ["", "Cargo.toml", "."] {
        assert_eq!(cargo_test_cmd("f", Some(root)), "cargo test f");
        assert_eq!(clippy_cmd(Some(root)), "cargo clippy -- -D warnings");
        assert!(!test_count_cmd(1, Some(root)).contains("--manifest-path"));
    }
    assert_eq!(cargo_test_cmd("  f \n", None), "cargo test f");
    assert_eq!(cargo_test_cmd("f", Some(" m/Cargo.toml ")), "cargo test f --manifest-path m/Cargo.toml");
}

#[test]
fn clippy_command_puts_the_flag_before_the_separator() {
    assert_eq!(clippy_cmd(None), "cargo clippy -- -D warnings");
    assert_eq!(
        clippy_cmd(Some("m/Cargo.toml")),
        "cargo clippy --manifest-path m/Cargo.toml -- -D warnings"
    );
}

#[test]
fn test_count_command_is_a_pipeline() {
    assert_eq!(
        test_count_cmd(3, None),
        r#"cargo test -- --list | tail -1 | awk '{print $1}' | awk '{if ($1 < 3+##) {print "Too few tests ("$1-##") expected 3"; exit 1}}'"#
    );
    assert_eq!(
        test_count_cmd(12, Some("m/Cargo.toml")),
        r#"cargo test --manifest-path m/Cargo.toml -- --list | tail -1 | awk '{print $1}' | awk '{if ($1 < 12+##) {print "Too few tests ("$1-##") expected 12"; exit 1}}'"#
    );
}

#[test]
fn threshold_commands_run_the_helper_scripts() {
    assert_eq!(commit_count_cmd(&5), "bash ./.autograder/commit_count.sh 5");
    assert_eq!(branch_count_cmd(&0), "bash ./.autograder/branch_count.sh 0");
    let t = check("COMMIT_COUNT_7", "", 1, TestKind::CommitCount { min_commits: 7 });
    assert_eq!(t.command(), "bash ./.autograder/commit_count.sh 7");
    let t = check("BRANCH_COUNT_2", "", 1, TestKind::BranchCount { min_branches: 2 });
    assert_eq!(t.command(), "bash ./.autograder/branch_count.sh 2");
    let t = check("CLIPPY", "", 1, TestKind::Clippy { manifest_path: Some("m/Cargo.toml".into()) });
    assert_eq!(t.command(), "cargo clippy --manifest-path m/Cargo.toml -- -D warnings");
    let t = check("TEST_COUNT", "", 1, TestKind::TestCount { min_tests: 2, manifest_path: None });
    assert_eq!(t.command(), test_count_cmd(2, None));
}

#[test]
fn description_fills_the_placeholder_at_render_time() {
    let t = check("COMMIT_COUNT_5", "Ensures at least ## commits.", 1, TestKind::CommitCount { min_commits: 5 });
    assert_eq!(t.meta.description, "Ensures at least ## commits.");
    assert_eq!(t.resolved_description(), "Ensures at least 5 commits.");
    let t = check("BRANCH_COUNT_3", "## and ##", 1, TestKind::BranchCount { min_branches: 3 });
    assert_eq!(t.resolved_description(), "3 and 3");
    let t = check("TEST_COUNT", "at least ## tests", 1, TestKind::TestCount { min_tests: 4, manifest_path: None });
    assert_eq!(t.resolved_description(), "at least 4 tests");
    let t = check("a", "keeps ## here", 1, TestKind::CargoTest { manifest_path: None });
    assert_eq!(t.resolved_description(), "keeps ## here");
    let t = check("a", "a|b `c` \\d", 1, TestKind::Clippy { manifest_path: None });
    assert_eq!(t.resolved_description(), "a\\|b \\`c\\` \\\\d");
}

#[test]
fn rows_of_the_table_hold_name_points_and_description() {
    assert_eq!(AutoTest::column_names(), vec!["Name", "Points", "Description"]);
    let t = check("COMMIT_COUNT_5", "at least ## | commits", 12, TestKind::CommitCount { min_commits: 5 });
    assert_eq!(
        t.column_values(),
        vec!["`COMMIT_COUNT_5`".to_string(), "12".to_string(), "at least 5 \\| commits".to_string()]
    );
}

#[test]
fn step_commands_follow_the_same_rules() {
    let c = StepCmd::CargoTest { function_name: " f ".into(), manifest_path: Some("m/Cargo.toml".into()) };
    assert_eq!(c.command(), "cargo test f --manifest-path m/Cargo.toml");
    let c = StepCmd::CargoTest { function_name: "f".into(), manifest_path: Some("Cargo.toml".into()) };
    assert_eq!(c.command(), "cargo test f");
    let c = StepCmd::ClippyCheck { manifest_path: None };
    assert_eq!(c.command(), "cargo clippy -- -D warnings");
    let c = StepCmd::CommitCount { name: "COMMIT_COUNT_3".into(), min: 3 };
    assert_eq!(c.command(), "bash ./.autograder/commit_count.sh 3");
    let c = StepCmd::TestCount { manifest_path: Some("m/Cargo.toml".into()), min: 2 };
    assert_eq!(c.command(), test_count_cmd(2, Some("m/Cargo.toml")));
}

#[test]
fn helper_scripts_have_their_names_and_texts() {
    let names = script_names();
    assert_eq!(names.commit_count, "commit_count.sh");
    assert_eq!(names.branch_count, "branch_count.sh");
    let commit = commit_count_script();
    assert_eq!(commit.name, "commit_count.sh");
    assert_eq!(commit.contents, COMMIT_COUNT_SCRIPT_CONTENTS);
    assert!(commit.contents.starts_with("#!/usr/bin/env bash\n# .autograder/commit_count.sh\nset -euo pipefail\n"));
    assert!(commit.contents.contains("COUNT=$(git rev-list --count HEAD 2>/dev/null || echo 0)"));
    assert!(commit.contents.ends_with("  echo \"❌ Found $COUNT commits (min $MIN) — FAIL\"\n  exit 1\nfi\n"));
    let branch = branch_count_script();
    assert_eq!(branch.name, "branch_count.sh");
    assert_eq!(branch.contents, BRANCH_COUNT_SCRIPT_CONTENTS);
    assert!(branch.contents.starts_with("#!/bin/bash\n\n# Git Branch Analysis Script\n"));
    assert!(branch.contents.contains("      | sed 's/origin\\///' \\\n"));
    assert!(branch.contents.ends_with("need at least $N_BRANCHES\"\n    exit 1\nfi\n"));
}
