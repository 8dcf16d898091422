use autograder_setup::cli::{copy_numbers, count_up_to, InitArgs, RunConfig};

fn config(enabled: bool, explicit: Vec<u32>, legacy: Option<u32>) -> RunConfig {
    RunConfig {
        commit_counts_flag: enabled,
        require_commits: explicit,
        num_commit_checks: legacy,
        ..Default::default()
    }
}

#[test]
fn commit_thresholds_follow_the_precedence() {
    assert_eq!(config(true, vec![5, 10, 20], Some(4)).resolve_commit_thresholds(), vec![5, 10, 20]);
    assert_eq!(config(true, vec![], Some(3)).resolve_commit_thresholds(), vec![1, 2, 3]);
    assert_eq!(config(false, vec![1, 2, 3, 4, 5], Some(99)).resolve_commit_thresholds(), Vec::<u32>::new());
    assert_eq!(config(true, vec![], Some(0)).resolve_commit_thresholds(), Vec::<u32>::new());
    assert_eq!(config(true, vec![], None).resolve_commit_thresholds(), vec![1]);
    assert_eq!(config(false, vec![], None).resolve_commit_thresholds(), Vec::<u32>::new());
    assert_eq!(config(true, vec![20, 5, 5], None).resolve_commit_thresholds(), vec![20, 5, 5]);
}

#[test]
fn numbers_are_counted_and_copied() {
    assert_eq!(count_up_to(0), Vec::<u32>::new());
    assert_eq!(count_up_to(1), vec![1]);
    assert_eq!(count_up_to(5), vec![1, 2, 3, 4, 5]);
    assert_eq!(copy_numbers(&vec![3, 1, 2]), vec![3, 1, 2]);
}

#[test]
fn default_config_switches_every_check_off() {
    let c = RunConfig::default();
    assert_eq!(c.root, "");
    assert_eq!(c.tests_dir_name, ".");
    assert_eq!(c.num_points, 1);
    assert!(!c.style_check);
    assert!(!c.commit_counts_flag);
    assert_eq!(c.num_commit_checks, None);
    assert_eq!(c.require_tests, 0);
    assert!(c.require_commits.is_empty());
    assert!(c.require_branches.is_empty());
}

fn args(root: &str, tests_dir: &str) -> InitArgs {
    InitArgs {
        root: root.into(),
        tests_dir: tests_dir.into(),
        default_points: 3,
        no_style_check: true,
        no_commit_count: false,
        num_commit_checks: Some(7),
        require_commits: vec![2],
        require_branches: vec![4, 6],
        require_tests: 5,
    }
}

#[test]
fn config_is_made_from_the_arguments() {
    let c = RunConfig::from(args("proj", "t"));
    assert_eq!(c.root, "proj");
    assert_eq!(c.tests_dir_name, "t");
    assert_eq!(c.num_points, 3);
    assert!(!c.style_check);
    assert!(c.commit_counts_flag);
    assert_eq!(c.num_commit_checks, Some(7));
    assert_eq!(c.require_tests, 5);
    assert_eq!(c.require_commits, vec![2]);
    assert_eq!(c.require_branches, vec![4, 6]);
}

#[test]
fn tests_are_sought_in_the_root_when_only_the_root_is_given() {
    assert_eq!(RunConfig::from(args("proj", ".")).tests_dir_name, "proj");
    assert_eq!(RunConfig::from(args(".", ".")).tests_dir_name, ".");
    assert_eq!(RunConfig::from(args(".", "t")).tests_dir_name, "t");
}
