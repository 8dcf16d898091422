use autograder_setup::cli::init::run;
use autograder_setup::cli::init::scan::LoadedFile;
use autograder_setup::cli::init::InitError;
use autograder_setup::cli::RunConfig;
use autograder_setup::types::{AutoTest, TestKind};
use autograder_setup::utils::RustFile;

/// A project in memory: its source files, each with the manifest that governs it.
struct Harness {
    root: String,
    files: Vec<LoadedFile>,
}

impl Harness {
    fn new() -> Self {
        Self {
            root: "/tmp/project".to_string(),
            files: Vec::new(),
        }
    }

    fn add(&mut self, rel_path: &str, manifest: Option<String>, src: &str) {
        self.files.push(LoadedFile {
            file: RustFile {
                path: format!("{}/{}", self.root, rel_path),
                manifest_path: manifest,
            },
            source: src.to_string(),
        });
    }

    /// A root crate: `Cargo.toml` at the root, the source in `src/lib.rs`.
    fn write_root_crate(&mut self, src: &str, _package_name: &str) {
        let manifest = format!("{}/Cargo.toml", self.root);
        self.add("src/lib.rs", Some(manifest), src);
    }

    /// A member crate: its own `Cargo.toml`, the source in `<member>/src/lib.rs`.
    fn write_member_crate(&mut self, member: &str, src: &str) {
        let manifest = format!("{}/{}/Cargo.toml", self.root, member);
        self.add(&format!("{}/src/lib.rs", member), Some(manifest), src);
    }

    fn run(&self, build: impl FnOnce(&mut RunConfig)) -> Vec<AutoTest> {
        let mut cfg = RunConfig {
            tests_dir_name: self.root.clone(),
            ..Default::default()
        };
        cfg.root = self.root.clone();
        build(&mut cfg);
        run(&self.files, &cfg).expect("run() failed")
    }
}

fn commit_mins(items: &[AutoTest]) -> Vec<u32> {
    items
        .iter()
        .filter_map(|t| match t.kind {
            TestKind::CommitCount { min_commits } => Some(min_commits),
            _ => None,
        })
        .collect()
}

fn test_count_mins_by_manifest(items: &[AutoTest]) -> Vec<(Option<String>, u32)> {
    items
        .iter()
        .filter_map(|t| match &t.kind {
            TestKind::TestCount {
                min_tests,
                manifest_path,
            } => Some((manifest_path.clone(), *min_tests)),
            _ => None,
        })
        .collect()
}

fn has_member_named(items: &[AutoTest], needle: &str) -> bool {
    items.iter().any(|t| t.meta.name.contains(needle))
}

#[test]
fn creates_commit_steps_from_require_commits() {
    let mut h = Harness::new();
    h.write_root_crate("#[test] fn a() {}", "root");

    let items = h.run(|c| {
        c.commit_counts_flag = true;
        c.num_commit_checks = Some(0);
        c.require_commits = vec![5, 10, 20];
    });

    assert_eq!(commit_mins(&items), vec![5, 10, 20]);
}

#[test]
fn require_commits_overrides_num_commit_checks() {
    let mut h = Harness::new();
    h.write_root_crate("#[test] fn a() {}", "root");

    let items = h.run(|c| {
        c.commit_counts_flag = true;
        c.num_commit_checks = Some(4); // would expand to 1..=4, but must be ignored
        c.require_commits = vec![2, 8, 16]; // precedence
    });

    assert_eq!(commit_mins(&items), vec![2, 8, 16]);
}

#[test]
fn expands_num_commit_checks_when_require_commits_missing() {
    let mut h = Harness::new();
    h.write_root_crate("#[test] fn a() {}", "root");

    let items = h.run(|c| {
        c.commit_counts_flag = true;
        c.num_commit_checks = Some(3);
    });

    assert_eq!(commit_mins(&items), vec![1, 2, 3]);
}

#[test]
fn does_not_create_commit_steps_if_disabled() {
    let mut h = Harness::new();
    h.write_root_crate("#[test] fn a() {}", "root");

    let items = h.run(|c| {
        c.commit_counts_flag = false; // disabled
        c.num_commit_checks = Some(99); // ignored
        c.require_commits = vec![1, 2, 3, 4, 5]; // ignored
    });

    assert!(commit_mins(&items).is_empty());
}

#[test]
fn creates_single_test_count_step_for_root_when_required() {
    let mut h = Harness::new();
    h.write_root_crate("#[test] fn a() {}", "root");

    let items = h.run(|c| {
        c.require_tests = 3; // require at least 3 tests for root
    });

    let pairs = test_count_mins_by_manifest(&items);
    assert_eq!(pairs.len(), 1, "expected exactly one TEST_COUNT (root)");
    assert_eq!(pairs[0], (None, 3)); // None => root (no manifest_path stored)
    assert!(items.iter().any(|t| t.meta.name.contains("TEST_COUNT")));
}

#[test]
fn creates_test_count_steps_for_each_manifest_in_workspace() {
    let mut h = Harness::new();
    h.write_member_crate("member", "#[test] fn member_test() {}");
    h.write_root_crate("#[test] fn root_test() {}", "root");

    let items = h.run(|c| {
        c.num_points = 2;
        c.style_check = true;
        c.require_tests = 5;
    });

    let mut pairs = test_count_mins_by_manifest(&items);
    pairs.sort_by(|a, b| a.0.cmp(&b.0));
    assert_eq!(
        pairs,
        vec![(None, 5), (Some("member/Cargo.toml".into()), 5)]
    );

    assert!(items.iter().any(|t| t.meta.name == "TEST_COUNT"));
    assert!(has_member_named(&items, "MEMBER/CARGO.TOML"));
}

#[test]
fn manifest_lists_checks_in_the_fixed_order() {
    let mut h = Harness::new();
    h.write_member_crate("member", "/// adds\n#[test] fn member_test() {}");
    h.write_root_crate("#[test] fn root_test() {}", "root");

    let items = h.run(|c| {
        c.num_points = 2;
        c.style_check = true;
        c.commit_counts_flag = true;
        c.require_commits = vec![10, 5];
        c.require_branches = vec![2];
        c.require_tests = 4;
    });

    let names: Vec<&str> = items.iter().map(|t| t.meta.name.as_str()).collect();
    assert_eq!(
        names,
        vec![
            "member_test",
            "root_test",
            "CLIPPY_STYLE_CHECK",
            "CLIPPY_STYLE_CHECK_MEMBER",
            "COMMIT_COUNT_10",
            "COMMIT_COUNT_5",
            "BRANCH_COUNT_2",
            "TEST_COUNT",
            "TEST_COUNT_MEMBER/CARGO.TOML",
        ]
    );
    assert!(items.iter().all(|t| t.meta.points == 2 && t.meta.timeout == 10));
    assert_eq!(items[0].meta.description, "adds");
    assert!(matches!(&items[0].kind, TestKind::CargoTest { manifest_path: Some(p) } if p == "member/Cargo.toml"));
    assert!(matches!(&items[1].kind, TestKind::CargoTest { manifest_path: None }));
    assert_eq!(items[4].meta.description, "Ensures at least ## commits.");
    assert_eq!(items[4].resolved_description(), "Ensures at least 10 commits.");
    assert_eq!(items[6].meta.description, "Ensures at least ## branches.");
    assert_eq!(items[8].meta.description, "member submission has at least ## tests");
    assert_eq!(items[8].resolved_description(), "member submission has at least 4 tests");
}

#[test]
fn default_commit_threshold_is_one_when_nothing_is_configured() {
    let mut h = Harness::new();
    h.write_root_crate("#[test] fn a() {}", "root");
    let items = h.run(|c| {
        c.commit_counts_flag = true;
    });
    assert_eq!(commit_mins(&items), vec![1]);
}

#[test]
fn run_reports_each_failure() {
    let cfg = RunConfig::default();
    assert!(matches!(run(&Vec::new(), &cfg), Err(InitError::NoSourceFiles)));

    let mut h = Harness::new();
    h.add("src/lib.rs", None, "fn plain() {}");
    assert!(matches!(run(&h.files, &cfg), Err(InitError::NoTestsFound)));

    let mut h = Harness::new();
    h.add("src/ok.rs", None, "#[test] fn a() {}");
    h.add("src/bad.rs", None, "fn {");
    match run(&h.files, &cfg) {
        Err(InitError::ParseError { path, message }) => {
            assert_eq!(path, "/tmp/project/src/bad.rs");
            assert!(message.starts_with("failed to parse Rust source: "));
        }
        other => panic!("expected a parse error, got {:?}", other),
    }
}
