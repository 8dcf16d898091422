use autograder_setup::cli::build::build_functions::get_yaml_preamble;
use autograder_setup::cli::build::steps::{
    indent, indent_lines, CommandStep, CommandWith, ReporterStep,
};
use autograder_setup::cli::build::{compile_workflow, copy_check, render_command, YAMLAutograder};
use autograder_setup::utils::YAML_INDENT;
use autograder_setup::types::{AutoTest, TestKind, TestMeta};

fn check(name: &str, timeout: u64, points: u32, kind: TestKind) -> AutoTest {
    AutoTest {
        meta: TestMeta {
            name: name.into(),
            timeout,
            points,
            description: "".into(),
        },
        kind,
    }
}

#[test]
fn tests_run_generates_yaml_pruning_zero_point_and_using_exact_commands() {
    // 3 tests: two graded, one 0-point clippy which must be pruned
    let tests = vec![
        check("test_one", 30, 2, TestKind::CargoTest { manifest_path: None }),
        check("CLIPPY_STYLE_CHECK", 45, 0, TestKind::Clippy { manifest_path: None }),
        check("tokio_async_test", 40, 3, TestKind::CargoTest { manifest_path: None }),
    ];

    let yaml = compile_workflow(&get_yaml_preamble(true), tests);

    assert!(yaml.starts_with(&get_yaml_preamble(true)));
    assert!(yaml.contains(r#"- name: test_one"#));
    assert!(yaml.contains(r#"test-name: "test_one""#));
    assert!(yaml.contains(r#"command: "cargo test test_one""#));
    assert!(yaml.contains(r#"max-score: 2"#));

    assert!(yaml.contains(r#"- name: tokio_async_test"#));
    assert!(yaml.contains(r#"test-name: "tokio_async_test""#));
    assert!(yaml.contains(r#"command: "cargo test tokio_async_test""#));
    assert!(yaml.contains(r#"max-score: 3"#));

    // pruned 0-pt clippy
    assert!(!yaml.contains("CLIPPY_STYLE_CHECK"));
    assert!(!yaml.contains("cargo clippy -- -D warnings"));
    assert!(!yaml.contains("clippy-style-check"));
    assert!(!yaml.contains("CLIPPY-STYLE-CHECK"));

    // Reporter env/runners
    assert!(yaml.contains(r#"TEST-ONE_RESULTS: "${{steps.test-one.outputs.result}}""#));
    assert!(
        yaml.contains(r#"TOKIO-ASYNC-TEST_RESULTS: "${{steps.tokio-async-test.outputs.result}}""#)
    );
    assert!(yaml.contains("runners: test-one,tokio-async-test"));
}

#[test]
fn tests_compile_includes_clippy_command_when_points_positive() {
    let mut ya = YAMLAutograder::new();
    ya.set_preamble(String::new());
    ya.set_tests(vec![check(
        "CLIPPY_STYLE_CHECK",
        5,
        1,
        TestKind::Clippy { manifest_path: None },
    )]);

    let out = ya.compile();
    assert!(out.contains(r#"- name: CLIPPY_STYLE_CHECK"#));
    assert!(out.contains(r#"command: "cargo clippy -- -D warnings""#));
    assert!(out.contains(r#"max-score: 1"#));
    assert!(
        out.contains(
            r#"CLIPPY-STYLE-CHECK_RESULTS: "${{steps.clippy-style-check.outputs.result}}""#
        )
    );
    assert!(out.contains("runners: clippy-style-check"));
}

#[test]
fn build_compile_includes_clippy_command_when_points_positive() {
    // The same check, compiled twice by one builder: the second workflow is written
    // anew and not after the first.
    let mut ya = YAMLAutograder::new();
    ya.set_preamble(String::new());
    ya.set_tests(vec![check(
        "CLIPPY_STYLE_CHECK",
        5,
        1,
        TestKind::Clippy { manifest_path: None },
    )]);
    let first = ya.compile();
    let out = ya.compile();
    assert_eq!(first, out);

    assert!(out.contains(r#"- name: CLIPPY_STYLE_CHECK"#));
    assert!(out.contains(r#"command: "cargo clippy -- -D warnings""#));
    assert!(out.contains(r#"max-score: 1"#));
    assert!(out.contains(
        r#"CLIPPY-STYLE-CHECK_RESULTS: "${{steps.clippy-style-check.outputs.result}}""#
    ));
    assert!(out.contains("runners: clippy-style-check"));
}

#[test]
fn run_includes_manifest_path_when_present() {
    let tests = vec![
        check(
            "unit_adds",
            10,
            2,
            TestKind::CargoTest {
                manifest_path: Some("questions/q1/Cargo.toml".into()),
            },
        ),
        check("root_case", 10, 1, TestKind::CargoTest { manifest_path: None }),
    ];

    let yaml = compile_workflow(&get_yaml_preamble(true), tests);
    assert!(yaml.starts_with(&get_yaml_preamble(true)));

    // With manifest_path
    assert!(yaml.contains(r#"- name: unit_adds"#));
    assert!(yaml.contains(r#"test-name: "unit_adds""#));
    assert!(
        yaml.contains(r#"command: "cargo test unit_adds --manifest-path questions/q1/Cargo.toml""#)
    );
    assert!(yaml.contains(r#"max-score: 2"#));

    // Without manifest_path
    assert!(yaml.contains(r#"- name: root_case"#));
    assert!(yaml.contains(r#"test-name: "root_case""#));
    assert!(yaml.contains(r#"command: "cargo test root_case""#));
    assert!(!yaml.contains("root_case --manifest-path"));
    assert!(yaml.contains(r#"max-score: 1"#));

    // Reporter wiring
    assert!(yaml.contains(r#"UNIT-ADDS_RESULTS: "${{steps.unit-adds.outputs.result}}""#));
    assert!(yaml.contains(r#"ROOT-CASE_RESULTS: "${{steps.root-case.outputs.result}}""#));
    assert!(yaml.contains("runners: unit-adds,root-case"));
}

#[test]
fn workflow_is_written_exactly() {
    let tests = vec![
        check(" b test ", 7, 2, TestKind::CargoTest { manifest_path: Some("m/Cargo.toml".into()) }),
        check("a", 10, 1, TestKind::CargoTest { manifest_path: Some("m/Cargo.toml".into()) }),
        check("TEST_COUNT_M/CARGO.TOML", 10, 1, TestKind::TestCount { min_tests: 3, manifest_path: Some("m/Cargo.toml".into()) }),
        check("COMMIT_COUNT_5", 10, 1, TestKind::CommitCount { min_commits: 5 }),
    ];
    let yaml = compile_workflow("head\n", tests);
    let expected = "head\n\
\x20     - name: b test\n\
\x20       id: \"b-test\"\n\
\x20       uses: \"classroom-resources/autograding-command-grader@v1\"\n\
\x20       with:\n\
\x20         test-name: \"b test\"\n\
\x20         setup-command: \"\"\n\
\x20         command: \"cargo test b test --manifest-path m/Cargo.toml\"\n\
\x20         timeout: 7\n\
\x20         max-score: 2\n\
\n\
\x20     - name: a\n\
\x20       id: \"a\"\n\
\x20       uses: \"classroom-resources/autograding-command-grader@v1\"\n\
\x20       with:\n\
\x20         test-name: \"a\"\n\
\x20         setup-command: \"\"\n\
\x20         command: \"cargo test a --manifest-path m/Cargo.toml\"\n\
\x20         timeout: 10\n\
\x20         max-score: 1\n\
\n\
\x20     - name: TEST_COUNT_M/CARGO.TOML\n\
\x20       id: \"test-count-m-cargo-toml\"\n\
\x20       uses: \"classroom-resources/autograding-command-grader@v1\"\n\
\x20       with:\n\
\x20         test-name: \"TEST_COUNT_M/CARGO.TOML\"\n\
\x20         setup-command: \"\"\n\
\x20         command: \"cargo test --manifest-path m/Cargo.toml -- --list | tail -1 | awk '{print $1}' | awk '{if ($1 < 3+2) {print \\\"Too few tests (\\\"$1-2\\\") expected 3\\\"; exit 1}}'\"\n\
\x20         timeout: 10\n\
\x20         max-score: 1\n\
\n\
\x20     - name: COMMIT_COUNT_5\n\
\x20       id: \"commit-count-5\"\n\
\x20       uses: \"classroom-resources/autograding-command-grader@v1\"\n\
\x20       with:\n\
\x20         test-name: \"COMMIT_COUNT_5\"\n\
\x20         setup-command: \"\"\n\
\x20         command: \"bash ./.autograder/commit_count.sh 5\"\n\
\x20         timeout: 10\n\
\x20         max-score: 1\n\
\n\
\x20     - name: Autograding Reporter\n\
\x20       uses: classroom-resources/autograding-grading-reporter@v1\n\
\x20       env:\n\
\x20         A_RESULTS: \"${{steps.a.outputs.result}}\"\n\
\x20         B-TEST_RESULTS: \"${{steps.b-test.outputs.result}}\"\n\
\x20         COMMIT-COUNT-5_RESULTS: \"${{steps.commit-count-5.outputs.result}}\"\n\
\x20         TEST-COUNT-M-CARGO-TOML_RESULTS: \"${{steps.test-count-m-cargo-toml.outputs.result}}\"\n\
\x20       with:\n\
\x20         runners: b-test,a,test-count-m-cargo-toml,commit-count-5\n";
    assert_eq!(yaml, expected);
}

#[test]
fn reporter_keeps_one_entry_for_steps_of_one_name() {
    let tests = vec![
        check("same", 10, 1, TestKind::CargoTest { manifest_path: None }),
        check("same", 10, 1, TestKind::CargoTest { manifest_path: Some("m/Cargo.toml".into()) }),
    ];
    let yaml = compile_workflow("", tests);
    assert_eq!(yaml.matches("SAME_RESULTS").count(), 1);
    assert!(yaml.contains("runners: same,same\n"));
}

#[test]
fn preamble_names_the_events() {
    let dispatch_only = get_yaml_preamble(false);
    let with_push = get_yaml_preamble(true);
    assert!(dispatch_only.starts_with("name: Autograding Tests\non: [repository_dispatch]\n\npermissions:\n"));
    assert!(with_push.starts_with("name: Autograding Tests\non: [repository_dispatch, push]\n\npermissions:\n"));
    assert!(with_push.ends_with("        with:\n          components: clippy,rustfmt\n\n"));
    assert!(with_push.contains("          fetch-depth: 0\n    \n      - name: Install Rust toolchain\n"));
}

#[test]
fn steps_are_written_at_their_depth() {
    let mut buf = String::from("x\n");
    indent(&mut buf, 0, "a");
    indent(&mut buf, 2, "b");
    assert_eq!(buf, "x\na\n    b\n");

    let step = CommandStep {
        name: "n".into(),
        id: "i".into(),
        uses: "u".into(),
        with: CommandWith {
            test_name: "t \"q\"".into(),
            setup_command: "".into(),
            command: "c".into(),
            timeout: 0,
            max_score: 4294967295,
        },
    };
    let mut buf = String::new();
    step.write_to(&mut buf, 1);
    assert_eq!(
        buf,
        "  - name: n\n    id: \"i\"\n    uses: \"u\"\n    with:\n      test-name: \"t \\\"q\\\"\"\n      setup-command: \"\"\n      command: \"c\"\n      timeout: 0\n      max-score: 4294967295\n"
    );

    let reporter = ReporterStep {
        name: "r".into(),
        uses: "u".into(),
        env: vec![("K".into(), "v".into())],
        runners_csv: "a,b".into(),
    };
    let mut buf = String::new();
    reporter.write_to(&mut buf, 0);
    assert_eq!(buf, "- name: r\n  uses: u\n  env:\n    K: \"v\"\n  with:\n    runners: a,b\n");
}

#[test]
fn insert_autograder_string_respects_indentation_and_line_splitting() {
    let mut ya = YAMLAutograder::new();
    ya.set_preamble(String::new());
    ya.insert_autograder_string("foo".into(), 0);
    ya.insert_autograder_string("bar\nbaz".into(), 2);

    let out = ya.autograder_content.clone();
    // "foo" (no indent), then "bar"/"baz" each with two levels of indentation
    let expected_bar = format!("\n{}{}\n", YAML_INDENT.repeat(2), "bar");
    let expected_baz = format!("{}{}\n", YAML_INDENT.repeat(2), "baz");
    assert!(out.starts_with("foo\n"));
    assert!(out.contains(&expected_bar));
    assert!(out.ends_with(&expected_baz));
}

#[test]
fn lines_are_split_as_the_standard_library_splits_them() {
    for text in ["", "a", "a\n", "a\nb", "a\r\nb\r\n", "a\rb", "a\r", "\n", "\n\n", "\r\n", "a\n\nb", "\r\r\n", "x\n\r"] {
        let mut buf = String::from(">");
        indent_lines(&mut buf, 1, text);
        let mut expected = String::from(">");
        for line in text.lines() {
            expected.push_str(&format!("  {}\n", line));
        }
        assert_eq!(buf, expected, "{:?}", text);
    }
}

#[test]
fn scripts_are_needed_by_the_checks_that_run_them() {
    let mut ya = YAMLAutograder::new();
    let needed = ya.needed_scripts();
    assert!(!needed.commit_count && !needed.branch_count);
    ya.set_tests(vec![
        check("a", 10, 1, TestKind::CargoTest { manifest_path: None }),
        check("COMMIT_COUNT_1", 10, 1, TestKind::CommitCount { min_commits: 1 }),
        check("BRANCH_COUNT_1", 10, 0, TestKind::BranchCount { min_branches: 1 }),
    ]);
    let needed = ya.needed_scripts();
    assert!(needed.commit_count && !needed.branch_count);
    ya.set_tests(vec![check("BRANCH_COUNT_1", 10, 1, TestKind::BranchCount { min_branches: 1 })]);
    let needed = ya.needed_scripts();
    assert!(!needed.commit_count && needed.branch_count);
}

#[test]
fn steps_are_compiled_one_by_one() {
    let mut ya = YAMLAutograder::new();
    let t = check(" a b ", 10, 1, TestKind::CargoTest { manifest_path: None });
    ya.compile_test_step(&t, "run \"it\"");
    assert_eq!(ya.ids, vec!["a-b"]);
    assert!(ya.autograder_content.ends_with("          max-score: 1\n\n"));
    assert!(ya.autograder_content.contains("          command: \"run \\\"it\\\"\"\n"));
    ya.compile_test_reporter();
    assert!(ya.autograder_content.ends_with("          runners: a-b\n"));
    assert_eq!(render_command(&t, &vec![]), "cargo test a b");
    let copy = copy_check(&t);
    assert_eq!(format!("{:?}", copy), format!("{:?}", t));
}
