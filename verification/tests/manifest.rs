use autograder_setup::manifest::{
    check_from_json, check_to_json, checks_from_json, checks_to_json, manifest_text,
    read_autograder_config, Json, ManifestError,
};
use autograder_setup::types::{AutoTest, TestKind, TestMeta};

fn check(name: &str, description: &str, points: u32, timeout: u64, kind: TestKind) -> AutoTest {
    AutoTest {
        meta: TestMeta {
            name: name.into(),
            description: description.into(),
            points,
            timeout,
        },
        kind,
    }
}

fn all_kinds() -> Vec<AutoTest> {
    vec![
        check("a", "doc \"a\"\n", 1, 10, TestKind::CargoTest { manifest_path: None }),
        check("b", "", 0, 20, TestKind::CargoTest { manifest_path: Some("m/Cargo.toml".into()) }),
        check("CLIPPY_STYLE_CHECK", "x", 2, 10, TestKind::Clippy { manifest_path: None }),
        check("CLIPPY_STYLE_CHECK_M", "y", 2, 10, TestKind::Clippy { manifest_path: Some("m/Cargo.toml".into()) }),
        check("COMMIT_COUNT_5", "Ensures at least ## commits.", 1, 10, TestKind::CommitCount { min_commits: 5 }),
        check("BRANCH_COUNT_2", "Ensures at least ## branches.", 1, 10, TestKind::BranchCount { min_branches: 2 }),
        check("TEST_COUNT", "z", 4294967295, 18446744073709551615, TestKind::TestCount { min_tests: 3, manifest_path: None }),
        check("TEST_COUNT_M/CARGO.TOML", "w", 1, 0, TestKind::TestCount { min_tests: 4294967295, manifest_path: Some("m/Cargo.toml".into()) }),
    ]
}

fn same(a: &[AutoTest], b: &[AutoTest]) -> bool {
    format!("{:?}", a) == format!("{:?}", b)
}

#[test]
fn manifest_round_trips_through_its_text() {
    let checks = all_kinds();
    let text = manifest_text(&checks).expect("printed");
    let back = read_autograder_config(&text).expect("read");
    assert!(same(&checks, &back));
}

#[test]
fn manifest_round_trips_through_its_json() {
    let checks = all_kinds();
    let back = checks_from_json(&checks_to_json(&checks)).expect("read");
    assert!(same(&checks, &back));
    for (i, c) in checks.iter().enumerate() {
        let one = check_from_json(&check_to_json(c), i).expect("read");
        assert_eq!(format!("{:?}", c), format!("{:?}", one));
    }
}

#[test]
fn manifest_text_is_written_exactly() {
    let checks = vec![
        check("a", "d", 1, 10, TestKind::CargoTest { manifest_path: None }),
        check("t", "", 2, 10, TestKind::TestCount { min_tests: 3, manifest_path: Some("m/Cargo.toml".into()) }),
    ];
    let text = manifest_text(&checks).expect("printed");
    let expected = r#"[
  {
    "meta": {
      "name": "a",
      "description": "d",
      "points": 1,
      "timeout": 10
    },
    "type": "cargo_test"
  },
  {
    "meta": {
      "name": "t",
      "description": "",
      "points": 2,
      "timeout": 10
    },
    "type": "test_count",
    "min_tests": 3,
    "manifest_path": "m/Cargo.toml"
  }
]"#;
    assert_eq!(text, expected);
    assert!(!text.contains("null"));
}

#[test]
fn read_autograder_config_parses_valid_json_and_errors_on_invalid() {
    let v = read_autograder_config(
        r#"[{
              "meta":{"name":"a","timeout":10,"points":1,"description":"test a"},
              "type":"cargo_test"
            },{
              "meta":{"name":"b","timeout":20,"points":0,"description":""},
              "type":"clippy"
            }]"#,
    )
    .expect("valid");
    assert_eq!(v.len(), 2);
    assert_eq!(v[0].meta.name, "a");
    assert_eq!(v[1].meta.points, 0);

    let err = read_autograder_config("not json").unwrap_err();
    let msg = match err {
        ManifestError::Syntax { message } => message,
        other => panic!("unexpected error: {:?}", other),
    };
    assert!(
        msg.contains("expected value") || msg.contains("EOF") || msg.contains("at line"),
        "unexpected error: {msg}"
    );
}

#[test]
fn manifest_errors_name_what_is_wrong() {
    assert!(matches!(read_autograder_config("[]"), Err(ManifestError::Empty)));
    assert!(matches!(read_autograder_config("{}"), Err(ManifestError::NotAList)));
    assert!(matches!(read_autograder_config("[1]"), Err(ManifestError::Malformed { index: 0 })));

    let ok = r#"{"meta":{"name":"a","timeout":10,"points":1,"description":""},"type":"cargo_test"}"#;
    let cases = [
        // no description
        r#"{"meta":{"name":"a","timeout":10,"points":1},"type":"cargo_test"}"#,
        // points too large for 32 bits
        r#"{"meta":{"name":"a","timeout":10,"points":4294967296,"description":""},"type":"cargo_test"}"#,
        // points negative, points not whole
        r#"{"meta":{"name":"a","timeout":10,"points":-1,"description":""},"type":"cargo_test"}"#,
        r#"{"meta":{"name":"a","timeout":10,"points":1.5,"description":""},"type":"cargo_test"}"#,
        // no kind, unknown kind
        r#"{"meta":{"name":"a","timeout":10,"points":1,"description":""}}"#,
        r#"{"meta":{"name":"a","timeout":10,"points":1,"description":""},"type":"other"}"#,
        // a threshold check without its threshold
        r#"{"meta":{"name":"a","timeout":10,"points":1,"description":""},"type":"commit_count"}"#,
        // a manifest path that is no text
        r#"{"meta":{"name":"a","timeout":10,"points":1,"description":""},"type":"clippy","manifest_path":3}"#,
    ];
    for bad in cases {
        let text = format!("[{},{}]", ok, bad);
        assert!(
            matches!(read_autograder_config(&text), Err(ManifestError::Malformed { index: 1 })),
            "{}",
            bad
        );
    }

    let stray = r#"[{"meta":{"name":"a","timeout":10,"points":1,"description":""},"type":"cargo_test","min_commits":3}]"#;
    match read_autograder_config(stray) {
        Err(ManifestError::Validation { index, field }) => {
            assert_eq!(index, 0);
            assert_eq!(field, "min_commits");
        }
        other => panic!("unexpected: {:?}", other),
    }
    let stray = r#"[{"meta":{"name":"a","timeout":10,"points":1,"description":""},"type":"commit_count","min_commits":3,"min_tests":1}]"#;
    assert!(matches!(
        read_autograder_config(stray),
        Err(ManifestError::Validation { index: 0, field }) if field == "min_tests"
    ));
}

#[test]
fn manifest_reader_takes_null_and_unknown_fields() {
    let text = r#"[{"extra":[1,{"k":null}],"manifest_path":null,"type":"test_count","min_tests":2,
        "meta":{"description":"d","points":1,"name":"n","timeout":5,"more":true}}]"#;
    let v = read_autograder_config(text).expect("valid");
    assert_eq!(v.len(), 1);
    assert_eq!(v[0].meta.name, "n");
    assert!(matches!(v[0].kind, TestKind::TestCount { min_tests: 2, manifest_path: None }));
}

#[test]
fn later_field_of_one_name_counts() {
    let fields = vec![
        ("type".to_string(), Json::Text("clippy".into())),
        (
            "meta".to_string(),
            Json::Object(vec![
                ("name".to_string(), Json::Text("first".into())),
                ("name".to_string(), Json::Text("second".into())),
                ("description".to_string(), Json::Text("".into())),
                ("points".to_string(), Json::Number(1)),
                ("timeout".to_string(), Json::Number(1)),
            ]),
        ),
    ];
    let t = check_from_json(&Json::Object(fields), 0).expect("valid");
    assert_eq!(t.meta.name, "second");
}
