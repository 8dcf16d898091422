use autograder_setup::cli::textparsers::{
    captured_names, checks_for_names, extract_test_names, names_of_all, run_by_pattern,
    strip_comments, PatternScanError,
};
use autograder_setup::types::TestKind;

#[test]
fn basic_test_extraction_functionality() {
    let src = r#"
    // This is a test file
    #[test]
    fn test_one() {
        assert_eq!(1, 1);
    }

    #[tokio::test]
    async fn test_two() {
        assert_eq!(2, 2);
    }

    #[cfg(test)]
    mod tests {
        #[test]
        fn test_three() {
            assert_eq!(3, 3);
        }
    }

    /* 
    #[test]
    fn commented_out() {
        assert_eq!(0, 0);
    }
    */

    // Another comment
    "#;
    let test_names = extract_test_names(src).expect("patterns");
    assert_eq!(test_names, vec!["test_one", "test_two", "test_three"]);
}

#[test]
fn strip_comments_takes_out_block_and_line_comments() {
    assert_eq!(strip_comments("a /* b */ c").expect("patterns"), "a  c");
    assert_eq!(strip_comments("a // b\nc").expect("patterns"), "a \nc");
    assert_eq!(strip_comments("a /* b\n b */ c /* d */ e").expect("patterns"), "a  c  e");
    // A block comment that opens inside a line comment is still a block comment.
    assert_eq!(strip_comments("/* // */ x // y /* z\nw */").expect("patterns"), " x ");
    assert_eq!(strip_comments("x // y */\nw").expect("patterns"), "x \nw");
    assert_eq!(strip_comments("no comments").expect("patterns"), "no comments");
    assert_eq!(strip_comments("").expect("patterns"), "");
}

#[test]
fn extract_test_names_goes_by_the_text() {
    let found = extract_test_names("#[test] pub async fn a() {}\n#[my::attr(test)]\nfn b() {}\n#[allow(x)] fn c() {}")
        .expect("patterns");
    assert_eq!(found, vec!["a", "b"]);
    // The search by text takes any attribute that holds the word.
    let found = extract_test_names("#[cfg(test)] fn helper() {}").expect("patterns");
    assert_eq!(found, vec!["helper"]);
    assert!(extract_test_names("// #[test]\n// fn gone() {}").expect("patterns").is_empty());
}

#[test]
fn captured_names_keeps_the_groups_that_took_part() {
    let groups = vec![Some("a".to_string()), None, Some("b".to_string()), None];
    assert_eq!(captured_names(&groups), vec!["a", "b"]);
    assert!(captured_names(&vec![None, None]).is_empty());
    assert!(captured_names(&vec![]).is_empty());
}

#[test]
fn names_of_all_files_are_sorted_and_distinct() {
    let sources = vec![
        "#[test] fn zeta() {}\n#[test] fn alpha() {}".to_string(),
        "fn plain() {}".to_string(),
        "#[tokio::test] async fn alpha() {}\n#[test] fn Beta() {}".to_string(),
    ];
    assert_eq!(names_of_all(&sources).expect("patterns"), vec!["Beta", "alpha", "zeta"]);
    assert!(names_of_all(&vec![]).expect("patterns").is_empty());
}

#[test]
fn manifest_by_pattern_has_a_check_for_each_name() {
    let sources = vec!["#[test] fn b() {}\n#[test] fn a() {}".to_string()];
    let items = run_by_pattern(&sources, 3, true).expect("manifest");
    let names: Vec<&str> = items.iter().map(|t| t.meta.name.as_str()).collect();
    assert_eq!(names, vec!["a", "b", "CLIPPY_STYLE_CHECK"]);
    assert!(items.iter().all(|t| t.meta.points == 3 && t.meta.timeout == 10));
    assert!(matches!(&items[0].kind, TestKind::CargoTest { manifest_path: None }));
    assert!(matches!(&items[2].kind, TestKind::Clippy { manifest_path: None }));
    assert_eq!(items[0].meta.description, "");

    let items = run_by_pattern(&sources, 0, false).expect("manifest");
    assert_eq!(items.len(), 2);
    assert!(items.iter().all(|t| t.meta.points == 0));

    assert_eq!(run_by_pattern(&vec![], 1, true).unwrap_err(), PatternScanError::NoSourceFiles);
    assert_eq!(
        run_by_pattern(&vec!["fn plain() {}".to_string()], 1, true).unwrap_err(),
        PatternScanError::NoTestsFound
    );
    assert_eq!(checks_for_names(&vec![], 1, false).len(), 0);
    assert_eq!(checks_for_names(&vec!["x".to_string()], 1, true).len(), 2);
}
