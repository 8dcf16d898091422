use autograder_setup::cli::init::functions::manifest_dir_label;
use autograder_setup::utils::paths::{is_rust_file, join_path};
use autograder_setup::utils::{get_tests_dir, to_rel_unix_path};

#[test]
fn to_rel_unix_path_strips_the_root() {
    assert_eq!(to_rel_unix_path("/r", "/r/member/Cargo.toml"), "member/Cargo.toml");
    assert_eq!(to_rel_unix_path("/r/", "/r/member/Cargo.toml"), "member/Cargo.toml");
    assert_eq!(to_rel_unix_path("/r", "/r/Cargo.toml"), "Cargo.toml");
    assert_eq!(to_rel_unix_path(".", "./a/b/Cargo.toml"), "a/b/Cargo.toml");
    assert_eq!(to_rel_unix_path("/r", "/r"), "");
    assert_eq!(to_rel_unix_path("/r", "/r//x"), "x");
}

#[test]
fn to_rel_unix_path_keeps_what_is_not_under_the_root() {
    assert_eq!(to_rel_unix_path("/r", "/other/Cargo.toml"), "/other/Cargo.toml");
    assert_eq!(to_rel_unix_path("/r", "/rest/Cargo.toml"), "/rest/Cargo.toml");
    assert_eq!(to_rel_unix_path("", "a/Cargo.toml"), "a/Cargo.toml");
    assert_eq!(to_rel_unix_path("", "/a/Cargo.toml"), "/a/Cargo.toml");
    assert_eq!(to_rel_unix_path("/r/long", "/r"), "/r");
    assert_eq!(to_rel_unix_path("/r", "Cargo.toml"), "Cargo.toml");
}

#[test]
fn to_rel_unix_path_writes_slashes() {
    assert_eq!(to_rel_unix_path("C:\\proj", "C:\\proj\\member\\Cargo.toml"), "member/Cargo.toml");
    assert_eq!(to_rel_unix_path("C:\\proj", "D:\\x\\Cargo.toml"), "D:/x/Cargo.toml");
    assert_eq!(to_rel_unix_path("a/b", "a\\b\\c"), "c");
}

#[test]
fn manifest_dir_label_names_the_directory() {
    assert_eq!(manifest_dir_label("Cargo.toml"), ".");
    assert_eq!(manifest_dir_label("member/Cargo.toml"), "member");
    assert_eq!(manifest_dir_label("a/b/Cargo.toml"), "b");
    assert_eq!(manifest_dir_label("a//b//Cargo.toml"), "b");
    assert_eq!(manifest_dir_label("a/b/Cargo.toml/"), "b");
    assert_eq!(manifest_dir_label("/Cargo.toml"), ".");
    assert_eq!(manifest_dir_label("./Cargo.toml"), ".");
    assert_eq!(manifest_dir_label("x/../Cargo.toml"), ".");
    assert_eq!(manifest_dir_label(""), ".");
    assert_eq!(manifest_dir_label("other.toml"), ".");
    assert_eq!(manifest_dir_label("Cargo.toml/Cargo.toml"), "Cargo.toml");
}

#[test]
fn manifest_dir_label_agrees_with_the_standard_library() {
    for path in ["member/Cargo.toml", "a/b/Cargo.toml", "/abs/dir/Cargo.toml", "x/../Cargo.toml", "/Cargo.toml", "deep/er/est/Cargo.toml"] {
        let expected = std::path::Path::new(path)
            .parent()
            .and_then(|p| p.file_name())
            .map(|s| s.to_string_lossy().into_owned())
            .unwrap_or_else(|| ".".into());
        assert_eq!(manifest_dir_label(path), expected, "{}", path);
    }
}

#[test]
fn get_tests_dir_never_joins_a_directory_to_itself() {
    assert_eq!(get_tests_dir("proj", "proj", true), "proj");
    assert_eq!(get_tests_dir(".", ".", true), ".");
    assert_eq!(get_tests_dir("proj", "tests", false), "proj/tests");
    assert_eq!(get_tests_dir("proj/", "tests", false), "proj/tests");
    assert_eq!(get_tests_dir("proj", "/abs/tests", false), "/abs/tests");
    assert_eq!(get_tests_dir("", "tests", false), "tests");
}

#[test]
fn join_path_agrees_with_the_standard_library() {
    for (base, name) in [("a", "b"), ("a/", "b"), ("", "b"), ("a", "/b"), ("a/b", "c/d"), (".", "x")] {
        let expected = std::path::Path::new(base).join(name);
        assert_eq!(join_path(base, name), expected.to_string_lossy(), "{} {}", base, name);
    }
}

#[test]
fn is_rust_file_goes_by_the_extension() {
    for (path, expected) in [
        ("a.rs", true),
        ("dir/a.rs", true),
        ("dir/a.b.rs", true),
        ("..rs", true),
        (".rs", false),
        ("dir/.rs", false),
        ("rs", false),
        ("a.rss", false),
        ("a.RS", false),
        ("a.rs.txt", false),
        ("", false),
    ] {
        assert_eq!(is_rust_file(path), expected, "{}", path);
        let std_says = std::path::Path::new(path).extension().map(|e| e == "rs").unwrap_or(false);
        assert_eq!(is_rust_file(path), std_says, "{}", path);
    }
}
