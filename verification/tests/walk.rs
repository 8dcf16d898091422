use autograder_setup::utils::collect_rs_files_with_manifest;
use autograder_setup::utils::walk::{DirEntry, Directory};

fn file(path: &str) -> DirEntry {
    DirEntry::File { path: path.to_string() }
}

fn dir(manifest: Option<&str>, entries: Vec<DirEntry>) -> DirEntry {
    DirEntry::Dir { dir: Directory { manifest: manifest.map(|m| m.to_string()), entries } }
}

#[test]
fn collect_rs_files_finds_rs_recursively_and_ignores_others() {
    let root = Directory {
        manifest: None,
        entries: vec![
            file("/t/hello.rs"),
            file("/t/README.md"),
            dir(None, vec![
                file("/t/a/mod.rs"),
                dir(None, vec![file("/t/a/b/deep.rs"), file("/t/a/b/deep.txt")]),
            ]),
            DirEntry::Other,
        ],
    };
    let found = collect_rs_files_with_manifest(&root);
    let files: Vec<&str> = found.iter().map(|f| f.path.as_str()).collect();
    assert_eq!(files, vec!["/t/hello.rs", "/t/a/mod.rs", "/t/a/b/deep.rs"]);
    assert!(found.iter().all(|f| f.manifest_path.is_none()));
}

#[test]
fn collect_rs_files_empty_dir_is_ok() {
    let root = Directory { manifest: None, entries: vec![] };
    assert!(collect_rs_files_with_manifest(&root).is_empty());
}

#[test]
fn collect_rs_files_attaches_nearest_manifest() {
    let root = Directory {
        manifest: None,
        entries: vec![
            dir(Some("/t/a/Cargo.toml"), vec![
                file("/t/a/Cargo.toml"),
                file("/t/a/mod.rs"),
                dir(None, vec![file("/t/a/b/deep.rs")]),
                dir(Some("/t/a/c/Cargo.toml"), vec![file("/t/a/c/inner.rs")]),
                file("/t/a/after.rs"),
            ]),
            file("/t/root.rs"),
        ],
    };
    let found = collect_rs_files_with_manifest(&root);
    let pairs: Vec<(&str, Option<&str>)> = found
        .iter()
        .map(|f| (f.path.as_str(), f.manifest_path.as_deref()))
        .collect();
    assert_eq!(
        pairs,
        vec![
            ("/t/a/mod.rs", Some("/t/a/Cargo.toml")),
            ("/t/a/b/deep.rs", Some("/t/a/Cargo.toml")),
            ("/t/a/c/inner.rs", Some("/t/a/c/Cargo.toml")),
            ("/t/a/after.rs", Some("/t/a/Cargo.toml")),
            ("/t/root.rs", None),
        ]
    );
}
