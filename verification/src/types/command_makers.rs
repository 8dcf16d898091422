//! The command line that each kind of check runs.
use crate::text::{decimal, decimal_string, same_text, trim, trimmed};
use crate::utils::scripts::{BRANCH_COUNT_SCRIPT_NAME, COMMIT_COUNT_SCRIPT_NAME};
use vstd::prelude::*;
use vstd::string::StringExecFns;

verus! {

/// Whether a manifest path names the build unit at the root: it is empty, it is the
/// bare manifest file name, or it is a single dot.
pub open spec fn is_root_manifest_path(p: Seq<char>) -> bool {
    p.len() == 0 || p == "Cargo.toml"@ || p == "."@
}

/// The flag that points cargo at the manifest of a build unit other than the root's.
pub open spec fn manifest_flag_text(mp: Option<Seq<char>>) -> Option<Seq<char>> {
    match mp {
        Some(p) => if is_root_manifest_path(p) {
            None
        } else {
            Some("--manifest-path "@ + trimmed(p))
        },
        None => None,
    }
}

/// The command that runs the test function `function` of the build unit `mp`.
pub open spec fn cargo_test_command(function: Seq<char>, mp: Option<Seq<char>>) -> Seq<char> {
    match manifest_flag_text(mp) {
        Some(flag) => "cargo test "@ + trimmed(function) + " "@ + flag,
        None => "cargo test "@ + trimmed(function),
    }
}

/// The command that runs the lint check on the build unit `mp`. The flag stands
/// before the `--` that ends cargo's own arguments.
pub open spec fn clippy_command(mp: Option<Seq<char>>) -> Seq<char> {
    match manifest_flag_text(mp) {
        Some(flag) => "cargo clippy "@ + flag + " -- -D warnings"@,
        None => "cargo clippy -- -D warnings"@,
    }
}

/// The command that lists the tests of a build unit.
pub open spec fn test_list_command(mp: Option<Seq<char>>) -> Seq<char> {
    match manifest_flag_text(mp) {
        Some(flag) => "cargo test "@ + flag + " -- --list"@,
        None => "cargo test -- --list"@,
    }
}

/// The shell pipeline that fails when the build unit `mp` has fewer than `min` tests.
/// Each placeholder `##` in it stands for the number of tests that the grader itself
/// adds, which is filled in when the workflow is rendered.
pub open spec fn test_count_command(min: nat, mp: Option<Seq<char>>) -> Seq<char> {
    test_list_command(mp) + " | tail -1 | awk '{print $1}' | awk '{if ($1 < "@ + decimal(min)
        + "+##) {print \"Too few tests (\"$1-##\") expected "@ + decimal(min) + "\"; exit 1}}'"@
}

/// The command that runs the helper script named `script` with the threshold `min`.
pub open spec fn script_command(script: Seq<char>, min: nat) -> Seq<char> {
    "bash ./.autograder/"@ + script + " "@ + decimal(min)
}

fn is_root_manifest(p: &str) -> (r: bool)
    ensures
        r == is_root_manifest_path(p@),
{
    let empty = same_text(p, "");
    proof {
        reveal_strlit("");
        assert(""@ =~= Seq::<char>::empty());
        if p@.len() == 0 {
            assert(p@ =~= ""@);
        }
    }
    empty || same_text(p, "Cargo.toml") || same_text(p, ".")
}

fn manifest_flag(mp: Option<&str>) -> (r: Option<String>)
    ensures
        r.deep_view() == manifest_flag_text(mp.deep_view()),
{
    match mp {
        Some(p) => {
            if is_root_manifest(p) {
                None
            } else {
                let mut out = String::from_str("--manifest-path ");
                out.append(trim(p).as_str());
                Some(out)
            }
        },
        None => None,
    }
}

/// The command line that runs the test function `function`, in the build unit whose
/// manifest is `mp` where that is not the root's.
pub fn cargo_test_cmd(function: &str, mp: Option<&str>) -> (r: String)
    ensures
        r@ == cargo_test_command(function@, mp.deep_view()),
{
    let mut out = String::from_str("cargo test ");
    out.append(trim(function).as_str());
    match manifest_flag(mp) {
        Some(flag) => {
            out.append(" ");
            out.append(flag.as_str());
            assert(out@ == "cargo test "@ + trimmed(function@) + " "@ + flag@);
        },
        None => {},
    }
    out
}

/// The command line of the lint check, for the build unit whose manifest is `mp` where
/// that is not the root's.
pub fn clippy_cmd(mp: Option<&str>) -> (r: String)
    ensures
        r@ == clippy_command(mp.deep_view()),
{
    match manifest_flag(mp) {
        Some(flag) => {
            let mut out = String::from_str("cargo clippy ");
            out.append(flag.as_str());
            out.append(" -- -D warnings");
            out
        },
        None => String::from_str("cargo clippy -- -D warnings"),
    }
}

/// The shell pipeline that counts the tests of a build unit and fails below `min`.
pub fn test_count_cmd(min: u32, mp: Option<&str>) -> (r: String)
    ensures
        r@ == test_count_command(min as nat, mp.deep_view()),
{
    let mut out = match manifest_flag(mp) {
        Some(flag) => {
            let mut base = String::from_str("cargo test ");
            base.append(flag.as_str());
            base.append(" -- --list");
            base
        },
        None => String::from_str("cargo test -- --list"),
    };
    let number = decimal_string(min as u64);
    out.append(" | tail -1 | awk '{print $1}' | awk '{if ($1 < ");
    out.append(number.as_str());
    out.append("+##) {print \"Too few tests (\"$1-##\") expected ");
    out.append(number.as_str());
    out.append("\"; exit 1}}'");
    out
}

fn script_cmd(script: &str, min: u32) -> (r: String)
    ensures
        r@ == script_command(script@, min as nat),
{
    let mut out = String::from_str("bash ./.autograder/");
    out.append(script);
    out.append(" ");
    out.append(decimal_string(min as u64).as_str());
    out
}

/// The command line that checks for at least `min_commits` commits.
pub fn commit_count_cmd(min_commits: &u32) -> (r: String)
    ensures
        r@ == script_command(COMMIT_COUNT_SCRIPT_NAME@, *min_commits as nat),
{
    script_cmd(COMMIT_COUNT_SCRIPT_NAME, *min_commits)
}

/// The command line that checks for at least `min_branches` branches.
pub fn branch_count_cmd(min_branches: &u32) -> (r: String)
    ensures
        r@ == script_command(BRANCH_COUNT_SCRIPT_NAME@, *min_branches as nat),
{
    script_cmd(BRANCH_COUNT_SCRIPT_NAME, *min_branches)
}

} // verus!
