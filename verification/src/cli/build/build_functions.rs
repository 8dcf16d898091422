//! The head of the workflow file.
use vstd::prelude::*;
use vstd::string::StringExecFns;

verus! {

/// The events that start the workflow: a request to grade, and a push where grading
/// on push is wanted.
pub open spec fn triggers(on_push: bool) -> Seq<char> {
    if on_push {
        "repository_dispatch, push"@
    } else {
        "repository_dispatch"@
    }
}

/// What stands in the head of the workflow file before the events.
pub open spec fn preamble_head() -> Seq<char> {
    "name: Autograding Tests\non: ["@
}

/// What stands in the head of the workflow file after the events.
pub open spec fn preamble_tail() -> Seq<char> {
    "]\n\npermissions:\n  checks: write\n  actions: read\n  contents: read\n\njobs:\n  run-autograding-tests:\n    runs-on: ubuntu-latest\n    if: github.actor != 'github-classroom[bot]'\n    steps:\n      - name: Checkout code\n        uses: actions/checkout@v4\n        with:\n          # Checkout with fetch depth 0 to get a full git history for commit counting\n          fetch-depth: 0\n    \n      - name: Install Rust toolchain\n        uses: dtolnay/rust-toolchain@stable\n        with:\n          components: clippy,rustfmt\n\n"@
}

/// The head of the workflow file: its name, the events that start it, and the steps
/// that prepare grading.
pub fn get_yaml_preamble(on_push: bool) -> (r: String)
    ensures
        r@ == preamble_head() + triggers(on_push) + preamble_tail(),
{
    let mut out = String::from_str("name: Autograding Tests\non: [");
    if on_push {
        out.append("repository_dispatch, push");
    } else {
        out.append("repository_dispatch");
    }
    out.append(
        "]\n\npermissions:\n  checks: write\n  actions: read\n  contents: read\n\njobs:\n  run-autograding-tests:\n    runs-on: ubuntu-latest\n    if: github.actor != 'github-classroom[bot]'\n    steps:\n      - name: Checkout code\n        uses: actions/checkout@v4\n        with:\n          # Checkout with fetch depth 0 to get a full git history for commit counting\n          fetch-depth: 0\n    \n      - name: Install Rust toolchain\n        uses: dtolnay/rust-toolchain@stable\n        with:\n          components: clippy,rustfmt\n\n",
    );
    out
}

} // verus!
