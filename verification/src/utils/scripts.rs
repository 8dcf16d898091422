//! The helper scripts that threshold checks run, and the names they are written under.
use vstd::prelude::*;

verus! {

/// The file name of the script that counts commits.
pub const COMMIT_COUNT_SCRIPT_NAME: &'static str = "commit_count.sh";

/// The file name of the script that counts branches.
pub const BRANCH_COUNT_SCRIPT_NAME: &'static str = "branch_count.sh";

/// The file names of the helper scripts.
pub struct ScriptNames {
    pub commit_count: &'static str,
    pub branch_count: &'static str,
}

/// The file names under which the helper scripts are written.
pub fn script_names() -> (r: ScriptNames)
    ensures
        r.commit_count@ == COMMIT_COUNT_SCRIPT_NAME@,
        r.branch_count@ == BRANCH_COUNT_SCRIPT_NAME@,
{
    ScriptNames { commit_count: COMMIT_COUNT_SCRIPT_NAME, branch_count: BRANCH_COUNT_SCRIPT_NAME }
}

/// The script that passes where the history has at least the given number of commits.
pub const COMMIT_COUNT_SCRIPT_CONTENTS: &'static str = "#!/usr/bin/env bash\n# .autograder/commit_count.sh\nset -euo pipefail\n\n# Usage:\n#   bash .autograder/commit_count.sh 3\n#   MIN=3 bash .autograder/commit_count.sh\n\nMIN=\"${1:-${MIN:-0}}\"\n\n# Validate MIN\nif ! [[ \"$MIN\" =~ ^[0-9]+$ ]]; then\n  echo \"MIN must be a non-negative integer; got: '$MIN'\" >&2\n  exit 2\nfi\n\n# Ensure we're in a git repo\nif ! git rev-parse --git-dir >/dev/null 2>&1; then\n  echo \"Not a git repository (are you running inside the checkout?)\" >&2\n  exit 1\nfi\n\n# Warn if shallow (runner must checkout with fetch-depth: 0 for full history)\nif [ -f \"$(git rev-parse --git-dir)/shallow\" ]; then\n  echo \"Warning: shallow clone detected; commit count may be incomplete.\" >&2\nfi\n\n# Count commits\nCOUNT=$(git rev-list --count HEAD 2>/dev/null || echo 0)\n\nif [ \"$COUNT\" -ge \"$MIN\" ]; then\n  echo \"✅ Found $COUNT commits (min $MIN) — PASS\"\n  exit 0\nelse\n  echo \"❌ Found $COUNT commits (min $MIN) — FAIL\"\n  exit 1\nfi\n";

/// The script that passes where at least the given number of branches have commits.
pub const BRANCH_COUNT_SCRIPT_CONTENTS: &'static str = "#!/bin/bash\n\n# Git Branch Analysis Script\n# Usage: ./analyze_branches.sh [n_branches]\n\nshow_usage() {\n    echo \"Usage: $0 [n_branches]\"\n    echo \"\"\n    echo \"Checks how many unique branches have commits and prints results.\"\n    echo \"Exits 0 if at least n_branches exist, otherwise exits 1.\"\n    echo \"\"\n    echo \"Example:\"\n    echo \"  $0 5   # Require at least 5 branches with commits\"\n}\n\n# Get all unique branch names from commit history that had at least one commit\nget_unique_branches() {\n    git log --all --pretty=format:\"%D\" \\\n      | grep -o '[^,)]*' \\\n      | grep -v '^$' \\\n      | grep -v 'HEAD' \\\n      | sed 's/origin\\///' \\\n      | sort -u\n}\n\n# Parse argument\nif [ $# -ne 1 ]; then\n    show_usage\n    exit 1\nfi\n\nN_BRANCHES=$1\nif ! [[ $N_BRANCHES =~ ^[0-9]+$ ]]; then\n    echo \"Error: Argument must be a number\"\n    show_usage\n    exit 1\nfi\n\n# Count branches\nUNIQUE_BRANCHES=$(get_unique_branches)\nBRANCH_COUNT=$(echo \"$UNIQUE_BRANCHES\" | wc -l)\n\n# Always print status\necho \"🔎 Found $BRANCH_COUNT branches with commits\"\necho \"$UNIQUE_BRANCHES\"\n\n# Decide success/failure\nif [ $BRANCH_COUNT -ge $N_BRANCHES ]; then\n    echo \"✅ Success: At least $N_BRANCHES branches with commits\"\n    exit 0\nelse\n    echo \"❌ Failure: Only $BRANCH_COUNT branches found, need at least $N_BRANCHES\"\n    exit 1\nfi\n";

/// A helper script: the file name it is written under, and its text.
pub struct HelperScript {
    pub name: &'static str,
    pub contents: &'static str,
}

/// The script that commit checks run.
pub fn commit_count_script() -> (r: HelperScript)
    ensures
        r.name@ == COMMIT_COUNT_SCRIPT_NAME@,
        r.contents@ == COMMIT_COUNT_SCRIPT_CONTENTS@,
{
    HelperScript { name: COMMIT_COUNT_SCRIPT_NAME, contents: COMMIT_COUNT_SCRIPT_CONTENTS }
}

/// The script that branch checks run.
pub fn branch_count_script() -> (r: HelperScript)
    ensures
        r.name@ == BRANCH_COUNT_SCRIPT_NAME@,
        r.contents@ == BRANCH_COUNT_SCRIPT_CONTENTS@,
{
    HelperScript { name: BRANCH_COUNT_SCRIPT_NAME, contents: BRANCH_COUNT_SCRIPT_CONTENTS }
}

} // verus!
