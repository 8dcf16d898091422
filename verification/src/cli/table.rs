//! The table of checks for the README of an assignment.
use crate::text::lemma_deep_view_push;
use crate::types::{row_of, AutoTest, AutoTestView};
use vstd::prelude::*;
use vstd::string::StringExecFns;

verus! {

/// What is done with the table.
#[derive(Debug, Clone, Copy, PartialEq, Eq, Structural)]
pub struct TableOutput {
    /// The table goes to the clipboard.
    pub copy: bool,
    /// The table is printed.
    pub print: bool,
    /// The table is added to the README.
    pub append: bool,
}

/// What is done with the table: it goes to the clipboard where that is wanted and the
/// README is not, and is printed otherwise; it is added to the README where that is
/// wanted.
pub fn table_output(to_clipboard: bool, write_to_readme: bool) -> (r: TableOutput)
    ensures
        r.copy == (to_clipboard && !write_to_readme),
        r.print == !r.copy,
        r.append == write_to_readme,
{
    let copy = to_clipboard && !write_to_readme;
    TableOutput { copy, print: !copy, append: write_to_readme }
}

/// The heading under which the table stands in the README.
pub open spec fn readme_heading() -> Seq<char> {
    "\n## Autograder Test Cases\n\n"@
}

/// What is added to the README: the heading, and the table after it.
pub fn readme_section(table: &str) -> (r: String)
    ensures
        r@ == readme_heading() + table@,
{
    let mut out = String::from_str("\n## Autograder Test Cases\n\n");
    out.append(table);
    out
}

/// The rows of the table, one for each check, in order.
pub fn table_rows(tests: &Vec<AutoTest>) -> (r: Vec<Vec<String>>)
    ensures
        r.deep_view() == tests.deep_view().map_values(|t: AutoTestView| row_of(t)),
{
    let ghost want = tests.deep_view().map_values(|t: AutoTestView| row_of(t));
    let mut out: Vec<Vec<String>> = Vec::new();
    let mut i: usize = 0;
    assert(out.deep_view() =~= want.take(0));
    while i < tests.len()
        invariant
            i <= tests.len(),
            want == tests.deep_view().map_values(|t: AutoTestView| row_of(t)),
            out.deep_view() == want.take(i as int),
        decreases tests.len() - i,
    {
        let row = tests[i].column_values();
        let ghost before = out;
        out.push(row);
        proof {
            lemma_deep_view_push(before, out, row);
            assert(tests.deep_view()[i as int] == tests@[i as int].deep_view());
            assert(out.deep_view() =~= want.take(i + 1));
        }
        i += 1;
    }
    assert(want.take(tests.len() as int) == want);
    out
}

} // verus!
