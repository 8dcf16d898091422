//! A search for test functions in the bare text of a source file, by patterns. It is
//! coarser than the search of `init::scan`: it may miss tests and may name functions
//! that are none.
use crate::cli::init::clippy_checks;
use crate::cli::init::functions::{clippy_autotests, DEFAULT_TIMEOUT};
use crate::sorted::{
    ascending, insert_text, is_ascending, lemma_ascending_of_set, lemma_push_to_set,
};
use crate::text::lemma_deep_view_push;
use crate::types::{AutoTest, AutoTestView, TestKind, TestKindView, TestMeta, TestMetaView};
use vstd::prelude::*;
use vstd::string::StringExecFns;

verus! {

/// The pattern of a block comment; it may run over several lines.
pub const BLOCK_COMMENT: &'static str = "(?s)/\\*.*?\\*/";

/// The pattern of a line comment.
pub const LINE_COMMENT: &'static str = "//.*";

/// The pattern of an attribute with `test` in it before a function, with the name of
/// the function as its first group.
pub const TEST_FUNCTION: &'static str =
    "#\\s*\\[[^\\]]*test[^\\]]*\\]\\s*(?:pub\\s+)?(?:async\\s+)?fn\\s+([A-Za-z_][A-Za-z0-9_]*)";

/// What `regex::Regex::replace_all` returns for the text `text` and the replacement
/// `with`, on the regex that `regex::Regex::new` makes of `pattern`; `None` where
/// `pattern` is no regex.
pub uninterp spec fn regex_replaced(pattern: Seq<char>, text: Seq<char>, with: Seq<char>) -> Option<
    Seq<char>,
>;

/// For each match that `regex::Regex::captures_iter` finds in `text`, in order, what
/// its first group holds, on the regex that `regex::Regex::new` makes of `pattern`;
/// `None` where `pattern` is no regex.
pub uninterp spec fn regex_first_groups(pattern: Seq<char>, text: Seq<char>) -> Option<
    Seq<Option<Seq<char>>>,
>;

/// `regex::Regex::new` on `pattern` and `regex::Regex::replace_all` on the regex it
/// returns. The contract only gives the result a name.
#[verifier::external_body]
fn replace_pattern(pattern: &str, text: &str, with: &str) -> (r: Option<String>)
    ensures
        r.deep_view() == regex_replaced(pattern@, text@, with@),
{
    match regex::Regex::new(pattern) {
        Ok(re) => Some(re.replace_all(text, with).into_owned()),
        Err(_) => None,
    }
}

/// `regex::Regex::new` on `pattern` and `regex::Regex::captures_iter` on the regex it
/// returns, with the text of the first group of each match taken by
/// `regex::Captures::get`. The contract only gives the result a name.
#[verifier::external_body]
fn first_groups(pattern: &str, text: &str) -> (r: Option<Vec<Option<String>>>)
    ensures
        r.deep_view() == regex_first_groups(pattern@, text@),
{
    match regex::Regex::new(pattern) {
        Ok(re) => Some(
            re.captures_iter(text).map(|c| c.get(1).map(|m| m.as_str().to_string())).collect(),
        ),
        Err(_) => None,
    }
}

/// `src` without its comments: the block comments are taken out first, then the line
/// comments. `None` where a pattern is refused.
pub open spec fn without_comments(src: Seq<char>) -> Option<Seq<char>> {
    match regex_replaced(BLOCK_COMMENT@, src, Seq::empty()) {
        Some(rest) => regex_replaced(LINE_COMMENT@, rest, Seq::empty()),
        None => None,
    }
}

/// The texts that `groups` holds, in order.
pub open spec fn present(groups: Seq<Option<Seq<char>>>) -> Seq<Seq<char>>
    decreases groups.len(),
{
    if groups.len() == 0 {
        Seq::empty()
    } else {
        match groups.last() {
            Some(t) => present(groups.drop_last()).push(t),
            None => present(groups.drop_last()),
        }
    }
}

/// The names that the search by patterns finds in `src`.
pub open spec fn names_by_pattern(src: Seq<char>) -> Option<Seq<Seq<char>>> {
    match without_comments(src) {
        Some(cleaned) => match regex_first_groups(TEST_FUNCTION@, cleaned) {
            Some(groups) => Some(present(groups)),
            None => None,
        },
        None => None,
    }
}

/// `s` without its comments: block comments first, then line comments. Text inside a
/// string that looks like a comment goes too. `None` where the regex engine refuses a
/// pattern.
pub fn strip_comments(s: &str) -> (r: Option<String>)
    ensures
        r.deep_view() == without_comments(s@),
{
    proof {
        reveal_strlit("");
        assert(""@ =~= Seq::<char>::empty());
    }
    match replace_pattern(BLOCK_COMMENT, s, "") {
        Some(rest) => replace_pattern(LINE_COMMENT, rest.as_str(), ""),
        None => None,
    }
}

/// The names among `groups`, in order.
pub fn captured_names(groups: &Vec<Option<String>>) -> (r: Vec<String>)
    ensures
        r.deep_view() == present(groups.deep_view()),
{
    let mut out: Vec<String> = Vec::new();
    let mut i: usize = 0;
    assert(groups.deep_view().take(0) =~= Seq::<Option<Seq<char>>>::empty());
    assert(out.deep_view() =~= Seq::<Seq<char>>::empty());
    while i < groups.len()
        invariant
            i <= groups.len(),
            out.deep_view() == present(groups.deep_view().take(i as int)),
        decreases groups.len() - i,
    {
        let ghost upto = groups.deep_view().take(i + 1);
        assert(upto.drop_last() == groups.deep_view().take(i as int));
        assert(upto.last() == groups@[i as int].deep_view());
        match &groups[i] {
            Some(name) => {
                let ghost before = out;
                let n = name.clone();
                out.push(n);
                proof {
                    lemma_deep_view_push(before, out, n);
                }
            },
            None => {},
        }
        i += 1;
    }
    assert(groups.deep_view().take(groups.len() as int) == groups.deep_view());
    out
}

/// The names of the functions of `src` that follow an attribute with `test` in it,
/// after the comments are taken out. `None` where the regex engine refuses a pattern.
pub fn extract_test_names(src: &str) -> (r: Option<Vec<String>>)
    ensures
        r.deep_view() == names_by_pattern(src@),
{
    match strip_comments(src) {
        Some(cleaned) => match first_groups(TEST_FUNCTION, cleaned.as_str()) {
            Some(groups) => Some(captured_names(&groups)),
            None => None,
        },
        None => None,
    }
}

/// Why the search by patterns gave no manifest.
#[derive(Debug, Clone, Copy, PartialEq, Eq, Structural)]
pub enum PatternScanError {
    /// There was no source text to search.
    NoSourceFiles,
    /// The regex engine refused a pattern.
    PatternRefused,
    /// The search found no name.
    NoTestsFound,
}

/// The names that the search by patterns finds in all of `sources`, as a set; `None`
/// where a pattern is refused.
pub open spec fn names_in_all(sources: Seq<Seq<char>>) -> Option<Set<Seq<char>>>
    decreases sources.len(),
{
    if sources.len() == 0 {
        Some(Set::empty())
    } else {
        match (names_in_all(sources.drop_last()), names_by_pattern(sources.last())) {
            (Some(before), Some(more)) => Some(before + more.to_set()),
            _ => None,
        }
    }
}

/// The check for a test function that the search by patterns found: it has the name
/// of the function, no description and no build unit.
pub open spec fn named_check(name: Seq<char>, points: u32) -> AutoTestView {
    AutoTestView {
        meta: TestMetaView {
            name,
            description: Seq::empty(),
            points,
            timeout: DEFAULT_TIMEOUT,
        },
        kind: TestKindView::CargoTest { manifest_path: None },
    }
}

/// The checks for the names `names`, and after them the lint check of the root where
/// the style check is wanted.
pub open spec fn checks_of_names(names: Seq<Seq<char>>, points: u32, style_check: bool) -> Seq<
    AutoTestView,
> {
    names.map_values(|n: Seq<char>| named_check(n, points)) + clippy_checks(
        style_check,
        points,
        seq!["Cargo.toml"@],
    )
}

/// What `run_by_pattern` returns for the source texts `sources`.
pub open spec fn manifest_by_pattern(
    sources: Seq<Seq<char>>,
    points: u32,
    style_check: bool,
) -> Result<Seq<AutoTestView>, PatternScanError> {
    if sources.len() == 0 {
        Err(PatternScanError::NoSourceFiles)
    } else {
        match names_in_all(sources) {
            None => Err(PatternScanError::PatternRefused),
            Some(names) => if names == Set::<Seq<char>>::empty() {
                Err(PatternScanError::NoTestsFound)
            } else {
                Ok(checks_of_names(ascending(names), points, style_check))
            },
        }
    }
}

/// An outcome of `run_by_pattern` as a mathematical value.
pub open spec fn pattern_manifest_view(r: Result<Vec<AutoTest>, PatternScanError>) -> Result<
    Seq<AutoTestView>,
    PatternScanError,
> {
    match r {
        Ok(checks) => Ok(checks.deep_view()),
        Err(e) => Err(e),
    }
}

/// Once a pattern is refused for some of the texts, it is refused for all of them.
proof fn lemma_names_in_all_refused(sources: Seq<Seq<char>>, i: int)
    requires
        0 <= i < sources.len(),
        names_in_all(sources.take(i + 1)) is None,
    ensures
        names_in_all(sources) is None,
    decreases sources.len() - i,
{
    if i + 1 == sources.len() {
        assert(sources.take(i + 1) == sources);
    } else {
        let next = sources.take(i + 2);
        assert(next.drop_last() == sources.take(i + 1));
        lemma_names_in_all_refused(sources, i + 1);
    }
}

/// The names that the search by patterns finds in all of `sources`, in ascending
/// order and each once; `None` where the regex engine refuses a pattern.
pub fn names_of_all(sources: &Vec<String>) -> (r: Option<Vec<String>>)
    ensures
        match r {
            Some(names) => {
                &&& names_in_all(sources.deep_view()) == Some(names.deep_view().to_set())
                &&& is_ascending(names.deep_view())
                &&& names.deep_view() == ascending(names.deep_view().to_set())
            },
            None => names_in_all(sources.deep_view()) is None,
        },
{
    let ghost all = sources.deep_view();
    let mut out: Vec<String> = Vec::new();
    let mut i: usize = 0;
    assert(all.take(0) =~= Seq::<Seq<char>>::empty());
    assert(out.deep_view().to_set() =~= Set::<Seq<char>>::empty());
    while i < sources.len()
        invariant
            i <= sources.len(),
            all == sources.deep_view(),
            is_ascending(out.deep_view()),
            names_in_all(all.take(i as int)) == Some(out.deep_view().to_set()),
        decreases sources.len() - i,
    {
        let ghost upto = all.take(i + 1);
        assert(upto.drop_last() == all.take(i as int));
        assert(upto.last() == sources@[i as int]@);
        match extract_test_names(sources[i].as_str()) {
            None => {
                proof {
                    lemma_names_in_all_refused(all, i as int);
                }
                return None;
            },
            Some(names) => {
                let ghost before = out.deep_view().to_set();
                let ghost found = names.deep_view();
                let mut k: usize = 0;
                assert(found.take(0).to_set() =~= Set::<Seq<char>>::empty());
                assert(before + Set::<Seq<char>>::empty() =~= before);
                while k < names.len()
                    invariant
                        k <= names.len(),
                        found == names.deep_view(),
                        is_ascending(out.deep_view()),
                        out.deep_view().to_set() == before + found.take(k as int).to_set(),
                    decreases names.len() - k,
                {
                    proof {
                        assert(found[k as int] == names@[k as int]@);
                        assert(found.take(k + 1) == found.take(k as int).push(found[k as int]));
                        lemma_push_to_set(found.take(k as int), found[k as int]);
                        assert((before + found.take(k as int).to_set()).insert(found[k as int])
                            =~= before + found.take(k + 1).to_set());
                    }
                    insert_text(&mut out, names[k].clone());
                    k += 1;
                }
                assert(found.take(names.len() as int) == found);
            },
        }
        i += 1;
    }
    proof {
        assert(all.take(sources.len() as int) == all);
        lemma_ascending_of_set(out.deep_view());
    }
    Some(out)
}

/// The checks for the names `names`, and after them the lint check of the root where
/// the style check is wanted.
pub fn checks_for_names(names: &Vec<String>, num_points: u32, style_check: bool) -> (r: Vec<
    AutoTest,
>)
    ensures
        r.deep_view() == checks_of_names(names.deep_view(), num_points, style_check),
{
    let ghost want = names.deep_view().map_values(|n: Seq<char>| named_check(n, num_points));
    let mut items: Vec<AutoTest> = Vec::new();
    let mut i: usize = 0;
    assert(items.deep_view() =~= want.take(0));
    while i < names.len()
        invariant
            i <= names.len(),
            want == names.deep_view().map_values(|n: Seq<char>| named_check(n, num_points)),
            items.deep_view() == want.take(i as int),
        decreases names.len() - i,
    {
        let check = AutoTest {
            meta: TestMeta {
                name: names[i].clone(),
                description: String::new(),
                points: num_points,
                timeout: DEFAULT_TIMEOUT,
            },
            kind: TestKind::CargoTest { manifest_path: None },
        };
        let ghost before = items;
        items.push(check);
        proof {
            lemma_deep_view_push(before, items, check);
            assert(names.deep_view()[i as int] == names@[i as int]@);
            assert(items.deep_view() =~= want.take(i + 1));
        }
        i += 1;
    }
    assert(want.take(names.len() as int) == want);
    if style_check {
        let root: Vec<String> = vec![String::from_str("Cargo.toml")];
        assert(root.deep_view() =~= seq!["Cargo.toml"@]);
        let lint = clippy_autotests(&root, num_points);
        let ghost base = items.deep_view();
        let mut lint = lint;
        let ghost added = lint@;
        items.append(&mut lint);
        assert(items.deep_view() =~= base + Seq::new(added.len(), |i: int| added[i].deep_view()));
    } else {
        assert(items.deep_view() + Seq::<AutoTestView>::empty() =~= items.deep_view());
    }
    items
}

/// Builds a manifest by the search by patterns: a check for each name that the search
/// finds in the source texts `sources`, in ascending order and each once, and the lint
/// check of the root where the style check is wanted. It fails where there is no
/// source text, where the regex engine refuses a pattern, and where no name is found.
pub fn run_by_pattern(sources: &Vec<String>, num_points: u32, style_check: bool) -> (r: Result<
    Vec<AutoTest>,
    PatternScanError,
>)
    ensures
        pattern_manifest_view(r) == manifest_by_pattern(
            sources.deep_view(),
            num_points,
            style_check,
        ),
{
    if sources.len() == 0 {
        return Err(PatternScanError::NoSourceFiles);
    }
    match names_of_all(sources) {
        None => Err(PatternScanError::PatternRefused),
        Some(names) => {
            proof {
                if names.len() == 0 {
                    assert(names.deep_view().to_set() =~= Set::<Seq<char>>::empty());
                } else {
                    assert(names.deep_view().to_set().contains(names.deep_view()[0]));
                }
            }
            if names.len() == 0 {
                Err(PatternScanError::NoTestsFound)
            } else {
                Ok(checks_for_names(&names, num_points, style_check))
            }
        },
    }
}

} // verus!
