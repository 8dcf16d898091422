//! The manifest as it is kept on disk: a JSON list with one record for each check.
use crate::text::{lemma_deep_view_push, same_text};
use crate::types::{AutoTest, AutoTestView, TestKind, TestKindView, TestMeta, TestMetaView};
use vstd::prelude::*;
use vstd::string::StringExecFns;

verus! {

/// A JSON value.
#[derive(Debug)]
pub enum Json {
    Null,
    Bool(bool),
    /// A whole number that is not negative.
    Number(u64),
    /// Any other number.
    OtherNumber,
    Text(String),
    Array(Vec<Json>),
    /// The fields of an object with their values, in order.
    Object(Vec<(String, Json)>),
}

/// A `Json` as a mathematical value.
pub enum JsonView {
    Null,
    Bool(bool),
    Number(u64),
    OtherNumber,
    Text(Seq<char>),
    Array(Seq<JsonView>),
    Object(Seq<(Seq<char>, JsonView)>),
}

/// The value of a `Json`.
pub open spec fn json_view(j: Json) -> JsonView
    decreases j,
{
    match j {
        Json::Null => JsonView::Null,
        Json::Bool(b) => JsonView::Bool(b),
        Json::Number(n) => JsonView::Number(n),
        Json::OtherNumber => JsonView::OtherNumber,
        Json::Text(s) => JsonView::Text(s@),
        Json::Array(v) => JsonView::Array(
            Seq::new(
                v@.len(),
                |i: int|
                    if 0 <= i < v@.len() {
                        json_view(v@[i])
                    } else {
                        arbitrary()
                    },
            ),
        ),
        Json::Object(v) => JsonView::Object(
            Seq::new(
                v@.len(),
                |i: int|
                    if 0 <= i < v@.len() {
                        (v@[i].0@, json_view(v@[i].1))
                    } else {
                        arbitrary()
                    },
            ),
        ),
    }
}

impl DeepView for Json {
    type V = JsonView;

    open spec fn deep_view(&self) -> JsonView {
        json_view(*self)
    }
}

/// The value of the field `key` among `fields`; of two fields with one name the later
/// one counts.
pub open spec fn field(fields: Seq<(Seq<char>, JsonView)>, key: Seq<char>) -> Option<JsonView>
    decreases fields.len(),
{
    if fields.len() == 0 {
        None
    } else if fields.last().0 == key {
        Some(fields.last().1)
    } else {
        field(fields.drop_last(), key)
    }
}

/// The word that tells the kind of a check in its record.
pub open spec fn kind_tag(kind: TestKindView) -> Seq<char> {
    match kind {
        TestKindView::CargoTest { .. } => "cargo_test"@,
        TestKindView::Clippy { .. } => "clippy"@,
        TestKindView::CommitCount { .. } => "commit_count"@,
        TestKindView::BranchCount { .. } => "branch_count"@,
        TestKindView::TestCount { .. } => "test_count"@,
    }
}

/// `fields` with the field for the manifest path `mp` after them, where there is one.
/// A check without a manifest path has no such field.
pub open spec fn with_manifest_path(
    fields: Seq<(Seq<char>, JsonView)>,
    mp: Option<Seq<char>>,
) -> Seq<(Seq<char>, JsonView)> {
    match mp {
        Some(p) => fields.push(("manifest_path"@, JsonView::Text(p))),
        None => fields,
    }
}

/// The record of what every check has.
pub open spec fn meta_json(meta: TestMetaView) -> JsonView {
    JsonView::Object(
        seq![
            ("name"@, JsonView::Text(meta.name)),
            ("description"@, JsonView::Text(meta.description)),
            ("points"@, JsonView::Number(meta.points as u64)),
            ("timeout"@, JsonView::Number(meta.timeout)),
        ],
    )
}

/// The fields that every record starts with: what every check has, and the kind.
pub open spec fn head_fields(t: AutoTestView) -> Seq<(Seq<char>, JsonView)> {
    seq![("meta"@, meta_json(t.meta)), ("type"@, JsonView::Text(kind_tag(t.kind)))]
}

/// The record of a check.
pub open spec fn check_json(t: AutoTestView) -> JsonView {
    JsonView::Object(
        match t.kind {
            TestKindView::CargoTest { manifest_path } => with_manifest_path(
                head_fields(t),
                manifest_path,
            ),
            TestKindView::Clippy { manifest_path } => with_manifest_path(
                head_fields(t),
                manifest_path,
            ),
            TestKindView::CommitCount { min_commits } => head_fields(t).push(
                ("min_commits"@, JsonView::Number(min_commits as u64)),
            ),
            TestKindView::BranchCount { min_branches } => head_fields(t).push(
                ("min_branches"@, JsonView::Number(min_branches as u64)),
            ),
            TestKindView::TestCount { min_tests, manifest_path } => with_manifest_path(
                head_fields(t).push(("min_tests"@, JsonView::Number(min_tests as u64))),
                manifest_path,
            ),
        },
    )
}

/// The manifest of `checks`: the list of their records.
pub open spec fn checks_json(checks: Seq<AutoTestView>) -> JsonView {
    JsonView::Array(checks.map_values(|t: AutoTestView| check_json(t)))
}

/// What is wrong with a manifest.
pub enum ManifestErrorView {
    /// The text is no JSON.
    Syntax { message: Seq<char> },
    /// The manifest is no list.
    NotAList,
    /// The record at `index` lacks a field, or a field of it holds what it cannot.
    Malformed { index: nat },
    /// The record at `index` has the threshold `field`, which its kind does not use.
    Validation { index: nat, field: Seq<char> },
    /// The manifest holds no check.
    Empty,
}

/// The text of a field; `None` where the field is missing or holds no text.
pub open spec fn text_field(fields: Seq<(Seq<char>, JsonView)>, key: Seq<char>) -> Option<
    Seq<char>,
> {
    match field(fields, key) {
        Some(JsonView::Text(s)) => Some(s),
        _ => None,
    }
}

/// The number of a field; `None` where the field is missing or holds no whole number
/// that is not negative.
pub open spec fn number_field(fields: Seq<(Seq<char>, JsonView)>, key: Seq<char>) -> Option<u64> {
    match field(fields, key) {
        Some(JsonView::Number(n)) => Some(n),
        _ => None,
    }
}

/// The number of a field that fits in 32 bits; `None` where there is no such number.
pub open spec fn small_number_field(
    fields: Seq<(Seq<char>, JsonView)>,
    key: Seq<char>,
) -> Option<u32> {
    match number_field(fields, key) {
        Some(n) => if n <= u32::MAX {
            Some(n as u32)
        } else {
            None
        },
        None => None,
    }
}

/// The manifest path of a record: none where the field is missing or null, the text
/// where it holds one. The outer `None` stands for a field that holds anything else.
pub open spec fn manifest_path_field(fields: Seq<(Seq<char>, JsonView)>) -> Option<
    Option<Seq<char>>,
> {
    match field(fields, "manifest_path"@) {
        None => Some(None),
        Some(JsonView::Null) => Some(None),
        Some(JsonView::Text(p)) => Some(Some(p)),
        _ => None,
    }
}

/// What every check has, read from its record.
pub open spec fn json_meta(j: Option<JsonView>) -> Option<TestMetaView> {
    match j {
        Some(JsonView::Object(m)) => match (
            text_field(m, "name"@),
            text_field(m, "description"@),
            small_number_field(m, "points"@),
            number_field(m, "timeout"@),
        ) {
            (Some(name), Some(description), Some(points), Some(timeout)) => Some(
                TestMetaView { name, description, points, timeout },
            ),
            _ => None,
        },
        _ => None,
    }
}

/// The kind of a check, read from the fields of its record.
pub open spec fn json_kind(fields: Seq<(Seq<char>, JsonView)>) -> Option<TestKindView> {
    match text_field(fields, "type"@) {
        Some(tag) => if tag == "cargo_test"@ {
            match manifest_path_field(fields) {
                Some(manifest_path) => Some(TestKindView::CargoTest { manifest_path }),
                None => None,
            }
        } else if tag == "clippy"@ {
            match manifest_path_field(fields) {
                Some(manifest_path) => Some(TestKindView::Clippy { manifest_path }),
                None => None,
            }
        } else if tag == "commit_count"@ {
            match small_number_field(fields, "min_commits"@) {
                Some(min_commits) => Some(TestKindView::CommitCount { min_commits }),
                None => None,
            }
        } else if tag == "branch_count"@ {
            match small_number_field(fields, "min_branches"@) {
                Some(min_branches) => Some(TestKindView::BranchCount { min_branches }),
                None => None,
            }
        } else if tag == "test_count"@ {
            match (small_number_field(fields, "min_tests"@), manifest_path_field(fields)) {
                (Some(min_tests), Some(manifest_path)) => Some(
                    TestKindView::TestCount { min_tests, manifest_path },
                ),
                _ => None,
            }
        } else {
            None
        },
        None => None,
    }
}

/// The threshold field that a record has though its kind does not use it, if any:
/// the first of `min_commits`, `min_branches` and `min_tests`.
pub open spec fn stray_threshold(fields: Seq<(Seq<char>, JsonView)>, kind: TestKindView) -> Option<
    Seq<char>,
> {
    if field(fields, "min_commits"@) is Some && !(kind is CommitCount) {
        Some("min_commits"@)
    } else if field(fields, "min_branches"@) is Some && !(kind is BranchCount) {
        Some("min_branches"@)
    } else if field(fields, "min_tests"@) is Some && !(kind is TestCount) {
        Some("min_tests"@)
    } else {
        None
    }
}

/// The check that the record `j` at the place `index` of the manifest stands for.
pub open spec fn json_check(j: JsonView, index: nat) -> Result<AutoTestView, ManifestErrorView> {
    match j {
        JsonView::Object(fields) => match (json_meta(field(fields, "meta"@)), json_kind(fields)) {
            (Some(meta), Some(kind)) => match stray_threshold(fields, kind) {
                Some(name) => Err(ManifestErrorView::Validation { index, field: name }),
                None => Ok(AutoTestView { meta, kind }),
            },
            _ => Err(ManifestErrorView::Malformed { index }),
        },
        _ => Err(ManifestErrorView::Malformed { index }),
    }
}

/// The checks that the records `records` stand for; or what is wrong with the first
/// record that stands for none.
pub open spec fn json_records(records: Seq<JsonView>) -> Result<
    Seq<AutoTestView>,
    ManifestErrorView,
>
    decreases records.len(),
{
    if records.len() == 0 {
        Ok(Seq::empty())
    } else {
        match json_records(records.drop_last()) {
            Err(e) => Err(e),
            Ok(before) => match json_check(records.last(), (records.len() - 1) as nat) {
                Err(e) => Err(e),
                Ok(t) => Ok(before.push(t)),
            },
        }
    }
}

/// The checks that the manifest `j` stands for.
pub open spec fn json_checks(j: JsonView) -> Result<Seq<AutoTestView>, ManifestErrorView> {
    match j {
        JsonView::Array(records) => json_records(records),
        _ => Err(ManifestErrorView::NotAList),
    }
}

/// The field that was added last is found first.
pub proof fn lemma_field_push(
    fields: Seq<(Seq<char>, JsonView)>,
    name: Seq<char>,
    value: JsonView,
    key: Seq<char>,
)
    ensures
        field(fields.push((name, value)), key) == if name == key {
            Some(value)
        } else {
            field(fields, key)
        },
{
    assert(fields.push((name, value)).drop_last() == fields);
}

/// The names of the fields and the words for the kinds are all different.
proof fn lemma_names_differ()
    ensures
        "name"@ != "description"@ && "name"@ != "points"@ && "name"@ != "timeout"@,
        "description"@ != "points"@ && "description"@ != "timeout"@ && "points"@ != "timeout"@,
        "meta"@ != "type"@ && "meta"@ != "min_commits"@ && "meta"@ != "min_branches"@,
        "meta"@ != "min_tests"@ && "meta"@ != "manifest_path"@,
        "type"@ != "min_commits"@ && "type"@ != "min_branches"@ && "type"@ != "min_tests"@,
        "type"@ != "manifest_path"@,
        "min_commits"@ != "min_branches"@ && "min_commits"@ != "min_tests"@,
        "min_commits"@ != "manifest_path"@ && "min_branches"@ != "min_tests"@,
        "min_branches"@ != "manifest_path"@ && "min_tests"@ != "manifest_path"@,
        "cargo_test"@ != "clippy"@ && "cargo_test"@ != "commit_count"@,
        "cargo_test"@ != "branch_count"@ && "cargo_test"@ != "test_count"@,
        "clippy"@ != "commit_count"@ && "clippy"@ != "branch_count"@,
        "clippy"@ != "test_count"@ && "commit_count"@ != "branch_count"@,
        "commit_count"@ != "test_count"@ && "branch_count"@ != "test_count"@,
{
    reveal_strlit("name");
    reveal_strlit("description");
    reveal_strlit("points");
    reveal_strlit("timeout");
    reveal_strlit("meta");
    reveal_strlit("type");
    reveal_strlit("min_commits");
    reveal_strlit("min_branches");
    reveal_strlit("min_tests");
    reveal_strlit("manifest_path");
    reveal_strlit("cargo_test");
    reveal_strlit("clippy");
    reveal_strlit("commit_count");
    reveal_strlit("branch_count");
    reveal_strlit("test_count");
    assert("name"@.len() == 4);
    assert("description"@.len() == 11);
    assert("points"@.len() == 6);
    assert("timeout"@.len() == 7);
    assert("meta"@.len() == 4);
    assert("type"@.len() == 4);
    assert("min_commits"@.len() == 11);
    assert("min_branches"@.len() == 12);
    assert("min_tests"@.len() == 9);
    assert("manifest_path"@.len() == 13);
    assert("cargo_test"@.len() == 10);
    assert("clippy"@.len() == 6);
    assert("commit_count"@.len() == 12);
    assert("branch_count"@.len() == 12);
    assert("test_count"@.len() == 10);
    assert("meta"@[0] != "type"@[0]);
    assert("cargo_test"@[0] != "test_count"@[0]);
    assert("commit_count"@[0] != "branch_count"@[0]);
}

/// What every check has is read back from its record as it was.
proof fn lemma_meta_round_trip(meta: TestMetaView)
    ensures
        json_meta(Some(meta_json(meta))) == Some(meta),
{
    lemma_names_differ();
    let none = Seq::<(Seq<char>, JsonView)>::empty();
    let f1 = none.push(("name"@, JsonView::Text(meta.name)));
    let f2 = f1.push(("description"@, JsonView::Text(meta.description)));
    let f3 = f2.push(("points"@, JsonView::Number(meta.points as u64)));
    let f4 = f3.push(("timeout"@, JsonView::Number(meta.timeout)));
    assert(meta_json(meta) == JsonView::Object(f4)) by {
        assert(f4 =~= seq![
            ("name"@, JsonView::Text(meta.name)),
            ("description"@, JsonView::Text(meta.description)),
            ("points"@, JsonView::Number(meta.points as u64)),
            ("timeout"@, JsonView::Number(meta.timeout)),
        ]);
    }
    assert forall|key: Seq<char>| #[trigger] field(none, key) is None by {}
    assert forall|key: Seq<char>|
        field(f4, key) == (if key == "timeout"@ {
            Some(JsonView::Number(meta.timeout))
        } else if key == "points"@ {
            Some(JsonView::Number(meta.points as u64))
        } else if key == "description"@ {
            Some(JsonView::Text(meta.description))
        } else if key == "name"@ {
            Some(JsonView::Text(meta.name))
        } else {
            None
        }) by {
        lemma_field_push(none, "name"@, JsonView::Text(meta.name), key);
        lemma_field_push(f1, "description"@, JsonView::Text(meta.description), key);
        lemma_field_push(f2, "points"@, JsonView::Number(meta.points as u64), key);
        lemma_field_push(f3, "timeout"@, JsonView::Number(meta.timeout), key);
    }
    assert(text_field(f4, "name"@) == Some(meta.name));
    assert(text_field(f4, "description"@) == Some(meta.description));
    assert(small_number_field(f4, "points"@) == Some(meta.points));
    assert(number_field(f4, "timeout"@) == Some(meta.timeout));
}

/// The fields that every record starts with, found by name.
proof fn lemma_head_fields(t: AutoTestView, key: Seq<char>)
    ensures
        field(head_fields(t), key) == (if key == "type"@ {
            Some(JsonView::Text(kind_tag(t.kind)))
        } else if key == "meta"@ {
            Some(meta_json(t.meta))
        } else {
            None
        }),
{
    let none = Seq::<(Seq<char>, JsonView)>::empty();
    let f1 = none.push(("meta"@, meta_json(t.meta)));
    let f2 = f1.push(("type"@, JsonView::Text(kind_tag(t.kind))));
    assert(head_fields(t) =~= f2);
    lemma_field_push(none, "meta"@, meta_json(t.meta), key);
    lemma_field_push(f1, "type"@, JsonView::Text(kind_tag(t.kind)), key);
}

/// The field of the manifest path, found by name.
proof fn lemma_with_manifest_path(
    fields: Seq<(Seq<char>, JsonView)>,
    mp: Option<Seq<char>>,
    key: Seq<char>,
)
    ensures
        field(with_manifest_path(fields, mp), key) == (if key == "manifest_path"@ && mp is Some {
            Some(JsonView::Text(mp->0))
        } else {
            field(fields, key)
        }),
{
    if mp is Some {
        lemma_field_push(fields, "manifest_path"@, JsonView::Text(mp->0), key);
    }
}

/// A check is read back from its record as it was.
pub proof fn lemma_check_round_trip(t: AutoTestView, index: nat)
    ensures
        json_check(check_json(t), index) == Ok::<AutoTestView, ManifestErrorView>(t),
{
    lemma_names_differ();
    lemma_meta_round_trip(t.meta);
    let head = head_fields(t);
    let fields = check_json(t)->Object_0;
    assert forall|key: Seq<char>|
        field(fields, key) == (match t.kind {
            TestKindView::CargoTest { manifest_path } => field(
                with_manifest_path(head, manifest_path),
                key,
            ),
            TestKindView::Clippy { manifest_path } => field(
                with_manifest_path(head, manifest_path),
                key,
            ),
            TestKindView::CommitCount { min_commits } => if key == "min_commits"@ {
                Some(JsonView::Number(min_commits as u64))
            } else {
                field(head, key)
            },
            TestKindView::BranchCount { min_branches } => if key == "min_branches"@ {
                Some(JsonView::Number(min_branches as u64))
            } else {
                field(head, key)
            },
            TestKindView::TestCount { min_tests, manifest_path } => if key == "manifest_path"@
                && manifest_path is Some {
                Some(JsonView::Text(manifest_path->0))
            } else if key == "min_tests"@ {
                Some(JsonView::Number(min_tests as u64))
            } else {
                field(head, key)
            },
        }) by {
        match t.kind {
            TestKindView::CommitCount { min_commits } => {
                lemma_field_push(head, "min_commits"@, JsonView::Number(min_commits as u64), key);
            },
            TestKindView::BranchCount { min_branches } => {
                lemma_field_push(
                    head,
                    "min_branches"@,
                    JsonView::Number(min_branches as u64),
                    key,
                );
            },
            TestKindView::TestCount { min_tests, manifest_path } => {
                let with_min = head.push(("min_tests"@, JsonView::Number(min_tests as u64)));
                lemma_field_push(head, "min_tests"@, JsonView::Number(min_tests as u64), key);
                lemma_with_manifest_path(with_min, manifest_path, key);
            },
            _ => {},
        }
    }
    lemma_head_fields(t, "meta"@);
    lemma_head_fields(t, "type"@);
    lemma_head_fields(t, "min_commits"@);
    lemma_head_fields(t, "min_branches"@);
    lemma_head_fields(t, "min_tests"@);
    lemma_head_fields(t, "manifest_path"@);
    match t.kind {
        TestKindView::CargoTest { manifest_path } => {
            lemma_with_manifest_path(head, manifest_path, "meta"@);
            lemma_with_manifest_path(head, manifest_path, "type"@);
            lemma_with_manifest_path(head, manifest_path, "min_commits"@);
            lemma_with_manifest_path(head, manifest_path, "min_branches"@);
            lemma_with_manifest_path(head, manifest_path, "min_tests"@);
            lemma_with_manifest_path(head, manifest_path, "manifest_path"@);
        },
        TestKindView::Clippy { manifest_path } => {
            lemma_with_manifest_path(head, manifest_path, "meta"@);
            lemma_with_manifest_path(head, manifest_path, "type"@);
            lemma_with_manifest_path(head, manifest_path, "min_commits"@);
            lemma_with_manifest_path(head, manifest_path, "min_branches"@);
            lemma_with_manifest_path(head, manifest_path, "min_tests"@);
            lemma_with_manifest_path(head, manifest_path, "manifest_path"@);
        },
        _ => {},
    }
    assert(json_meta(field(fields, "meta"@)) == Some(t.meta));
    assert(text_field(fields, "type"@) == Some(kind_tag(t.kind)));
    assert(json_kind(fields) == Some(t.kind));
    assert(stray_threshold(fields, t.kind) is None);
}

/// Writing a list of checks as a manifest and reading the manifest gives the list
/// back, check for check and field for field.
pub proof fn lemma_manifest_round_trip(checks: Seq<AutoTestView>)
    ensures
        json_checks(checks_json(checks)) == Ok::<Seq<AutoTestView>, ManifestErrorView>(checks),
    decreases checks.len(),
{
    let records = checks.map_values(|t: AutoTestView| check_json(t));
    if checks.len() == 0 {
        assert(checks =~= Seq::<AutoTestView>::empty());
    } else {
        let init = checks.drop_last();
        lemma_manifest_round_trip(init);
        assert(records.drop_last() =~= init.map_values(|t: AutoTestView| check_json(t)));
        assert(records.last() == check_json(checks.last()));
        lemma_check_round_trip(checks.last(), (records.len() - 1) as nat);
        assert(init.push(checks.last()) =~= checks);
    }
}

/// What is wrong with a manifest.
#[derive(Debug)]
pub enum ManifestError {
    /// The text is no JSON.
    Syntax { message: String },
    /// The manifest is no list.
    NotAList,
    /// The record at `index` lacks a field, or a field of it holds what it cannot.
    Malformed { index: usize },
    /// The record at `index` has the threshold `field`, which its kind does not use.
    Validation { index: usize, field: String },
    /// The manifest holds no check.
    Empty,
}

impl DeepView for ManifestError {
    type V = ManifestErrorView;

    open spec fn deep_view(&self) -> ManifestErrorView {
        match *self {
            ManifestError::Syntax { message } => ManifestErrorView::Syntax { message: message@ },
            ManifestError::NotAList => ManifestErrorView::NotAList,
            ManifestError::Malformed { index } => ManifestErrorView::Malformed {
                index: index as nat,
            },
            ManifestError::Validation { index, field } => ManifestErrorView::Validation {
                index: index as nat,
                field: field@,
            },
            ManifestError::Empty => ManifestErrorView::Empty,
        }
    }
}

/// The fields of an object as mathematical values.
pub open spec fn fields_view(v: Seq<(String, Json)>) -> Seq<(Seq<char>, JsonView)> {
    Seq::new(v.len(), |i: int| (v[i].0@, json_view(v[i].1)))
}

/// The value of an object is made of the values of its fields.
pub proof fn lemma_object_view(v: Vec<(String, Json)>)
    ensures
        json_view(Json::Object(v)) == JsonView::Object(fields_view(v@)),
{
    assert(json_view(Json::Object(v))->Object_0 =~= fields_view(v@));
}

/// The value of a list is made of the values of its items.
pub proof fn lemma_array_view(v: Vec<Json>)
    ensures
        json_view(Json::Array(v)) == JsonView::Array(v.deep_view()),
{
    assert(json_view(Json::Array(v))->Array_0 =~= v.deep_view());
}

fn find_field<'a>(fields: &'a Vec<(String, Json)>, key: &str) -> (r: Option<&'a Json>)
    ensures
        r.deep_view() == field(fields_view(fields@), key@),
{
    let ghost all = fields_view(fields@);
    let mut i: usize = fields.len();
    assert(all.take(i as int) == all);
    while i > 0
        invariant
            i <= fields.len(),
            all == fields_view(fields@),
            field(all, key@) == field(all.take(i as int), key@),
        decreases i,
    {
        let ghost upto = all.take(i as int);
        assert(upto.last() == (fields@[i - 1].0@, json_view(fields@[i - 1].1)));
        assert(upto.drop_last() == all.take(i - 1));
        if same_text(fields[i - 1].0.as_str(), key) {
            return Some(&fields[i - 1].1);
        }
        i -= 1;
    }
    None
}

fn text_of_field(fields: &Vec<(String, Json)>, key: &str) -> (r: Option<String>)
    ensures
        r.deep_view() == text_field(fields_view(fields@), key@),
{
    match find_field(fields, key) {
        Some(Json::Text(s)) => Some(s.clone()),
        _ => None,
    }
}

fn number_of_field(fields: &Vec<(String, Json)>, key: &str) -> (r: Option<u64>)
    ensures
        r == number_field(fields_view(fields@), key@),
{
    match find_field(fields, key) {
        Some(Json::Number(n)) => Some(*n),
        _ => None,
    }
}

fn small_number_of_field(fields: &Vec<(String, Json)>, key: &str) -> (r: Option<u32>)
    ensures
        r == small_number_field(fields_view(fields@), key@),
{
    match number_of_field(fields, key) {
        Some(n) => if n <= u32::MAX as u64 {
            Some(n as u32)
        } else {
            None
        },
        None => None,
    }
}

fn manifest_path_of(fields: &Vec<(String, Json)>) -> (r: Option<Option<String>>)
    ensures
        r.deep_view() == manifest_path_field(fields_view(fields@)),
{
    match find_field(fields, "manifest_path") {
        None => Some(None),
        Some(Json::Null) => Some(None),
        Some(Json::Text(p)) => Some(Some(p.clone())),
        _ => None,
    }
}

fn meta_from(j: Option<&Json>) -> (r: Option<TestMeta>)
    ensures
        r.deep_view() == json_meta(j.deep_view()),
{
    match j {
        Some(Json::Object(m)) => {
            proof {
                lemma_object_view(*m);
            }
            let name = text_of_field(m, "name");
            let description = text_of_field(m, "description");
            let points = small_number_of_field(m, "points");
            let timeout = number_of_field(m, "timeout");
            match (name, description, points, timeout) {
                (Some(name), Some(description), Some(points), Some(timeout)) => Some(
                    TestMeta { name, description, points, timeout },
                ),
                _ => None,
            }
        },
        _ => None,
    }
}

fn kind_from(fields: &Vec<(String, Json)>) -> (r: Option<TestKind>)
    ensures
        r.deep_view() == json_kind(fields_view(fields@)),
{
    let tag = match text_of_field(fields, "type") {
        Some(tag) => tag,
        None => {
            return None;
        },
    };
    if same_text(tag.as_str(), "cargo_test") {
        match manifest_path_of(fields) {
            Some(manifest_path) => Some(TestKind::CargoTest { manifest_path }),
            None => None,
        }
    } else if same_text(tag.as_str(), "clippy") {
        match manifest_path_of(fields) {
            Some(manifest_path) => Some(TestKind::Clippy { manifest_path }),
            None => None,
        }
    } else if same_text(tag.as_str(), "commit_count") {
        match small_number_of_field(fields, "min_commits") {
            Some(min_commits) => Some(TestKind::CommitCount { min_commits }),
            None => None,
        }
    } else if same_text(tag.as_str(), "branch_count") {
        match small_number_of_field(fields, "min_branches") {
            Some(min_branches) => Some(TestKind::BranchCount { min_branches }),
            None => None,
        }
    } else if same_text(tag.as_str(), "test_count") {
        match (small_number_of_field(fields, "min_tests"), manifest_path_of(fields)) {
            (Some(min_tests), Some(manifest_path)) => Some(
                TestKind::TestCount { min_tests, manifest_path },
            ),
            _ => None,
        }
    } else {
        None
    }
}

fn stray(fields: &Vec<(String, Json)>, kind: &TestKind) -> (r: Option<String>)
    ensures
        r.deep_view() == stray_threshold(fields_view(fields@), kind.deep_view()),
{
    let commits = matches!(kind, TestKind::CommitCount { .. });
    let branches = matches!(kind, TestKind::BranchCount { .. });
    let tests = matches!(kind, TestKind::TestCount { .. });
    if find_field(fields, "min_commits").is_some() && !commits {
        Some(String::from_str("min_commits"))
    } else if find_field(fields, "min_branches").is_some() && !branches {
        Some(String::from_str("min_branches"))
    } else if find_field(fields, "min_tests").is_some() && !tests {
        Some(String::from_str("min_tests"))
    } else {
        None
    }
}

/// A check that was read, or the reason why none was, as a mathematical value.
pub open spec fn check_view(r: Result<AutoTest, ManifestError>) -> Result<
    AutoTestView,
    ManifestErrorView,
> {
    match r {
        Ok(t) => Ok(t.deep_view()),
        Err(e) => Err(e.deep_view()),
    }
}

/// The checks that were read, or the reason why none were, as a mathematical value.
pub open spec fn checks_view(r: Result<Vec<AutoTest>, ManifestError>) -> Result<
    Seq<AutoTestView>,
    ManifestErrorView,
> {
    match r {
        Ok(t) => Ok(t.deep_view()),
        Err(e) => Err(e.deep_view()),
    }
}

/// The check that the record `j` at the place `index` of the manifest stands for. A
/// record that lacks a field or holds what a field cannot hold is refused, and so is
/// one with a threshold that its kind does not use.
pub fn check_from_json(j: &Json, index: usize) -> (r: Result<AutoTest, ManifestError>)
    ensures
        check_view(r) == json_check(j.deep_view(), index as nat),
{
    match j {
        Json::Object(fields) => {
            proof {
                lemma_object_view(*fields);
            }
            match (meta_from(find_field(fields, "meta")), kind_from(fields)) {
                (Some(meta), Some(kind)) => match stray(fields, &kind) {
                    Some(name) => Err(ManifestError::Validation { index, field: name }),
                    None => Ok(AutoTest { meta, kind }),
                },
                _ => Err(ManifestError::Malformed { index }),
            }
        },
        _ => Err(ManifestError::Malformed { index }),
    }
}

/// Once the records up to one of them give an error, all of them give that error.
proof fn lemma_json_records_fail(records: Seq<JsonView>, i: int)
    requires
        0 <= i < records.len(),
        json_records(records.take(i + 1)) is Err,
    ensures
        json_records(records) == json_records(records.take(i + 1)),
    decreases records.len() - i,
{
    if i + 1 == records.len() {
        assert(records.take(i + 1) == records);
    } else {
        let next = records.take(i + 2);
        assert(next.drop_last() == records.take(i + 1));
        lemma_json_records_fail(records, i + 1);
    }
}

/// The checks that the manifest `j` stands for: `j` is a list, and each of its items
/// the record of a check. The first record that is none is reported.
pub fn checks_from_json(j: &Json) -> (r: Result<Vec<AutoTest>, ManifestError>)
    ensures
        checks_view(r) == json_checks(j.deep_view()),
{
    match j {
        Json::Array(records) => {
            proof {
                lemma_array_view(*records);
            }
            let ghost all = records.deep_view();
            let mut out: Vec<AutoTest> = Vec::new();
            let mut i: usize = 0;
            assert(all.take(0) =~= Seq::<JsonView>::empty());
            assert(out.deep_view() =~= Seq::<AutoTestView>::empty());
            while i < records.len()
                invariant
                    i <= records.len(),
                    all == records.deep_view(),
                    j.deep_view() == JsonView::Array(all),
                    json_records(all.take(i as int)) == Ok::<Seq<AutoTestView>, ManifestErrorView>(
                        out.deep_view(),
                    ),
                decreases records.len() - i,
            {
                let ghost upto = all.take(i + 1);
                assert(upto.drop_last() == all.take(i as int));
                assert(upto.last() == records@[i as int].deep_view());
                match check_from_json(&records[i], i) {
                    Ok(t) => {
                        let ghost before = out;
                        out.push(t);
                        proof {
                            lemma_deep_view_push(before, out, t);
                        }
                    },
                    Err(e) => {
                        proof {
                            assert(upto.len() == i + 1);
                            assert(json_records(upto) == Err::<
                                Seq<AutoTestView>,
                                ManifestErrorView,
                            >(e.deep_view()));
                            lemma_json_records_fail(all, i as int);
                        }
                        return Err(e);
                    },
                }
                i += 1;
            }
            assert(all.take(records.len() as int) == all);
            Ok(out)
        },
        _ => Err(ManifestError::NotAList),
    }
}

fn text_json(s: &String) -> (r: Json)
    ensures
        r.deep_view() == JsonView::Text(s@),
{
    Json::Text(s.clone())
}

fn meta_to_json(meta: &TestMeta) -> (r: Json)
    ensures
        r.deep_view() == meta_json(meta.deep_view()),
{
    let fields: Vec<(String, Json)> = vec![
        (String::from_str("name"), text_json(&meta.name)),
        (String::from_str("description"), text_json(&meta.description)),
        (String::from_str("points"), Json::Number(meta.points as u64)),
        (String::from_str("timeout"), Json::Number(meta.timeout)),
    ];
    proof {
        lemma_object_view(fields);
        assert(fields_view(fields@) =~= meta_json(meta.deep_view())->Object_0);
    }
    Json::Object(fields)
}

fn push_manifest_path(fields: &mut Vec<(String, Json)>, mp: &Option<String>)
    ensures
        fields_view(final(fields)@) == with_manifest_path(
            fields_view(old(fields)@),
            mp.deep_view(),
        ),
{
    match mp {
        Some(p) => {
            fields.push((String::from_str("manifest_path"), text_json(p)));
            assert(fields_view(fields@) =~= fields_view(old(fields)@).push(
                ("manifest_path"@, JsonView::Text(p@)),
            ));
        },
        None => {},
    }
}

fn push_number(fields: &mut Vec<(String, Json)>, name: &str, n: u32)
    ensures
        fields_view(final(fields)@) == fields_view(old(fields)@).push(
            (name@, JsonView::Number(n as u64)),
        ),
{
    fields.push((String::from_str(name), Json::Number(n as u64)));
    assert(fields_view(fields@) =~= fields_view(old(fields)@).push(
        (name@, JsonView::Number(n as u64)),
    ));
}

/// The record of the check `t`. Its fields come in a fixed order, and a check without
/// a manifest path has no field for it.
pub fn check_to_json(t: &AutoTest) -> (r: Json)
    ensures
        r.deep_view() == check_json(t.deep_view()),
{
    let tag = match &t.kind {
        TestKind::CargoTest { .. } => "cargo_test",
        TestKind::Clippy { .. } => "clippy",
        TestKind::CommitCount { .. } => "commit_count",
        TestKind::BranchCount { .. } => "branch_count",
        TestKind::TestCount { .. } => "test_count",
    };
    let mut fields: Vec<(String, Json)> = vec![
        (String::from_str("meta"), meta_to_json(&t.meta)),
        (String::from_str("type"), Json::Text(String::from_str(tag))),
    ];
    assert(fields_view(fields@) =~= head_fields(t.deep_view()));
    match &t.kind {
        TestKind::CargoTest { manifest_path } => {
            push_manifest_path(&mut fields, manifest_path);
        },
        TestKind::Clippy { manifest_path } => {
            push_manifest_path(&mut fields, manifest_path);
        },
        TestKind::CommitCount { min_commits } => {
            push_number(&mut fields, "min_commits", *min_commits);
        },
        TestKind::BranchCount { min_branches } => {
            push_number(&mut fields, "min_branches", *min_branches);
        },
        TestKind::TestCount { min_tests, manifest_path } => {
            push_number(&mut fields, "min_tests", *min_tests);
            push_manifest_path(&mut fields, manifest_path);
        },
    }
    proof {
        lemma_object_view(fields);
    }
    Json::Object(fields)
}

/// The manifest of `checks`: the list of their records, in order.
pub fn checks_to_json(checks: &Vec<AutoTest>) -> (r: Json)
    ensures
        r.deep_view() == checks_json(checks.deep_view()),
{
    let ghost want = checks.deep_view().map_values(|t: AutoTestView| check_json(t));
    let mut records: Vec<Json> = Vec::new();
    let mut i: usize = 0;
    assert(records.deep_view() =~= want.take(0));
    while i < checks.len()
        invariant
            i <= checks.len(),
            want == checks.deep_view().map_values(|t: AutoTestView| check_json(t)),
            records.deep_view() == want.take(i as int),
        decreases checks.len() - i,
    {
        let record = check_to_json(&checks[i]);
        let ghost before = records;
        records.push(record);
        proof {
            lemma_deep_view_push(before, records, record);
            assert(checks.deep_view()[i as int] == checks@[i as int].deep_view());
            assert(records.deep_view() =~= want.take(i + 1));
        }
        i += 1;
    }
    assert(want.take(checks.len() as int) == want);
    proof {
        lemma_array_view(records);
    }
    Json::Array(records)
}

/// Whether every number in `j` is a whole number that is not negative.
pub open spec fn is_plain(j: JsonView) -> bool
    decreases j,
{
    match j {
        JsonView::OtherNumber => false,
        JsonView::Array(items) => forall|i: int|
            0 <= i < items.len() ==> is_plain(#[trigger] items[i]),
        JsonView::Object(fields) => forall|i: int|
            0 <= i < fields.len() ==> is_plain((#[trigger] fields[i]).1),
        _ => true,
    }
}

/// The record of a check holds no other numbers than whole ones that are not negative.
pub proof fn lemma_check_json_plain(t: AutoTestView)
    ensures
        is_plain(check_json(t)),
{
    let meta = meta_json(t.meta);
    assert(is_plain(meta)) by {
        let m = meta->Object_0;
        assert forall|i: int| 0 <= i < m.len() implies is_plain((#[trigger] m[i]).1) by {
            if i == 0 {
            } else if i == 1 {
            } else if i == 2 {
            } else {
            }
        }
    }
    let head = head_fields(t);
    assert forall|i: int| 0 <= i < head.len() implies is_plain((#[trigger] head[i]).1) by {
        if i == 0 {
        } else {
        }
    }
    let fields = check_json(t)->Object_0;
    assert forall|i: int| 0 <= i < fields.len() implies is_plain((#[trigger] fields[i]).1) by {
        if i < 2 {
            assert(fields[i] == head[i]);
        }
    }
}

/// The manifest of a list of checks holds no other numbers than whole ones that are
/// not negative.
pub proof fn lemma_checks_json_plain(checks: Seq<AutoTestView>)
    ensures
        is_plain(checks_json(checks)),
{
    let records = checks_json(checks)->Array_0;
    assert forall|i: int| 0 <= i < records.len() implies is_plain(#[trigger] records[i]) by {
        lemma_check_json_plain(checks[i]);
    }
}

/// A JSON value, as `serde_json` holds it.
#[verifier::external_type_specification]
#[verifier::external_body]
pub struct ExValue(serde_json::Value);

/// What `serde_json::from_str` makes of a text, read as a `serde_json::Value` and
/// written in the library's own type; or the message of the error it returns.
pub uninterp spec fn parsed_json(text: Seq<char>) -> Result<JsonView, Seq<char>>;

/// What `serde_json::to_string_pretty` makes of a value; `None` where it returns an
/// error.
pub uninterp spec fn pretty_json(j: JsonView) -> Option<Seq<char>>;

/// `serde_json::from_str`, asked for a `serde_json::Value`, which is then written in
/// the library's own type; its error is returned as its message. The contract only
/// gives the outcome a name.
#[verifier::external_body]
fn parse_json(text: &str) -> (r: Result<Json, String>)
    ensures
        match r {
            Ok(j) => parsed_json(text@) == Ok::<JsonView, Seq<char>>(j.deep_view()),
            Err(e) => parsed_json(text@) == Err::<JsonView, Seq<char>>(e@),
        },
{
    match serde_json::from_str::<serde_json::Value>(text) {
        Ok(v) => Ok(json_of(&v)),
        Err(e) => Err(e.to_string()),
    }
}

/// Writes a `serde_json::Value` in the library's own type, variant for variant; a
/// number is `Number` where `serde_json::Number::as_u64` gives it, `OtherNumber` where
/// it does not. The fields of an object keep their order.
#[verifier::external_body]
fn json_of(v: &serde_json::Value) -> Json {
    match v {
        serde_json::Value::Null => Json::Null,
        serde_json::Value::Bool(b) => Json::Bool(*b),
        serde_json::Value::Number(n) => match n.as_u64() {
            Some(u) => Json::Number(u),
            None => Json::OtherNumber,
        },
        serde_json::Value::String(s) => Json::Text(s.clone()),
        serde_json::Value::Array(a) => Json::Array(a.iter().map(json_of).collect()),
        serde_json::Value::Object(o) => Json::Object(
            o.iter().map(|(k, v)| (k.clone(), json_of(v))).collect(),
        ),
    }
}

/// `serde_json::to_string_pretty` on the `serde_json::Value` that `j` stands for. The
/// contract only gives the result a name; it leaves out a `j` with a number that the
/// library's type does not hold.
#[verifier::external_body]
fn print_json(j: &Json) -> (r: Option<String>)
    requires
        is_plain(j.deep_view()),
    ensures
        r.deep_view() == pretty_json(j.deep_view()),
{
    serde_json::to_string_pretty(&value_of(j)).ok()
}

/// Writes a `Json` as a `serde_json::Value`, variant for variant. The fields of an
/// object keep their order.
#[verifier::external_body]
fn value_of(j: &Json) -> serde_json::Value
    requires
        is_plain(j.deep_view()),
{
    match j {
        Json::Null | Json::OtherNumber => serde_json::Value::Null,
        Json::Bool(b) => serde_json::Value::Bool(*b),
        Json::Number(n) => serde_json::Value::Number(serde_json::Number::from(*n)),
        Json::Text(s) => serde_json::Value::String(s.clone()),
        Json::Array(a) => serde_json::Value::Array(a.iter().map(value_of).collect()),
        Json::Object(o) => serde_json::Value::Object(
            o.iter().map(|(k, v)| (k.clone(), value_of(v))).collect(),
        ),
    }
}

/// The text of the manifest of `checks`, as it is written to disk; `None` where the
/// printer fails.
pub fn manifest_text(checks: &Vec<AutoTest>) -> (r: Option<String>)
    ensures
        r.deep_view() == pretty_json(checks_json(checks.deep_view())),
{
    let j = checks_to_json(checks);
    proof {
        lemma_checks_json_plain(checks.deep_view());
    }
    print_json(&j)
}

/// The checks that a manifest must hold to be of use: `checks` where there are any.
pub open spec fn non_empty(checks: Result<Seq<AutoTestView>, ManifestErrorView>) -> Result<
    Seq<AutoTestView>,
    ManifestErrorView,
> {
    match checks {
        Ok(found) => if found.len() == 0 {
            Err(ManifestErrorView::Empty)
        } else {
            Ok(found)
        },
        Err(e) => Err(e),
    }
}

/// The checks of the manifest with the text `text`, of which the parser made `parsed`.
pub open spec fn config_of(parsed: Result<JsonView, Seq<char>>) -> Result<
    Seq<AutoTestView>,
    ManifestErrorView,
> {
    match parsed {
        Ok(j) => non_empty(json_checks(j)),
        Err(message) => Err(ManifestErrorView::Syntax { message }),
    }
}

/// The checks of the manifest `j`, which must hold one at least.
pub fn manifest_from_json(j: &Json) -> (r: Result<Vec<AutoTest>, ManifestError>)
    ensures
        checks_view(r) == non_empty(json_checks(j.deep_view())),
{
    match checks_from_json(j) {
        Ok(checks) => {
            if checks.len() == 0 {
                Err(ManifestError::Empty)
            } else {
                Ok(checks)
            }
        },
        Err(e) => Err(e),
    }
}

/// Reads the manifest from its text. It fails where the text is no JSON, where the
/// JSON is no list of records of checks, and where the list is empty.
pub fn read_autograder_config(text: &str) -> (r: Result<Vec<AutoTest>, ManifestError>)
    ensures
        checks_view(r) == config_of(parsed_json(text@)),
{
    match parse_json(text) {
        Ok(j) => manifest_from_json(&j),
        Err(message) => Err(ManifestError::Syntax { message }),
    }
}

} // verus!
