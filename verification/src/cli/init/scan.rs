//! Finding the test functions of a source file.
use crate::cli::init::functions::DEFAULT_TIMEOUT;
use crate::sorted::{
    ascending, insert_text, is_ascending, lemma_ascending_of_set, lemma_push_to_set,
};
use crate::text::{clone_text, join, joined, lemma_deep_view_push, same_text, trim, trimmed};
use crate::types::{AutoTest, AutoTestView, TestKind, TestKindView, TestMeta, TestMetaView};
use crate::utils::{RustFile, RustFileView};
use crate::utils::paths::{rel_unix_path, to_rel_unix_path};
use vstd::prelude::*;
use vstd::string::StringExecFns;

verus! {

/// The path of an attribute, such as `tokio::test`.
#[derive(Debug)]
pub struct MarkerPath {
    /// Whether the path starts with `::`.
    pub leading_colon: bool,
    /// The names between the `::`, in order.
    pub segments: Vec<String>,
}

/// What an attribute says, in one of its three forms.
#[derive(Debug)]
pub enum Marker {
    /// A bare path, such as `test`.
    Path { path: MarkerPath },
    /// A path with arguments, such as `cfg_attr(test, tokio::test)`. `nested` holds
    /// the arguments where they read as markers separated by commas.
    List { path: MarkerPath, nested: Option<Vec<Marker>> },
    /// A path with a value, such as `doc = "text"`. `text` holds the value where it
    /// is a string literal.
    NameValue { path: MarkerPath, text: Option<String> },
}

/// An item of a source file, as far as the search for tests reads it.
#[derive(Debug)]
pub enum SourceItem {
    /// A function with its attributes, in source order.
    Function { name: String, attrs: Vec<Marker> },
    /// A module. `items` holds its items where its body stands in the same file.
    Module { items: Option<Vec<SourceItem>> },
    /// Anything else.
    Other,
}

/// A `MarkerPath` as a mathematical value.
pub struct MarkerPathView {
    pub leading_colon: bool,
    pub segments: Seq<Seq<char>>,
}

/// A `Marker` as a mathematical value.
pub enum MarkerView {
    Path { path: MarkerPathView },
    List { path: MarkerPathView, nested: Option<Seq<MarkerView>> },
    NameValue { path: MarkerPathView, text: Option<Seq<char>> },
}

/// A `SourceItem` as a mathematical value.
pub enum SourceItemView {
    Function { name: Seq<char>, attrs: Seq<MarkerView> },
    Module { items: Option<Seq<SourceItemView>> },
    Other,
}

impl DeepView for MarkerPath {
    type V = MarkerPathView;

    open spec fn deep_view(&self) -> MarkerPathView {
        MarkerPathView { leading_colon: self.leading_colon, segments: self.segments.deep_view() }
    }
}

/// The value of a marker.
pub open spec fn marker_view(m: Marker) -> MarkerView
    decreases m,
{
    match m {
        Marker::Path { path } => MarkerView::Path { path: path.deep_view() },
        Marker::List { path, nested } => MarkerView::List {
            path: path.deep_view(),
            nested: match nested {
                Some(v) => Some(
                    Seq::new(
                        v@.len(),
                        |i: int|
                            if 0 <= i < v@.len() {
                                marker_view(v@[i])
                            } else {
                                arbitrary()
                            },
                    ),
                ),
                None => None,
            },
        },
        Marker::NameValue { path, text } => MarkerView::NameValue {
            path: path.deep_view(),
            text: text.deep_view(),
        },
    }
}

impl DeepView for Marker {
    type V = MarkerView;

    open spec fn deep_view(&self) -> MarkerView {
        marker_view(*self)
    }
}

/// The value of an item.
pub open spec fn item_view(item: SourceItem) -> SourceItemView
    decreases item,
{
    match item {
        SourceItem::Function { name, attrs } => SourceItemView::Function {
            name: name@,
            attrs: attrs.deep_view(),
        },
        SourceItem::Module { items } => SourceItemView::Module {
            items: match items {
                Some(v) => Some(
                    Seq::new(
                        v@.len(),
                        |i: int|
                            if 0 <= i < v@.len() {
                                item_view(v@[i])
                            } else {
                                arbitrary()
                            },
                    ),
                ),
                None => None,
            },
        },
        SourceItem::Other => SourceItemView::Other,
    }
}

impl DeepView for SourceItem {
    type V = SourceItemView;

    open spec fn deep_view(&self) -> SourceItemView {
        item_view(*self)
    }
}

/// A test function that was found.
#[derive(Debug, Clone)]
pub struct Test {
    /// The name of the function.
    pub name: String,
    /// Its documentation; empty where it has none.
    pub docstring: String,
}

/// A `Test` as a mathematical value.
pub struct TestView {
    pub name: Seq<char>,
    pub docstring: Seq<char>,
}

impl DeepView for Test {
    type V = TestView;

    open spec fn deep_view(&self) -> TestView {
        TestView { name: self.name@, docstring: self.docstring@ }
    }
}

/// Why a source text could not be read.
#[derive(Debug)]
pub struct ParseError {
    /// What the parser said.
    pub message: String,
}

/// Whether the last name of `p` is `ident`.
pub open spec fn path_ends_with(p: MarkerPathView, ident: Seq<char>) -> bool {
    p.segments.len() > 0 && p.segments.last() == ident
}

/// Whether `p` is the single name `ident`, with no `::` before it.
pub open spec fn path_is_ident(p: MarkerPathView, ident: Seq<char>) -> bool {
    !p.leading_colon && p.segments.len() == 1 && p.segments[0] == ident
}

/// The path of a marker.
pub open spec fn marker_path(m: MarkerView) -> MarkerPathView {
    match m {
        MarkerView::Path { path } => path,
        MarkerView::List { path, .. } => path,
        MarkerView::NameValue { path, .. } => path,
    }
}

/// Whether a marker names a test: its path ends in `test`, or it has arguments of
/// which one names a test.
pub open spec fn ends_with_test(m: MarkerView) -> bool
    decreases m,
{
    path_ends_with(marker_path(m), "test"@) || match m {
        MarkerView::List { nested: Some(v), .. } => exists|i: int|
            0 <= i < v.len() && ends_with_test(#[trigger] v[i]),
        _ => false,
    }
}

/// Whether an attribute marks its function as a test: its path ends in `test`, or it
/// is a `cfg_attr` of which an argument after the first, the condition, names a test.
pub open spec fn marks_test(m: MarkerView) -> bool {
    path_ends_with(marker_path(m), "test"@) || (path_is_ident(marker_path(m), "cfg_attr"@)
        && match m {
        MarkerView::List { nested: Some(v), .. } => exists|i: int|
            1 <= i < v.len() && ends_with_test(#[trigger] v[i]),
        _ => false,
    })
}

/// Whether one of the attributes marks a test.
pub open spec fn has_test_marker(attrs: Seq<MarkerView>) -> bool {
    exists|i: int| 0 <= i < attrs.len() && marks_test(#[trigger] attrs[i])
}

/// The text of a documentation attribute; `None` for any other attribute.
pub open spec fn doc_text(m: MarkerView) -> Option<Seq<char>> {
    match m {
        MarkerView::NameValue { path, text } => if path_is_ident(path, "doc"@) {
            text
        } else {
            None
        },
        _ => None,
    }
}

/// The texts of the documentation attributes among `attrs`, in order.
pub open spec fn doc_texts(attrs: Seq<MarkerView>) -> Seq<Seq<char>>
    decreases attrs.len(),
{
    if attrs.len() == 0 {
        Seq::empty()
    } else {
        match doc_text(attrs.last()) {
            Some(t) => doc_texts(attrs.drop_last()).push(t),
            None => doc_texts(attrs.drop_last()),
        }
    }
}

/// The documentation of a function with the attributes `attrs`: the texts of its
/// documentation attributes, one to a line, without the white space at either end.
pub open spec fn docstring_of(attrs: Seq<MarkerView>) -> Seq<char> {
    trimmed(joined(doc_texts(attrs), seq!['\n']))
}

/// A function without documentation attributes has the empty documentation.
pub proof fn lemma_no_docs_no_docstring(attrs: Seq<MarkerView>)
    requires
        forall|i: int| 0 <= i < attrs.len() ==> doc_text(#[trigger] attrs[i]) is None,
    ensures
        docstring_of(attrs) == Seq::<char>::empty(),
{
    lemma_no_doc_texts(attrs);
    assert(joined(doc_texts(attrs), seq!['\n']) == Seq::<char>::empty());
}

proof fn lemma_no_doc_texts(attrs: Seq<MarkerView>)
    requires
        forall|i: int| 0 <= i < attrs.len() ==> doc_text(#[trigger] attrs[i]) is None,
    ensures
        doc_texts(attrs) == Seq::<Seq<char>>::empty(),
    decreases attrs.len(),
{
    if attrs.len() > 0 {
        let init = attrs.drop_last();
        assert forall|i: int| 0 <= i < init.len() implies doc_text(#[trigger] init[i]) is None by {
            assert(init[i] == attrs[i]);
        }
        lemma_no_doc_texts(init);
        assert(doc_text(attrs[attrs.len() - 1]) is None);
    }
}

/// The tests among `items` and inside their modules, in source order.
pub open spec fn tests_in(items: Seq<SourceItemView>) -> Seq<TestView>
    decreases items,
{
    if items.len() == 0 {
        Seq::empty()
    } else {
        tests_in(items.drop_last()) + tests_of(items.last())
    }
}

/// The tests that one item holds: itself where it is a function marked as a test,
/// those of its items where it is a module whose body is at hand.
pub open spec fn tests_of(item: SourceItemView) -> Seq<TestView>
    decreases item,
{
    match item {
        SourceItemView::Function { name, attrs } => if has_test_marker(attrs) {
            seq![TestView { name, docstring: docstring_of(attrs) }]
        } else {
            Seq::empty()
        },
        SourceItemView::Module { items: Some(v) } => tests_in(v),
        _ => Seq::empty(),
    }
}

/// A function as it stands in a source file: its name and its attributes.
pub struct FunctionView {
    pub name: Seq<char>,
    pub attrs: Seq<MarkerView>,
}

/// The functions among `items` and inside their modules, in source order.
pub open spec fn functions_in(items: Seq<SourceItemView>) -> Seq<FunctionView>
    decreases items,
{
    if items.len() == 0 {
        Seq::empty()
    } else {
        functions_in(items.drop_last()) + functions_of(items.last())
    }
}

/// The functions that one item holds: itself where it is a function, those of its
/// items where it is a module whose body is at hand.
pub open spec fn functions_of(item: SourceItemView) -> Seq<FunctionView>
    decreases item,
{
    match item {
        SourceItemView::Function { name, attrs } => seq![FunctionView { name, attrs }],
        SourceItemView::Module { items: Some(v) } => functions_in(v),
        _ => Seq::empty(),
    }
}

/// The test that a function is, where an attribute marks it as one.
pub open spec fn test_of() -> spec_fn(FunctionView) -> Option<TestView> {
    |f: FunctionView|
        if has_test_marker(f.attrs) {
            Some(TestView { name: f.name, docstring: docstring_of(f.attrs) })
        } else {
            None
        }
}

proof fn lemma_filter_map_concat<A, B>(a: Seq<A>, b: Seq<A>, f: spec_fn(A) -> Option<B>)
    ensures
        (a + b).filter_map(f) == a.filter_map(f) + b.filter_map(f),
    decreases b.len(),
{
    if b.len() == 0 {
        assert(a + b =~= a);
        assert(a.filter_map(f) + b.filter_map(f) =~= a.filter_map(f));
    } else {
        let whole = a + b;
        assert(whole.drop_last() =~= a + b.drop_last());
        assert(whole.last() == b.last());
        lemma_filter_map_concat(a, b.drop_last(), f);
        match f(b.last()) {
            Some(x) => {
                assert(whole.filter_map(f) =~= a.filter_map(f) + (b.drop_last().filter_map(f)
                    + seq![x]));
            },
            None => {},
        }
    }
}

/// The tests that are found are the functions that an attribute marks as a test:
/// all of them, each once and under its own name, in source order, and no function
/// that no attribute marks.
pub proof fn lemma_tests_are_the_marked_functions(items: Seq<SourceItemView>)
    ensures
        tests_in(items) == functions_in(items).filter_map(test_of()),
    decreases items,
{
    if items.len() > 0 {
        lemma_tests_are_the_marked_functions(items.drop_last());
        lemma_tests_of_item(items.last());
        lemma_filter_map_concat(
            functions_in(items.drop_last()),
            functions_of(items.last()),
            test_of(),
        );
    }
}

proof fn lemma_tests_of_item(item: SourceItemView)
    ensures
        tests_of(item) == functions_of(item).filter_map(test_of()),
    decreases item,
{
    match item {
        SourceItemView::Function { name, attrs } => {
            Seq::lemma_filter_map_singleton(FunctionView { name, attrs }, test_of());
        },
        SourceItemView::Module { items: Some(v) } => {
            lemma_tests_are_the_marked_functions(v);
        },
        _ => {},
    }
}

fn path_ends_with_name(p: &MarkerPath, ident: &str) -> (r: bool)
    ensures
        r == path_ends_with(p.deep_view(), ident@),
{
    let n = p.segments.len();
    if n == 0 {
        return false;
    }
    assert(p.deep_view().segments.last() == p.segments@[n - 1]@);
    same_text(p.segments[n - 1].as_str(), ident)
}

fn path_is_name(p: &MarkerPath, ident: &str) -> (r: bool)
    ensures
        r == path_is_ident(p.deep_view(), ident@),
{
    if p.leading_colon || p.segments.len() != 1 {
        return false;
    }
    assert(p.deep_view().segments[0] == p.segments@[0]@);
    same_text(p.segments[0].as_str(), ident)
}

fn path_of_marker(m: &Marker) -> (r: &MarkerPath)
    ensures
        r.deep_view() == marker_path(m.deep_view()),
{
    match m {
        Marker::Path { path } => path,
        Marker::List { path, .. } => path,
        Marker::NameValue { path, .. } => path,
    }
}

/// Whether one of the markers of `v` from `from` on names a test.
fn any_ends_with_test(v: &Vec<Marker>, from: usize) -> (r: bool)
    ensures
        r == exists|i: int| from <= i < v.len() && ends_with_test(#[trigger] v.deep_view()[i]),
    decreases v, 0nat,
{
    let mut i: usize = from;
    while i < v.len()
        invariant
            from <= i,
            forall|k: int|
                from <= k < i && k < v.len() ==> !ends_with_test(#[trigger] v.deep_view()[k]),
        decreases v.len() - i,
    {
        assert(v.deep_view()[i as int] == v@[i as int].deep_view());
        if meta_ends_with_test(&v[i]) {
            return true;
        }
        i += 1;
    }
    false
}

fn meta_ends_with_test(m: &Marker) -> (r: bool)
    ensures
        r == ends_with_test(m.deep_view()),
    decreases *m, 1nat,
{
    if path_ends_with_name(path_of_marker(m), "test") {
        return true;
    }
    match m {
        Marker::List { nested: Some(v), .. } => {
            assert(m.deep_view()->List_nested == Some(v.deep_view())) by {
                assert(m.deep_view()->List_nested->0 =~= v.deep_view());
            }
            any_ends_with_test(v, 0)
        },
        _ => false,
    }
}

fn attr_is_test(attr: &Marker) -> (r: bool)
    ensures
        r == marks_test(attr.deep_view()),
{
    let path = path_of_marker(attr);
    if path_ends_with_name(path, "test") {
        return true;
    }
    if path_is_name(path, "cfg_attr") {
        match attr {
            Marker::List { nested: Some(v), .. } => {
                assert(attr.deep_view()->List_nested == Some(v.deep_view())) by {
                    assert(attr.deep_view()->List_nested->0 =~= v.deep_view());
                }
                return any_ends_with_test(v, 1);
            },
            _ => {},
        }
    }
    false
}

fn has_test_attr(attrs: &Vec<Marker>) -> (r: bool)
    ensures
        r == has_test_marker(attrs.deep_view()),
{
    let mut i: usize = 0;
    while i < attrs.len()
        invariant
            i <= attrs.len(),
            forall|k: int| 0 <= k < i ==> !marks_test(#[trigger] attrs.deep_view()[k]),
        decreases attrs.len() - i,
    {
        assert(attrs.deep_view()[i as int] == attrs@[i as int].deep_view());
        if attr_is_test(&attrs[i]) {
            return true;
        }
        i += 1;
    }
    false
}

fn collect_docstring(attrs: &Vec<Marker>) -> (r: String)
    ensures
        r@ == docstring_of(attrs.deep_view()),
{
    let mut docs: Vec<String> = Vec::new();
    let mut i: usize = 0;
    assert(attrs.deep_view().take(0) =~= Seq::<MarkerView>::empty());
    assert(docs.deep_view() =~= Seq::<Seq<char>>::empty());
    while i < attrs.len()
        invariant
            i <= attrs.len(),
            docs.deep_view() == doc_texts(attrs.deep_view().take(i as int)),
        decreases attrs.len() - i,
    {
        let ghost upto = attrs.deep_view().take(i + 1);
        assert(upto.drop_last() == attrs.deep_view().take(i as int));
        assert(upto.last() == attrs@[i as int].deep_view());
        match &attrs[i] {
            Marker::NameValue { path, text: Some(t) } => {
                if path_is_name(path, "doc") {
                    let ghost before = docs;
                    let line = t.clone();
                    docs.push(line);
                    proof {
                        lemma_deep_view_push(before, docs, line);
                    }
                }
            },
            _ => {},
        }
        i += 1;
    }
    assert(attrs.deep_view().take(attrs.len() as int) == attrs.deep_view());
    proof {
        reveal_strlit("\n");
        assert("\n"@ =~= seq!['\n']);
    }
    let all = join(&docs, "\n");
    trim(all.as_str())
}

/// Adds to `out` the tests among `items` and inside their modules, in source order.
fn collect_into(items: &Vec<SourceItem>, out: &mut Vec<Test>)
    ensures
        final(out).deep_view() == old(out).deep_view() + tests_in(items.deep_view()),
    decreases items,
{
    let mut i: usize = 0;
    assert(items.deep_view().take(0) =~= Seq::<SourceItemView>::empty());
    assert(out.deep_view() + Seq::<TestView>::empty() =~= out.deep_view());
    while i < items.len()
        invariant
            i <= items.len(),
            out.deep_view() == old(out).deep_view() + tests_in(items.deep_view().take(i as int)),
        decreases items.len() - i,
    {
        let ghost upto = items.deep_view().take(i + 1);
        let ghost base = out.deep_view();
        assert(upto.drop_last() == items.deep_view().take(i as int));
        assert(upto.last() == items@[i as int].deep_view());
        match &items[i] {
            SourceItem::Function { name, attrs } => {
                if has_test_attr(attrs) {
                    let ghost before = *out;
                    let t = Test { name: name.clone(), docstring: collect_docstring(attrs) };
                    out.push(t);
                    proof {
                        lemma_deep_view_push(before, *out, t);
                        assert(base.push(t.deep_view()) =~= base + seq![t.deep_view()]);
                        assert(out.deep_view() == base + tests_of(upto.last()));
                    }
                } else {
                    assert(base + Seq::<TestView>::empty() =~= base);
                    assert(out.deep_view() == base + tests_of(upto.last()));
                }
            },
            SourceItem::Module { items: Some(inner) } => {
                assert(items@[i as int].deep_view()->Module_items == Some(inner.deep_view())) by {
                    assert(items@[i as int].deep_view()->Module_items->0 =~= inner.deep_view());
                }
                collect_into(inner, out);
                assert(out.deep_view() == base + tests_of(upto.last()));
            },
            _ => {
                assert(base + Seq::<TestView>::empty() =~= base);
                assert(out.deep_view() == base + tests_of(upto.last()));
            },
        }
        assert(out.deep_view() =~= old(out).deep_view() + (tests_in(upto.drop_last()) + tests_of(
            upto.last(),
        )));
        i += 1;
    }
    assert(items.deep_view().take(items.len() as int) == items.deep_view());
}

/// The tests among `items` and inside their modules, in source order: the functions
/// that an attribute marks as a test, each with its documentation.
pub fn collect_tests(items: &Vec<SourceItem>) -> (r: Vec<Test>)
    ensures
        r.deep_view() == tests_in(items.deep_view()),
{
    let mut out: Vec<Test> = Vec::new();
    assert(out.deep_view() =~= Seq::<TestView>::empty());
    collect_into(items, &mut out);
    assert(Seq::<TestView>::empty() + tests_in(items.deep_view()) =~= tests_in(items.deep_view()));
    out
}

/// An item of a parsed file, as `syn` holds it.
#[verifier::external_type_specification]
#[verifier::external_body]
pub struct ExItem(syn::Item);

/// What an attribute says, as `syn` holds it.
#[verifier::external_type_specification]
#[verifier::external_body]
pub struct ExMeta(syn::Meta);

/// What `syn::parse_file` makes of a source text, written in the library's own types:
/// the items of the file, or the parser's message.
pub uninterp spec fn parsed_source(src: Seq<char>) -> Result<Seq<SourceItemView>, Seq<char>>;

/// `syn::parse_file`, with the items of the file it returns written in the library's
/// own types, and the error it returns as its message. The contract only gives the
/// outcome a name.
#[verifier::external_body]
fn parse_source(src: &str) -> (r: Result<Vec<SourceItem>, String>)
    ensures
        match r {
            Ok(items) => parsed_source(src@) == Ok::<Seq<SourceItemView>, Seq<char>>(
                items.deep_view(),
            ),
            Err(e) => parsed_source(src@) == Err::<Seq<SourceItemView>, Seq<char>>(e@),
        },
{
    match syn::parse_file(src) {
        Ok(file) => Ok(file.items.iter().map(item_of).collect()),
        Err(e) => Err(e.to_string()),
    }
}

/// Writes a `syn::Item` in the library's own type: a function with its name and the
/// meaning of each of its attributes, a module with its items where `syn` has them,
/// anything else as `Other`.
#[verifier::external_body]
fn item_of(item: &syn::Item) -> SourceItem {
    match item {
        syn::Item::Fn(f) => SourceItem::Function {
            name: f.sig.ident.to_string(),
            attrs: f.attrs.iter().map(|a| marker_of(&a.meta)).collect(),
        },
        syn::Item::Mod(m) => SourceItem::Module {
            items: m.content.as_ref().map(|c| c.1.iter().map(item_of).collect()),
        },
        _ => SourceItem::Other,
    }
}

/// Writes a `syn::Meta` in the library's own type, variant for variant. The value of
/// a name-value pair is kept where it is a string literal, as `syn::LitStr::value`
/// gives it.
#[verifier::external_body]
fn marker_of(meta: &syn::Meta) -> Marker {
    match meta {
        syn::Meta::Path(_) => Marker::Path { path: path_of(meta) },
        syn::Meta::List(_) => Marker::List { path: path_of(meta), nested: nested_of(meta) },
        syn::Meta::NameValue(nv) => Marker::NameValue {
            path: path_of(meta),
            text: match &nv.value {
                syn::Expr::Lit(syn::ExprLit { lit: syn::Lit::Str(s), .. }) => Some(s.value()),
                _ => None,
            },
        },
    }
}

/// `syn::MetaList::parse_args_with`, asked to read the arguments of a list as markers
/// separated by commas: the markers in the library's own type, or `None` where the
/// arguments do not read so, and for a marker that is no list.
#[verifier::external_body]
fn nested_of(meta: &syn::Meta) -> Option<Vec<Marker>> {
    let markers = syn::punctuated::Punctuated::<syn::Meta, syn::token::Comma>::parse_terminated;
    match meta {
        syn::Meta::List(list) => match list.parse_args_with(markers) {
            Ok(args) => Some(args.iter().map(marker_of).collect()),
            Err(_) => None,
        },
        _ => None,
    }
}

/// `syn::Meta::path`, written in the library's own type: whether the path starts with
/// `::`, and the name of each of its segments.
#[verifier::external_body]
fn path_of(meta: &syn::Meta) -> MarkerPath {
    MarkerPath {
        leading_colon: meta.path().leading_colon.is_some(),
        segments: meta.path().segments.iter().map(|s| s.ident.to_string()).collect(),
    }
}

/// What `extract_tests` returns for a source text of which the parser made `parsed`.
pub open spec fn extracted(parsed: Result<Seq<SourceItemView>, Seq<char>>) -> Result<
    Seq<TestView>,
    Seq<char>,
> {
    match parsed {
        Ok(items) => Ok(tests_in(items)),
        Err(message) => Err("failed to parse Rust source: "@ + message),
    }
}

/// An outcome of `extract_tests` as a mathematical value.
pub open spec fn extraction_view(r: Result<Vec<Test>, ParseError>) -> Result<
    Seq<TestView>,
    Seq<char>,
> {
    match r {
        Ok(tests) => Ok(tests.deep_view()),
        Err(e) => Err(e.message@),
    }
}

/// The test functions of the source text `src`, each with its documentation, in source
/// order; or the parser's complaint where `src` is no valid source text.
pub fn extract_tests(src: &str) -> (r: Result<Vec<Test>, ParseError>)
    ensures
        extraction_view(r) == extracted(parsed_source(src@)),
{
    match parse_source(src) {
        Ok(items) => Ok(collect_tests(&items)),
        Err(e) => {
            let mut message = String::from_str("failed to parse Rust source: ");
            message.append(e.as_str());
            Err(ParseError { message })
        },
    }
}

/// A source file that was read: where it lies, and its text.
#[derive(Debug, Clone)]
pub struct LoadedFile {
    pub file: RustFile,
    pub source: String,
}

/// A `LoadedFile` as a mathematical value.
pub struct LoadedFileView {
    pub file: RustFileView,
    pub source: Seq<char>,
}

impl DeepView for LoadedFile {
    type V = LoadedFileView;

    open spec fn deep_view(&self) -> LoadedFileView {
        LoadedFileView { file: self.file.deep_view(), source: self.source@ }
    }
}

/// A test together with the manifest of the build unit that holds it.
#[derive(Debug, Clone)]
pub struct TestWithManifest {
    pub test: Test,
    pub manifest_path: Option<String>,
}

/// A `TestWithManifest` as a mathematical value.
pub struct TestWithManifestView {
    pub test: TestView,
    pub manifest_path: Option<Seq<char>>,
}

impl DeepView for TestWithManifest {
    type V = TestWithManifestView;

    open spec fn deep_view(&self) -> TestWithManifestView {
        TestWithManifestView {
            test: self.test.deep_view(),
            manifest_path: self.manifest_path.deep_view(),
        }
    }
}

/// A source file that could not be read as source text.
#[derive(Debug)]
pub struct ScanError {
    /// Where the file lies.
    pub path: String,
    /// What the parser said.
    pub message: String,
}

/// A `ScanError` as a mathematical value.
pub struct ScanErrorView {
    pub path: Seq<char>,
    pub message: Seq<char>,
}

impl DeepView for ScanError {
    type V = ScanErrorView;

    open spec fn deep_view(&self) -> ScanErrorView {
        ScanErrorView { path: self.path@, message: self.message@ }
    }
}

/// The tests of one file, each with the file's manifest; or the file's path with the
/// parser's complaint. `tests` is what `extract_tests` gives for the file's text.
pub open spec fn found_in(file: RustFileView, tests: Result<Seq<TestView>, Seq<char>>) -> Result<
    Seq<TestWithManifestView>,
    ScanErrorView,
> {
    match tests {
        Ok(found) => Ok(
            found.map_values(
                |t: TestView| TestWithManifestView { test: t, manifest_path: file.manifest_path },
            ),
        ),
        Err(message) => Err(ScanErrorView { path: file.path, message }),
    }
}

/// The tests of all of `files`, file after file; or the error of the first file that
/// cannot be read.
pub open spec fn found_all(files: Seq<LoadedFileView>) -> Result<
    Seq<TestWithManifestView>,
    ScanErrorView,
>
    decreases files.len(),
{
    if files.len() == 0 {
        Ok(Seq::empty())
    } else {
        match found_all(files.drop_last()) {
            Err(e) => Err(e),
            Ok(before) => match found_in(
                files.last().file,
                extracted(parsed_source(files.last().source)),
            ) {
                Err(e) => Err(e),
                Ok(more) => Ok(before + more),
            },
        }
    }
}

/// An outcome of `find_all_tests` as a mathematical value.
pub open spec fn found_view(r: Result<Vec<TestWithManifest>, ScanError>) -> Result<
    Seq<TestWithManifestView>,
    ScanErrorView,
> {
    match r {
        Ok(tests) => Ok(tests.deep_view()),
        Err(e) => Err(e.deep_view()),
    }
}

/// Gives each test of `tests` the manifest of `file`, or reports `file` with the
/// parser's complaint.
pub fn attach_manifest(file: &RustFile, tests: Result<Vec<Test>, ParseError>) -> (r: Result<
    Vec<TestWithManifest>,
    ScanError,
>)
    ensures
        found_view(r) == found_in(file.deep_view(), extraction_view(tests)),
{
    match tests {
        Ok(found) => {
            let ghost want = found.deep_view().map_values(
                |t: TestView|
                    TestWithManifestView {
                        test: t,
                        manifest_path: file.deep_view().manifest_path,
                    },
            );
            let mut out: Vec<TestWithManifest> = Vec::new();
            let mut i: usize = 0;
            assert(out.deep_view() =~= want.take(0));
            while i < found.len()
                invariant
                    i <= found.len(),
                    want == found.deep_view().map_values(
                        |t: TestView|
                            TestWithManifestView {
                                test: t,
                                manifest_path: file.deep_view().manifest_path,
                            },
                    ),
                    out.deep_view() == want.take(i as int),
                decreases found.len() - i,
            {
                let t = TestWithManifest {
                    test: Test {
                        name: found[i].name.clone(),
                        docstring: found[i].docstring.clone(),
                    },
                    manifest_path: clone_text(&file.manifest_path),
                };
                let ghost before = out;
                out.push(t);
                proof {
                    lemma_deep_view_push(before, out, t);
                    assert(found.deep_view()[i as int] == found@[i as int].deep_view());
                    assert(out.deep_view() =~= want.take(i + 1));
                }
                i += 1;
            }
            assert(want.take(want.len() as int) == want);
            Ok(out)
        },
        Err(e) => Err(ScanError { path: file.path.clone(), message: e.message }),
    }
}

/// The tests of all of `files`, each with the manifest of its file, file after file.
/// The first file whose text is no valid source text ends the search with an error
/// that names it.
pub fn find_all_tests(files: &Vec<LoadedFile>) -> (r: Result<Vec<TestWithManifest>, ScanError>)
    ensures
        found_view(r) == found_all(files.deep_view()),
{
    let mut tests: Vec<TestWithManifest> = Vec::new();
    let mut i: usize = 0;
    assert(files.deep_view().take(0) =~= Seq::<LoadedFileView>::empty());
    assert(tests.deep_view() =~= Seq::<TestWithManifestView>::empty());
    while i < files.len()
        invariant
            i <= files.len(),
            found_all(files.deep_view().take(i as int)) == Ok::<
                Seq<TestWithManifestView>,
                ScanErrorView,
            >(tests.deep_view()),
        decreases files.len() - i,
    {
        let ghost upto = files.deep_view().take(i + 1);
        assert(upto.drop_last() == files.deep_view().take(i as int));
        assert(upto.last() == files@[i as int].deep_view());
        let file = &files[i];
        let found = extract_tests(file.source.as_str());
        let ghost want = extracted(parsed_source(file.source@));
        match attach_manifest(&file.file, found) {
            Ok(more) => {
                let ghost base = tests.deep_view();
                append_tests(&mut tests, more);
                assert(found_all(upto) == Ok::<Seq<TestWithManifestView>, ScanErrorView>(
                    base + more.deep_view(),
                ));
            },
            Err(e) => {
                proof {
                    lemma_found_all_fails(files.deep_view(), i as int);
                }
                return Err(e);
            },
        }
        i += 1;
    }
    assert(files.deep_view().take(files.len() as int) == files.deep_view());
    Ok(tests)
}

/// Once the files up to one of them give an error, all of them give that error.
proof fn lemma_found_all_fails(files: Seq<LoadedFileView>, i: int)
    requires
        0 <= i < files.len(),
        found_all(files.take(i + 1)) is Err,
    ensures
        found_all(files) == found_all(files.take(i + 1)),
    decreases files.len() - i,
{
    if i + 1 == files.len() {
        assert(files.take(i + 1) == files);
    } else {
        let next = files.take(i + 2);
        assert(next.drop_last() == files.take(i + 1));
        lemma_found_all_fails(files, i + 1);
    }
}

/// Moves the tests of `more` to the end of `tests`.
fn append_tests(tests: &mut Vec<TestWithManifest>, more: Vec<TestWithManifest>)
    ensures
        final(tests).deep_view() == old(tests).deep_view() + more.deep_view(),
{
    let ghost before = tests.deep_view();
    let mut more = more;
    let ghost added = more@;
    tests.append(&mut more);
    assert(tests.deep_view() =~= before + added.map_values(|t: TestWithManifest| t.deep_view()));
    assert(added.map_values(|t: TestWithManifest| t.deep_view()) =~= Seq::new(
        added.len(),
        |i: int| added[i].deep_view(),
    ));
}

/// The build unit of a test: the path of its manifest relative to `root` and in unix
/// style. A test without a manifest belongs to the unit of the bare manifest file name.
pub open spec fn unit_of(t: TestWithManifestView, root: Seq<char>) -> Seq<char> {
    rel_unix_path(
        root,
        match t.manifest_path {
            Some(m) => m,
            None => "Cargo.toml"@,
        },
    )
}

/// The build units of `tests`, as a set.
pub open spec fn units_of(tests: Seq<TestWithManifestView>, root: Seq<char>) -> Set<Seq<char>> {
    tests.map_values(|t: TestWithManifestView| unit_of(t, root)).to_set()
}

/// The build units of `tests` in ascending order, each once.
pub open spec fn distinct_units(tests: Seq<TestWithManifestView>, root: Seq<char>) -> Seq<
    Seq<char>,
> {
    ascending(units_of(tests, root))
}

/// The check that runs the test `t`: it has the test's name and documentation, and the
/// test's build unit unless that is the unit at the root.
pub open spec fn cargo_check(
    t: TestWithManifestView,
    root: Seq<char>,
    points: u32,
) -> AutoTestView {
    AutoTestView {
        meta: TestMetaView {
            name: t.test.name,
            description: t.test.docstring,
            points,
            timeout: DEFAULT_TIMEOUT,
        },
        kind: TestKindView::CargoTest {
            manifest_path: match t.manifest_path {
                Some(m) => if rel_unix_path(root, m) == "Cargo.toml"@ {
                    None
                } else {
                    Some(rel_unix_path(root, m))
                },
                None => None,
            },
        },
    }
}

impl TestWithManifest {
    /// The build units of `tests`, seen from `root`: in ascending order, each once.
    pub fn get_distinct_manifest_paths(tests: &Vec<Self>, root: &str) -> (r: Vec<String>)
        ensures
            is_ascending(r.deep_view()),
            r.deep_view().to_set() == units_of(tests.deep_view(), root@),
            r.deep_view() == distinct_units(tests.deep_view(), root@),
    {
        let ghost units = tests.deep_view().map_values(
            |t: TestWithManifestView| unit_of(t, root@),
        );
        let mut out: Vec<String> = Vec::new();
        let mut i: usize = 0;
        assert(out.deep_view().to_set() =~= units.take(0).to_set());
        while i < tests.len()
            invariant
                i <= tests.len(),
                units == tests.deep_view().map_values(|t: TestWithManifestView| unit_of(t, root@)),
                is_ascending(out.deep_view()),
                out.deep_view().to_set() == units.take(i as int).to_set(),
            decreases tests.len() - i,
        {
            let unit = match &tests[i].manifest_path {
                Some(m) => to_rel_unix_path(root, m.as_str()),
                None => to_rel_unix_path(root, "Cargo.toml"),
            };
            proof {
                assert(tests.deep_view()[i as int] == tests@[i as int].deep_view());
                assert(unit@ == units[i as int]);
                assert(units.take(i + 1) == units.take(i as int).push(unit@));
                lemma_push_to_set(units.take(i as int), unit@);
            }
            insert_text(&mut out, unit);
            i += 1;
        }
        proof {
            assert(units.take(tests.len() as int) == units);
            lemma_ascending_of_set(out.deep_view());
        }
        out
    }

    /// The check that runs this test, worth `num_points`.
    pub fn autotest(&self, root: &str, num_points: u32) -> (r: AutoTest)
        ensures
            r.deep_view() == cargo_check(self.deep_view(), root@, num_points),
    {
        let manifest_path = match &self.manifest_path {
            Some(m) => {
                let rel = to_rel_unix_path(root, m.as_str());
                if same_text(rel.as_str(), "Cargo.toml") {
                    None
                } else {
                    Some(rel)
                }
            },
            None => None,
        };
        AutoTest {
            meta: TestMeta {
                name: self.test.name.clone(),
                description: self.test.docstring.clone(),
                points: num_points,
                timeout: DEFAULT_TIMEOUT,
            },
            kind: TestKind::CargoTest { manifest_path },
        }
    }

    /// Turns this test into the check that runs it, worth `num_points`.
    pub fn to_autotest(self, root: &str, num_points: u32) -> (r: AutoTest)
        ensures
            r.deep_view() == cargo_check(self.deep_view(), root@, num_points),
    {
        self.autotest(root, num_points)
    }
}

} // verus!
