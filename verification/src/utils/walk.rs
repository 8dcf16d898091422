//! Walking a source tree for its source files.
use crate::text::lemma_deep_view_push;
use crate::utils::{RustFile, RustFileView};
use crate::utils::paths::{has_rs_extension, is_rust_file};
use vstd::prelude::*;

verus! {

/// What a directory holds.
#[derive(Debug)]
pub enum DirEntry {
    /// A file, with its path.
    File { path: String },
    /// A directory.
    Dir { dir: Directory },
    /// Anything else.
    Other,
}

/// A directory of the source tree, as far as the walk reads it.
#[derive(Debug)]
pub struct Directory {
    /// The path of the build manifest in this directory, where it has one.
    pub manifest: Option<String>,
    /// What the directory holds, in the order in which it was read.
    pub entries: Vec<DirEntry>,
}

/// The manifest that governs a directory: its own where it has one, else the one that
/// governs the directory above it.
pub open spec fn manifest_in(dir: Directory, inherited: Option<Seq<char>>) -> Option<Seq<char>> {
    match dir.manifest {
        Some(m) => Some(m@),
        None => inherited,
    }
}

/// The source files below `dir`, depth first, each with the manifest that governs it.
/// `inherited` is the manifest that governs the directory above `dir`.
pub open spec fn walked(dir: Directory, inherited: Option<Seq<char>>) -> Seq<RustFileView>
    decreases dir,
{
    walked_entries(dir.entries@, manifest_in(dir, inherited))
}

/// The source files among and below `entries`, which the manifest `current` governs.
pub open spec fn walked_entries(entries: Seq<DirEntry>, current: Option<Seq<char>>) -> Seq<
    RustFileView,
>
    decreases entries,
{
    if entries.len() == 0 {
        Seq::empty()
    } else {
        walked_entries(entries.drop_last(), current) + walked_entry(entries.last(), current)
    }
}

/// The source files that one entry gives: itself where it is a file with the extension
/// `rs`, those below it where it is a directory.
pub open spec fn walked_entry(entry: DirEntry, current: Option<Seq<char>>) -> Seq<RustFileView>
    decreases entry,
{
    match entry {
        DirEntry::File { path } => if has_rs_extension(path@) {
            seq![RustFileView { path: path@, manifest_path: current }]
        } else {
            Seq::empty()
        },
        DirEntry::Dir { dir } => walked(dir, current),
        DirEntry::Other => Seq::empty(),
    }
}

fn recurse(dir: &Directory, out: &mut Vec<RustFile>, current_manifest: &Option<String>)
    ensures
        final(out).deep_view() == old(out).deep_view() + walked(
            *dir,
            current_manifest.deep_view(),
        ),
    decreases *dir,
{
    let manifest_here = match &dir.manifest {
        Some(m) => Some(m.clone()),
        None => crate::text::clone_text(current_manifest),
    };
    let ghost current = manifest_in(*dir, current_manifest.deep_view());
    assert(manifest_here.deep_view() == current);
    let ghost entries = dir.entries@;
    let mut i: usize = 0;
    assert(entries.take(0) =~= Seq::<DirEntry>::empty());
    assert(out.deep_view() + Seq::<RustFileView>::empty() =~= out.deep_view());
    while i < dir.entries.len()
        invariant
            i <= dir.entries.len(),
            entries == dir.entries@,
            manifest_here.deep_view() == current,
            out.deep_view() == old(out).deep_view() + walked_entries(
                entries.take(i as int),
                current,
            ),
        decreases dir.entries.len() - i,
    {
        let ghost upto = entries.take(i + 1);
        let ghost base = out.deep_view();
        assert(upto.drop_last() == entries.take(i as int));
        assert(upto.last() == entries[i as int]);
        match &dir.entries[i] {
            DirEntry::File { path } => {
                if is_rust_file(path.as_str()) {
                    let file = RustFile {
                        path: path.clone(),
                        manifest_path: crate::text::clone_text(&manifest_here),
                    };
                    let ghost before = *out;
                    out.push(file);
                    proof {
                        lemma_deep_view_push(before, *out, file);
                        assert(base.push(file.deep_view()) =~= base + seq![file.deep_view()]);
                    }
                } else {
                    assert(base + Seq::<RustFileView>::empty() =~= base);
                }
            },
            DirEntry::Dir { dir: inner } => {
                recurse(inner, out, &manifest_here);
            },
            DirEntry::Other => {
                assert(base + Seq::<RustFileView>::empty() =~= base);
            },
        }
        assert(out.deep_view() == base + walked_entry(upto.last(), current));
        assert(out.deep_view() =~= old(out).deep_view() + (walked_entries(
            upto.drop_last(),
            current,
        ) + walked_entry(upto.last(), current)));
        i += 1;
    }
    assert(entries.take(dir.entries.len() as int) == entries);
}

/// The source files below `dir`, depth first: every file with the extension `rs`, with
/// the manifest of the nearest directory around it that has one.
pub fn collect_rs_files_with_manifest(dir: &Directory) -> (r: Vec<RustFile>)
    ensures
        r.deep_view() == walked(*dir, None),
{
    let mut out: Vec<RustFile> = Vec::new();
    assert(out.deep_view() =~= Seq::<RustFileView>::empty());
    let none: Option<String> = None;
    recurse(dir, &mut out, &none);
    assert(Seq::<RustFileView>::empty() + walked(*dir, None) =~= walked(*dir, None));
    out
}

} // verus!
