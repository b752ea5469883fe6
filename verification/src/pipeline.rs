//! The run's pipeline: argument dispatch, per-file emission, and the
//! document a directory walk produces.
//!
//! The caller owns all file system access. It classifies each command
//! line argument as a file, a directory or neither, walks directories,
//! and hands every discovered file over as a [`Entry`]: the path as
//! given, its components, a leading byte sample, and the decoded content
//! when the strict full read succeeded. The functions here decide, for
//! every such value, what the output document holds.

use vstd::prelude::*;

use crate::content::{classify_spec, is_text_spec, sample_is_text};
use crate::emit::{block_of, display_label, label_spec, render_block};
use crate::exclude::{excluded_spec, is_excluded};

verus! {

/// What a command line path argument turned out to be.
#[derive(Copy, Clone, Debug, PartialEq, Eq, Structural)]
pub enum PathKind {
    /// The path does not exist.
    Missing,
    /// The path is a directory.
    Directory,
    /// The path is a regular file.
    RegularFile,
    /// The path exists but is neither a regular file nor a directory.
    Other,
}

/// What the run does with one command line path argument.
#[derive(Copy, Clone, Debug, PartialEq, Eq, Structural)]
pub enum Action {
    /// Report the missing path on the diagnostic stream and go on.
    ReportMissing,
    /// Walk the directory and emit every accepted file beneath it.
    WalkDirectory,
    /// Emit the single file.
    EmitFile,
    /// Report the unsupported path on the diagnostic stream and go on.
    ReportUnsupported,
}

/// The action taken for each kind of path argument.
pub open spec fn dispatch_spec(kind: PathKind) -> Action {
    match kind {
        PathKind::Missing => Action::ReportMissing,
        PathKind::Directory => Action::WalkDirectory,
        PathKind::RegularFile => Action::EmitFile,
        PathKind::Other => Action::ReportUnsupported,
    }
}

/// Decide what to do with one path argument. No kind of argument stops
/// the run: missing and unsupported paths are only reported.
pub fn dispatch(kind: PathKind) -> (r: Action)
    ensures
        r == dispatch_spec(kind),
{
    match kind {
        PathKind::Missing => Action::ReportMissing,
        PathKind::Directory => Action::WalkDirectory,
        PathKind::RegularFile => Action::EmitFile,
        PathKind::Other => Action::ReportUnsupported,
    }
}

/// Whether a run may proceed at all: it takes at least one path
/// argument. With none, the run ends at once with a usage message and no
/// output document is created.
pub fn args_usable(arg_count: usize) -> (r: bool)
    ensures
        r == (arg_count > 0),
{
    arg_count > 0
}

/// One file discovered on disk, as the pipeline sees it.
pub struct Entry {
    /// The path's text exactly as it was given or discovered.
    pub raw: String,
    /// The path's components, in order.
    pub segments: Vec<String>,
    /// Whether the path names a directory rather than a file.
    pub is_dir: bool,
    /// The leading byte sample read for classification.
    pub sample: Vec<u8>,
    /// The file's full content, when the strict decode succeeded.
    pub content: Option<String>,
}

/// The mathematical value of an [`Entry`].
#[verifier::ext_equal]
pub struct EntryView {
    pub raw: Seq<char>,
    pub segments: Seq<Seq<char>>,
    pub is_dir: bool,
    pub sample: Seq<u8>,
    pub content: Option<Seq<char>>,
}

impl View for Entry {
    type V = EntryView;

    open spec fn view(&self) -> EntryView {
        EntryView {
            raw: self.raw@,
            segments: self.segments.deep_view(),
            is_dir: self.is_dir,
            sample: self.sample@,
            content: self.content.deep_view(),
        }
    }
}

/// A file is accepted when its sample is classified as text and the
/// strict full decode succeeded.
pub open spec fn accepted_file(e: EntryView) -> bool {
    is_text_spec(classify_spec(e.sample)) && e.content is Some
}

/// What one file contributes to the output document: its block when it
/// is accepted, nothing at all otherwise.
pub open spec fn file_output(e: EntryView, cwd: Seq<Seq<char>>) -> Seq<char> {
    if accepted_file(e) {
        block_of(label_spec(e.raw, e.segments, cwd), e.content->0)
    } else {
        Seq::empty()
    }
}

/// What one walk entry contributes: directories and entries under an
/// excluded component contribute nothing; a file contributes its
/// [`file_output`].
pub open spec fn walk_entry_output(e: EntryView, cwd: Seq<Seq<char>>) -> Seq<char> {
    if !e.is_dir && !excluded_spec(e.segments) {
        file_output(e, cwd)
    } else {
        Seq::empty()
    }
}

/// The views of a sequence of entries.
pub open spec fn entry_views(entries: Seq<Entry>) -> Seq<EntryView> {
    entries.map_values(|e: Entry| e@)
}

/// The document a walk over `entries` produces: each entry's
/// contribution, concatenated in walk order.
pub open spec fn document_of(entries: Seq<EntryView>, cwd: Seq<Seq<char>>) -> Seq<char>
    decreases entries.len(),
{
    if entries.len() == 0 {
        Seq::empty()
    } else {
        document_of(entries.drop_last(), cwd) + walk_entry_output(entries.last(), cwd)
    }
}

/// Emit one file: its block when the sample is classified as text and
/// the content was decoded, nothing otherwise. This is the whole
/// treatment a single-file argument receives; exclusion does not apply
/// to it.
pub fn emit_entry(e: &Entry, cwd: &Vec<String>) -> (r: Option<String>)
    ensures
        r is Some <==> accepted_file(e@),
        r is Some ==> r->0@ == file_output(e@, cwd.deep_view()),
{
    if sample_is_text(e.sample.as_slice()) {
        match &e.content {
            Some(c) => {
                let label = display_label(&e.raw, &e.segments, cwd);
                Some(render_block(label.as_str(), c.as_str()))
            },
            None => None,
        }
    } else {
        None
    }
}

/// Whether a walk entry reaches the emitter at all: only entries that
/// are not directories and lie under no excluded component do.
pub fn should_process(e: &Entry) -> (r: bool)
    ensures
        r == (!e@.is_dir && !excluded_spec(e@.segments)),
{
    if e.is_dir {
        false
    } else {
        !is_excluded(&e.segments)
    }
}

/// The output document of a walk: every accepted file's block, in walk
/// order; directories, excluded paths, non-text files and files whose
/// decode failed contribute nothing.
pub fn build_document(entries: &Vec<Entry>, cwd: &Vec<String>) -> (r: String)
    ensures
        r@ == document_of(entry_views(entries@), cwd.deep_view()),
{
    let ghost views = entry_views(entries@);
    let mut out = String::new();
    let mut idx: usize = 0;
    while idx < entries.len()
        invariant
            idx <= entries@.len(),
            views == entry_views(entries@),
            views.len() == entries@.len(),
            out@ == document_of(views.take(idx as int), cwd.deep_view()),
        decreases entries@.len() - idx,
    {
        let e = &entries[idx];
        if should_process(e) {
            match emit_entry(e, cwd) {
                Some(block) => out.append(block.as_str()),
                None => {},
            }
        }
        proof {
            let prev = views.take(idx as int);
            let cur = views.take(idx as int + 1);
            assert(cur.drop_last() =~= prev);
            assert(cur.last() == views[idx as int]);
            assert(views[idx as int] == entries@[idx as int]@);
            if !(!e@.is_dir && !excluded_spec(e@.segments)) || !accepted_file(e@) {
                assert(walk_entry_output(views[idx as int], cwd.deep_view()) =~= Seq::<
                    char,
                >::empty());
                assert(out@ =~= document_of(cur, cwd.deep_view()));
            }
        }
        idx += 1;
    }
    proof {
        assert(views.take(views.len() as int) =~= views);
    }
    out
}

} // verus!
