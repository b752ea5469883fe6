//! Display labels and path-tagged blocks.
//!
//! An accepted file appears in the output document as one block: an
//! opening tag holding the file's display label, the file's content
//! verbatim, and a closing tag followed by a blank line. The display
//! label is the path relative to the working directory when the path
//! lies beneath it, and the path as given otherwise.

use vstd::prelude::*;

verus! {

/// `prefix` is a leading run of `path`'s components.
pub open spec fn is_prefix(prefix: Seq<Seq<char>>, path: Seq<Seq<char>>) -> bool {
    prefix.len() <= path.len() && forall|i: int| 0 <= i < prefix.len() ==> path[i] == prefix[i]
}

/// The separator written between joined path components.
pub open spec fn sep() -> Seq<char> {
    "/"@
}

/// The components joined with the separator; empty for no components.
pub open spec fn join_spec(segments: Seq<Seq<char>>) -> Seq<char>
    decreases segments.len(),
{
    if segments.len() == 0 {
        Seq::empty()
    } else if segments.len() == 1 {
        segments[0]
    } else {
        join_spec(segments.drop_last()) + sep() + segments.last()
    }
}

/// The label under which a path appears: its components past the working
/// directory, joined, when the working directory is a prefix; else the
/// path exactly as it was given.
pub open spec fn label_spec(raw: Seq<char>, segments: Seq<Seq<char>>, cwd: Seq<Seq<char>>) -> Seq<
    char,
> {
    if is_prefix(cwd, segments) {
        join_spec(segments.skip(cwd.len() as int))
    } else {
        raw
    }
}

/// The opening tag of a block, with its line break.
pub open spec fn open_tag(label: Seq<char>) -> Seq<char> {
    "<"@ + label + ">\n"@
}

/// The closing tag of a block, with its line break and the blank line
/// that ends the block.
pub open spec fn close_tag(label: Seq<char>) -> Seq<char> {
    "</"@ + label + ">\n\n"@
}

/// One whole block: opening tag, content, the content's terminating line
/// break, closing tag.
pub open spec fn block_of(label: Seq<char>, content: Seq<char>) -> Seq<char> {
    "<"@ + label + ">\n"@ + content + "\n"@ + "</"@ + label + ">\n\n"@
}

/// A block reads as its opening tag, the content verbatim, a line break
/// and its closing tag.
pub proof fn lemma_block_shape(label: Seq<char>, content: Seq<char>)
    ensures
        block_of(label, content) =~= open_tag(label) + content + "\n"@ + close_tag(label),
{
}

/// Whether `path`'s components start with all of `prefix`'s.
fn segments_start_with(path: &Vec<String>, prefix: &Vec<String>) -> (r: bool)
    ensures
        r == is_prefix(prefix.deep_view(), path.deep_view()),
{
    if prefix.len() > path.len() {
        return false;
    }
    let mut idx: usize = 0;
    while idx < prefix.len()
        invariant
            idx <= prefix.len(),
            prefix.len() <= path.len(),
            prefix@.len() == prefix.len(),
            path@.len() == path.len(),
            forall|i: int| 0 <= i < idx ==> path.deep_view()[i] == prefix.deep_view()[i],
        decreases prefix.len() - idx,
    {
        if path[idx] != prefix[idx] {
            assert(path.deep_view()[idx as int] != prefix.deep_view()[idx as int]);
            return false;
        }
        assert(path.deep_view()[idx as int] == prefix.deep_view()[idx as int]);
        idx += 1;
    }
    true
}

/// The components of `segments` from position `from` on, joined with the
/// separator.
fn join_segments(segments: &Vec<String>, from: usize) -> (r: String)
    requires
        from <= segments@.len(),
    ensures
        r@ == join_spec(segments.deep_view().skip(from as int)),
{
    let ghost all = segments.deep_view();
    let mut out = String::new();
    let mut idx: usize = from;
    while idx < segments.len()
        invariant
            from <= idx <= segments@.len(),
            all == segments.deep_view(),
            all.len() == segments@.len(),
            out@ == join_spec(all.subrange(from as int, idx as int)),
        decreases segments.len() - idx,
    {
        if idx > from {
            out.append("/");
        }
        out.append(segments[idx].as_str());
        proof {
            let prev = all.subrange(from as int, idx as int);
            let cur = all.subrange(from as int, idx as int + 1);
            assert(cur.drop_last() =~= prev);
            assert(cur.last() == all[idx as int]);
            if idx == from {
                assert(cur.len() == 1);
                assert(out@ =~= join_spec(cur));
            } else {
                assert(join_spec(cur) == join_spec(prev) + sep() + all[idx as int]);
            }
        }
        idx += 1;
    }
    proof {
        assert(all.subrange(from as int, all.len() as int) =~= all.skip(from as int));
    }
    out
}

/// The display label of a path: the components past the working directory
/// joined with the separator when the working directory is a prefix of
/// them, and the raw path text unchanged otherwise.
pub fn display_label(raw: &String, segments: &Vec<String>, cwd: &Vec<String>) -> (r: String)
    ensures
        r@ == label_spec(raw@, segments.deep_view(), cwd.deep_view()),
{
    if segments_start_with(segments, cwd) {
        join_segments(segments, cwd.len())
    } else {
        raw.clone()
    }
}

/// Render one block of the output document for a labelled content.
pub fn render_block(label: &str, content: &str) -> (r: String)
    ensures
        r@ == block_of(label@, content@),
{
    let mut out = String::from_str("<");
    out.append(label);
    out.append(">\n");
    out.append(content);
    out.append("\n");
    out.append("</");
    out.append(label);
    out.append(">\n\n");
    out
}

} // verus!
