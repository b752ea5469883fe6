//! Laws of the pipeline, proved once and for all inputs.

use vstd::prelude::*;

use crate::content::{classify_spec, is_text_spec};
use crate::emit::{block_of, close_tag, label_spec, lemma_block_shape, open_tag};
use crate::exclude::excluded_spec;
use crate::pipeline::{
    accepted_file, document_of, file_output, walk_entry_output, EntryView,
};

verus! {

/// A text file that decoded in full contributes exactly its one block,
/// and the block holds the file's content verbatim between the opening
/// and the closing tag, after the opening tag's line break and before
/// the line break the emitter adds.
pub proof fn lemma_text_file_block(e: EntryView, cwd: Seq<Seq<char>>)
    requires
        !e.is_dir,
        !excluded_spec(e.segments),
        is_text_spec(classify_spec(e.sample)),
        e.content is Some,
    ensures
        walk_entry_output(e, cwd) == block_of(label_spec(e.raw, e.segments, cwd), e.content->0),
        ({
            let label = label_spec(e.raw, e.segments, cwd);
            let block = walk_entry_output(e, cwd);
            &&& block == open_tag(label) + e.content->0 + "\n"@ + close_tag(label)
            &&& block.subrange(
                open_tag(label).len() as int,
                open_tag(label).len() + e.content->0.len() as int,
            ) == e.content->0
        }),
{
    let label = label_spec(e.raw, e.segments, cwd);
    let content = e.content->0;
    lemma_block_shape(label, content);
    assert(block_of(label, content).subrange(
        open_tag(label).len() as int,
        open_tag(label).len() + content.len() as int,
    ) =~= content);
}

/// Each walk entry contributes exactly once to the document, in walk
/// order: extending a walk by one entry appends that entry's
/// contribution and nothing else.
pub proof fn lemma_one_contribution_per_entry(
    entries: Seq<EntryView>,
    e: EntryView,
    cwd: Seq<Seq<char>>,
)
    ensures
        document_of(entries.push(e), cwd) == document_of(entries, cwd) + walk_entry_output(
            e,
            cwd,
        ),
{
    assert(entries.push(e).drop_last() =~= entries);
    assert(entries.push(e).last() == e);
}

/// A file whose leading sample is not classified as text contributes
/// nothing to the document, whether it came from a walk or stood alone.
pub proof fn lemma_non_text_no_block(e: EntryView, cwd: Seq<Seq<char>>)
    requires
        !is_text_spec(classify_spec(e.sample)),
    ensures
        file_output(e, cwd) == Seq::<char>::empty(),
        walk_entry_output(e, cwd) == Seq::<char>::empty(),
{
    assert(!accepted_file(e));
}

/// A walk entry with any component equal to the excluded name
/// contributes nothing, whatever its depth, its sample or its content.
pub proof fn lemma_excluded_no_block(e: EntryView, cwd: Seq<Seq<char>>)
    requires
        excluded_spec(e.segments),
    ensures
        walk_entry_output(e, cwd) == Seq::<char>::empty(),
{
}

/// The set of blocks a walk's document is built from: every nonempty
/// contribution of one of its entries.
pub open spec fn document_blocks(entries: Seq<EntryView>, cwd: Seq<Seq<char>>) -> Set<Seq<char>> {
    Set::new(
        |b: Seq<char>|
            b.len() > 0 && exists|i: int|
                0 <= i < entries.len() && walk_entry_output(#[trigger] entries[i], cwd) == b,
    )
}

/// Every block of a walk over `s1` is a block of a walk over `s2`, as
/// soon as every entry of `s1` occurs in `s2`.
proof fn lemma_blocks_subset(s1: Seq<EntryView>, s2: Seq<EntryView>, cwd: Seq<Seq<char>>)
    requires
        forall|e: EntryView| s1.contains(e) ==> s2.contains(e),
    ensures
        document_blocks(s1, cwd).subset_of(document_blocks(s2, cwd)),
{
    assert forall|b: Seq<char>| document_blocks(s1, cwd).contains(b) implies document_blocks(
        s2,
        cwd,
    ).contains(b) by {
        let i = choose|i: int|
            0 <= i < s1.len() && walk_entry_output(#[trigger] s1[i], cwd) == b;
        assert(s1.contains(s1[i]));
        assert(s2.contains(s1[i]));
        let j = choose|j: int| 0 <= j < s2.len() && s2[j] == s1[i];
        assert(walk_entry_output(s2[j], cwd) == b);
    };
}

/// Two walks that discover the same entries, in whatever order, build
/// their documents from the same set of blocks: which blocks appear is a
/// function of the set of discovered files alone.
pub proof fn lemma_same_entries_same_blocks(
    s1: Seq<EntryView>,
    s2: Seq<EntryView>,
    cwd: Seq<Seq<char>>,
)
    requires
        forall|e: EntryView| s1.contains(e) <==> s2.contains(e),
    ensures
        document_blocks(s1, cwd) == document_blocks(s2, cwd),
{
    lemma_blocks_subset(s1, s2, cwd);
    lemma_blocks_subset(s2, s1, cwd);
    assert(document_blocks(s1, cwd) =~= document_blocks(s2, cwd));
}

} // verus!
