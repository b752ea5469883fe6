//! Content-type classification of a leading byte sample.
//!
//! A file is accepted into the output document when a sample of its first
//! bytes looks like text in one of the accepted encodings. The heuristic
//! itself comes from the `content_inspector` crate: byte-order marks are
//! recognised first, then the sample is scanned for a zero byte, then two
//! magic numbers of common binary formats are checked; everything else
//! counts as UTF-8.

use vstd::prelude::*;

verus! {

/// The classification of a byte sample: a known text encoding, or binary.
#[derive(Copy, Clone, Debug, PartialEq, Eq, Structural)]
pub enum ContentKind {
    Binary,
    Utf8,
    Utf8Bom,
    Utf16Le,
    Utf16Be,
    Utf32Le,
    Utf32Be,
}

/// How many leading bytes of the sample are scanned for a zero byte.
pub open spec fn zero_scan_limit() -> int {
    1024
}

/// The UTF-8 byte-order mark.
pub open spec fn utf8_bom() -> Seq<u8> {
    seq![0xEFu8, 0xBBu8, 0xBFu8]
}

/// The UTF-32 big-endian byte-order mark.
pub open spec fn utf32be_bom() -> Seq<u8> {
    seq![0x00u8, 0x00u8, 0xFEu8, 0xFFu8]
}

/// The UTF-32 little-endian byte-order mark.
pub open spec fn utf32le_bom() -> Seq<u8> {
    seq![0xFFu8, 0xFEu8, 0x00u8, 0x00u8]
}

/// The UTF-16 big-endian byte-order mark.
pub open spec fn utf16be_bom() -> Seq<u8> {
    seq![0xFEu8, 0xFFu8]
}

/// The UTF-16 little-endian byte-order mark.
pub open spec fn utf16le_bom() -> Seq<u8> {
    seq![0xFFu8, 0xFEu8]
}

/// The magic number of PDF files.
pub open spec fn pdf_magic() -> Seq<u8> {
    seq![0x25u8, 0x50u8, 0x44u8, 0x46u8]
}

/// The magic number of PNG files.
pub open spec fn png_magic() -> Seq<u8> {
    seq![0x89u8, 0x50u8, 0x4Eu8, 0x47u8]
}

/// `s` begins with the bytes of `p`.
pub open spec fn starts_with_bytes(s: Seq<u8>, p: Seq<u8>) -> bool {
    p.len() <= s.len() && forall|i: int| 0 <= i < p.len() ==> s[i] == p[i]
}

/// A zero byte occurs among the first `zero_scan_limit()` bytes of `s`.
pub open spec fn has_zero_byte(s: Seq<u8>) -> bool {
    exists|i: int| 0 <= i < s.len() && i < zero_scan_limit() && s[i] == 0u8
}

/// What the classification heuristic yields on a byte sample: byte-order
/// marks first (UTF-32 before UTF-16, whose marks overlap), then the zero
/// byte scan, then the binary magic numbers, else UTF-8.
pub open spec fn classify_spec(s: Seq<u8>) -> ContentKind {
    if starts_with_bytes(s, utf8_bom()) {
        ContentKind::Utf8Bom
    } else if starts_with_bytes(s, utf32be_bom()) {
        ContentKind::Utf32Be
    } else if starts_with_bytes(s, utf32le_bom()) {
        ContentKind::Utf32Le
    } else if starts_with_bytes(s, utf16be_bom()) {
        ContentKind::Utf16Be
    } else if starts_with_bytes(s, utf16le_bom()) {
        ContentKind::Utf16Le
    } else if has_zero_byte(s) {
        ContentKind::Binary
    } else if starts_with_bytes(s, pdf_magic()) || starts_with_bytes(s, png_magic()) {
        ContentKind::Binary
    } else {
        ContentKind::Utf8
    }
}

/// The classifications accepted as textual: UTF-8 and UTF-16, with or
/// without a byte-order mark. UTF-32 and binary are rejected.
pub open spec fn is_text_spec(kind: ContentKind) -> bool {
    match kind {
        ContentKind::Utf8 => true,
        ContentKind::Utf8Bom => true,
        ContentKind::Utf16Le => true,
        ContentKind::Utf16Be => true,
        _ => false,
    }
}

/// Relies on `content_inspector::inspect`: it returns the first matching
/// byte-order mark's encoding (UTF-8's mark first, then UTF-32's before
/// UTF-16's), else binary when a zero byte occurs in the first 1024 bytes
/// or the sample opens with the PDF or PNG magic number, else UTF-8.
#[verifier::external_body]
fn inspect_bytes(sample: &[u8]) -> (r: ContentKind)
    ensures
        r == classify_spec(sample@),
{
    match content_inspector::inspect(sample) {
        content_inspector::ContentType::BINARY => ContentKind::Binary,
        content_inspector::ContentType::UTF_8 => ContentKind::Utf8,
        content_inspector::ContentType::UTF_8_BOM => ContentKind::Utf8Bom,
        content_inspector::ContentType::UTF_16LE => ContentKind::Utf16Le,
        content_inspector::ContentType::UTF_16BE => ContentKind::Utf16Be,
        content_inspector::ContentType::UTF_32LE => ContentKind::Utf32Le,
        content_inspector::ContentType::UTF_32BE => ContentKind::Utf32Be,
    }
}

/// Classify a leading byte sample.
pub fn classify_sample(sample: &[u8]) -> (r: ContentKind)
    ensures
        r == classify_spec(sample@),
{
    inspect_bytes(sample)
}

/// Whether a classification is one of the accepted text encodings.
pub fn is_text(kind: ContentKind) -> (r: bool)
    ensures
        r == is_text_spec(kind),
{
    match kind {
        ContentKind::Utf8 => true,
        ContentKind::Utf8Bom => true,
        ContentKind::Utf16Le => true,
        ContentKind::Utf16Be => true,
        _ => false,
    }
}

/// Whether a leading byte sample is classified as text.
pub fn sample_is_text(sample: &[u8]) -> (r: bool)
    ensures
        r == is_text_spec(classify_spec(sample@)),
{
    let kind = classify_sample(sample);
    is_text(kind)
}

/// An empty sample carries no byte-order mark, no zero byte and no magic
/// number, so the heuristic classifies it as UTF-8, which is textual: a
/// zero-byte file is accepted and contributes an empty-bodied block.
pub proof fn lemma_empty_sample_is_text()
    ensures
        classify_spec(Seq::<u8>::empty()) == ContentKind::Utf8,
        is_text_spec(classify_spec(Seq::<u8>::empty())),
{
    assert(!starts_with_bytes(Seq::<u8>::empty(), utf8_bom()));
    assert(!has_zero_byte(Seq::<u8>::empty()));
}

} // verus!
