use folder_to_text::content::{classify_sample, is_text, sample_is_text, ContentKind};

#[test]
fn empty_sample_is_utf8() {
    // A zero-byte file: the heuristic's fixed answer on an empty sample
    // is UTF-8, so such a file counts as text.
    assert_eq!(classify_sample(&[]), ContentKind::Utf8);
    assert!(sample_is_text(&[]));
}

#[test]
fn plain_ascii_is_utf8() {
    assert_eq!(classify_sample(b"Hello, world!\n"), ContentKind::Utf8);
    assert!(sample_is_text(b"Hello, world!\n"));
}

#[test]
fn null_byte_is_binary() {
    assert_eq!(classify_sample(b"\xFF\xE0\x00\x10JFIF\x00"), ContentKind::Binary);
    assert!(!sample_is_text(b"abc\x00def"));
}

#[test]
fn utf8_bom_detected() {
    assert_eq!(classify_sample(b"\xEF\xBB\xBFhi"), ContentKind::Utf8Bom);
    assert!(sample_is_text(b"\xEF\xBB\xBFhi"));
}

#[test]
fn utf16le_bom_detected() {
    assert_eq!(classify_sample(b"\xFF\xFEh\x00i\x00"), ContentKind::Utf16Le);
    assert!(sample_is_text(b"\xFF\xFEh\x00i\x00"));
}

#[test]
fn utf16be_bom_detected() {
    assert_eq!(classify_sample(b"\xFE\xFF\x00h\x00i"), ContentKind::Utf16Be);
    assert!(sample_is_text(b"\xFE\xFF\x00h\x00i"));
}

#[test]
fn utf32le_bom_beats_utf16le() {
    // The UTF-32 little-endian mark extends the UTF-16 one; it must win.
    assert_eq!(classify_sample(b"\xFF\xFE\x00\x00"), ContentKind::Utf32Le);
    assert!(!sample_is_text(b"\xFF\xFE\x00\x00"));
}

#[test]
fn utf32be_bom_detected() {
    assert_eq!(classify_sample(b"\x00\x00\xFE\xFF"), ContentKind::Utf32Be);
    assert!(!sample_is_text(b"\x00\x00\xFE\xFF"));
}

#[test]
fn pdf_magic_is_binary() {
    assert_eq!(classify_sample(b"%PDF-1.4"), ContentKind::Binary);
}

#[test]
fn png_magic_is_binary() {
    assert_eq!(classify_sample(b"\x89PNG\r\n\x1a\n"), ContentKind::Binary);
}

#[test]
fn zero_byte_past_scan_limit_is_ignored() {
    let mut sample = vec![b'a'; 1024];
    sample.push(0u8);
    assert_eq!(classify_sample(&sample), ContentKind::Utf8);
    let mut early = vec![b'a'; 1023];
    early.push(0u8);
    assert_eq!(classify_sample(&early), ContentKind::Binary);
}

#[test]
fn text_kinds_are_utf8_and_utf16() {
    assert!(is_text(ContentKind::Utf8));
    assert!(is_text(ContentKind::Utf8Bom));
    assert!(is_text(ContentKind::Utf16Le));
    assert!(is_text(ContentKind::Utf16Be));
    assert!(!is_text(ContentKind::Utf32Le));
    assert!(!is_text(ContentKind::Utf32Be));
    assert!(!is_text(ContentKind::Binary));
}
