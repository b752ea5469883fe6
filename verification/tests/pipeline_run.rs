use folder_to_text::pipeline::{
    args_usable, build_document, dispatch, emit_entry, should_process, Action, Entry, PathKind,
};

fn segs(parts: &[&str]) -> Vec<String> {
    parts.iter().map(|s| s.to_string()).collect()
}

fn file_entry(parts: &[&str], sample: &[u8], content: Option<&str>) -> Entry {
    Entry {
        raw: parts.join("/"),
        segments: segs(parts),
        is_dir: false,
        sample: sample.to_vec(),
        content: content.map(|c| c.to_string()),
    }
}

fn dir_entry(parts: &[&str]) -> Entry {
    Entry {
        raw: parts.join("/"),
        segments: segs(parts),
        is_dir: true,
        sample: Vec::new(),
        content: None,
    }
}

#[test]
fn zero_arguments_are_refused() {
    // With no path arguments the run must not proceed; with any, it must.
    assert!(!args_usable(0));
    assert!(args_usable(1));
    assert!(args_usable(7));
}

#[test]
fn dispatch_per_path_kind() {
    assert_eq!(dispatch(PathKind::Missing), Action::ReportMissing);
    assert_eq!(dispatch(PathKind::Directory), Action::WalkDirectory);
    assert_eq!(dispatch(PathKind::RegularFile), Action::EmitFile);
    assert_eq!(dispatch(PathKind::Other), Action::ReportUnsupported);
}

#[test]
fn missing_path_beside_valid_file() {
    // One valid file argument and one nonexistent one: the missing path
    // is only reported, and the document holds exactly the valid file's
    // block.
    assert_eq!(dispatch(PathKind::Missing), Action::ReportMissing);
    let cwd = segs(&["/", "home", "user"]);
    let entry = file_entry(&["notes.txt"], b"remember\n", Some("remember\n"));
    let block = emit_entry(&entry, &cwd).expect("text file must emit");
    assert_eq!(block, "<notes.txt>\nremember\n\n</notes.txt>\n\n");
}

#[test]
fn text_file_emits_its_block() {
    let cwd = segs(&["/", "home", "user"]);
    let entry = file_entry(
        &["/", "home", "user", "src", "lib.rs"],
        b"fn main() {}\n",
        Some("fn main() {}\n"),
    );
    let block = emit_entry(&entry, &cwd).expect("text file must emit");
    assert_eq!(block, "<src/lib.rs>\nfn main() {}\n\n</src/lib.rs>\n\n");
}

#[test]
fn binary_file_emits_nothing() {
    let cwd = segs(&["/", "home", "user"]);
    let entry = file_entry(&["img.png"], b"\x89PNG\r\n\x1a\n\x00\x00", None);
    assert_eq!(emit_entry(&entry, &cwd), None);
}

#[test]
fn failed_decode_emits_nothing() {
    // The sample looked like text but the strict full read failed: no
    // partial content is ever written.
    let cwd = segs(&["/", "home", "user"]);
    let entry = file_entry(&["tricky.txt"], b"looks fine here", None);
    assert_eq!(emit_entry(&entry, &cwd), None);
}

#[test]
fn empty_file_emits_empty_block() {
    // A zero-byte file classifies as text on its empty sample and
    // contributes an empty-bodied block.
    let cwd = segs(&["/", "home", "user"]);
    let entry = file_entry(&["empty.txt"], b"", Some(""));
    let block = emit_entry(&entry, &cwd).expect("empty file counts as text");
    assert_eq!(block, "<empty.txt>\n\n</empty.txt>\n\n");
}

#[test]
fn walk_skips_directories_and_excluded_paths() {
    assert!(should_process(&file_entry(&["a", "b.txt"], b"x", Some("x"))));
    assert!(!should_process(&dir_entry(&["a"])));
    assert!(!should_process(&file_entry(
        &["a", ".git", "config"],
        b"[core]\n",
        Some("[core]\n")
    )));
}

#[test]
fn mixed_directory_yields_one_block() {
    // A directory with a UTF-8 text file, a binary file, and a text file
    // under version-control metadata: exactly one block comes out.
    let cwd = segs(&["/", "home", "user", "proj"]);
    let entries = vec![
        dir_entry(&["proj"]),
        file_entry(&["proj", "readme.txt"], b"hello\n", Some("hello\n")),
        file_entry(&["proj", "blob.bin"], b"\x00\x01\x02\x03", None),
        dir_entry(&["proj", ".git"]),
        file_entry(&["proj", ".git", "config"], b"[core]\n", Some("[core]\n")),
    ];
    let document = build_document(&entries, &cwd);
    assert_eq!(document, "<proj/readme.txt>\nhello\n\n</proj/readme.txt>\n\n");
}

#[test]
fn same_entries_in_any_order_give_same_blocks() {
    // Traversal order is unspecified: two walks that discover the same
    // files must build their documents from the same set of blocks.
    let cwd = segs(&["/", "home", "user"]);
    let one = vec![
        file_entry(&["a.txt"], b"alpha\n", Some("alpha\n")),
        file_entry(&["b.txt"], b"beta\n", Some("beta\n")),
        file_entry(&["c.bin"], b"\x00", None),
    ];
    let two = vec![
        file_entry(&["c.bin"], b"\x00", None),
        file_entry(&["b.txt"], b"beta\n", Some("beta\n")),
        file_entry(&["a.txt"], b"alpha\n", Some("alpha\n")),
    ];
    let mut blocks_one: Vec<String> = one
        .iter()
        .filter(|e| should_process(e))
        .filter_map(|e| emit_entry(e, &cwd))
        .collect();
    let mut blocks_two: Vec<String> = two
        .iter()
        .filter(|e| should_process(e))
        .filter_map(|e| emit_entry(e, &cwd))
        .collect();
    blocks_one.sort();
    blocks_two.sort();
    assert_eq!(blocks_one, blocks_two);
}
