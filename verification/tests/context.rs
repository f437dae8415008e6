use std::path::PathBuf;

use nexus::context::{estimate_tokens, ignored, ContextOptions, ContextSelection};

#[test]
fn estimates_non_empty_text() {
    assert_eq!(estimate_tokens("abcd"), 1);
    assert_eq!(estimate_tokens("abcde"), 2);
}

#[test]
fn estimates_count_utf8_bytes() {
    assert_eq!(estimate_tokens(""), 0);
    assert_eq!(estimate_tokens("a"), 1);
    // Two characters, six bytes.
    assert_eq!(estimate_tokens("日本"), 2);
}

#[test]
fn estimates_grow_with_text_and_never_exceed_the_parts() {
    assert!(estimate_tokens("abc") <= estimate_tokens("abcd"));
    assert!(estimate_tokens("abcd") <= estimate_tokens("abcde"));
    assert_eq!(estimate_tokens("abcde"), 2);
    assert!(estimate_tokens("abcde") <= estimate_tokens("a") + estimate_tokens("bcde"));
    assert!(estimate_tokens("ab日本") <= estimate_tokens("ab") + estimate_tokens("日本"));
}

#[test]
fn ignored_directories() {
    let parts = |p: &[&str]| p.iter().map(|s| s.to_string()).collect::<Vec<_>>();
    assert!(ignored(&parts(&["src", "target", "debug"])));
    assert!(ignored(&parts(&[".git", "HEAD"])));
    assert!(ignored(&parts(&["a", "node_modules"])));
    assert!(ignored(&parts(&[".nexus"])));
    assert!(!ignored(&parts(&["src", "lib.rs"])));
    assert!(!ignored(&parts(&["targets"])));
}

#[test]
fn default_options() {
    let o = ContextOptions::default();
    assert_eq!((o.max_files, o.max_bytes_per_file, o.token_budget), (64, 65536, 24000));
}

#[test]
fn selection_skips_binary_and_large_files_and_stops_at_budget() {
    let options = ContextOptions { max_files: 10, max_bytes_per_file: 8, token_budget: 3 };
    let mut selection = ContextSelection::new(&options);
    assert!(selection.wants_more());
    selection.offer(PathBuf::from("a.txt"), b"abcd".to_vec());
    selection.offer(PathBuf::from("bin"), vec![b'a', 0, b'b']);
    selection.offer(PathBuf::from("big"), b"123456789".to_vec());
    selection.offer(PathBuf::from("b.txt"), b"abcdefg".to_vec());
    assert!(selection.wants_more());
    selection.offer(PathBuf::from("c.txt"), b"abcde".to_vec());
    assert!(!selection.wants_more());
    let snapshot = selection.finish(PathBuf::from("/repo"));
    assert_eq!(snapshot.files.len(), 2);
    assert_eq!(snapshot.files[0].content, "abcd");
    assert_eq!(snapshot.files[1].estimated_tokens, 2);
    assert_eq!(snapshot.total_estimated_tokens, 3);
    assert!(snapshot.truncated);
}

#[test]
fn selection_decodes_invalid_utf8_lossily() {
    let options = ContextOptions::default();
    let mut selection = ContextSelection::new(&options);
    selection.offer(PathBuf::from("x"), vec![b'a', 0xff, b'b']);
    let snapshot = selection.finish(PathBuf::from("/repo"));
    assert_eq!(snapshot.files[0].content, "a\u{fffd}b");
    // 'a' + 3 bytes for U+FFFD + 'b' = 5 bytes.
    assert_eq!(snapshot.files[0].estimated_tokens, 2);
    assert!(!snapshot.truncated);
}

#[test]
fn selection_stops_after_max_files() {
    let options = ContextOptions { max_files: 1, max_bytes_per_file: 100, token_budget: 100 };
    let mut selection = ContextSelection::new(&options);
    selection.offer(PathBuf::from("a"), b"x".to_vec());
    assert!(!selection.wants_more());
}
