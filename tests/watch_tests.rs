use unlockit_core::error::TrackError;
use unlockit_core::watch::{select_watch_paths, FileWatch, DEBOUNCE_MS};

#[test]
fn burst_of_writes_gives_one_notification() {
    let p = "/tmp/watched.txt".to_string();
    let mut w = FileWatch::new();
    w.register(p.clone(), "a\nb".to_string());
    let t0 = 10_000u64;
    assert!(w.on_event(p.clone(), t0));
    assert!(!w.on_event(p.clone(), t0 + 100));
    assert!(!w.on_event(p.clone(), t0 + 200));
    let fire = t0 + DEBOUNCE_MS;
    assert!(w.is_settled(&p, fire));
    let n = w.apply_content(p.clone(), "a\nb\nc\nd\ne".to_string()).expect("one notification");
    assert_eq!(n.path, p);
    assert_eq!(n.kind, "FileModified");
    assert_eq!(n.content, "a\nb\nc\nd\ne");
    assert_eq!(
        n.added_lines,
        vec!["Line 3: c", "Line 4: d", "Line 5: e", "Line 3: c", "Line 4: d", "Line 5: e"]
    );
    w.finish_task(p.clone());
    // The baseline moved on: re-reading the same content reports nothing.
    assert!(w.on_event(p.clone(), fire + 1));
    assert!(w.apply_content(p.clone(), "a\nb\nc\nd\ne".to_string()).is_none());
}

#[test]
fn unchanged_content_is_silent() {
    let p = "f".to_string();
    let mut w = FileWatch::new();
    w.register(p.clone(), "same".to_string());
    assert!(w.apply_content(p.clone(), "same".to_string()).is_none());
}

#[test]
fn empty_content_is_ignored() {
    let p = "f".to_string();
    let mut w = FileWatch::new();
    w.register(p.clone(), "x".to_string());
    assert!(w.apply_content(p.clone(), String::new()).is_none());
}

#[test]
fn not_settled_before_window() {
    let p = "f".to_string();
    let mut w = FileWatch::new();
    assert!(!w.is_settled(&p, 5_000));
    assert!(w.on_event(p.clone(), 5_000));
    assert!(!w.is_settled(&p, 5_000 + DEBOUNCE_MS - 1));
    assert!(!w.is_settled(&p, 4_000));
    assert!(w.is_settled(&p, 5_000 + DEBOUNCE_MS));
}

#[test]
fn unregistered_path_has_empty_baseline() {
    let p = "other".to_string();
    let mut w = FileWatch::new();
    assert!(w.on_event(p.clone(), 0));
    let n = w.apply_content(p.clone(), "x".to_string()).unwrap();
    assert_eq!(n.added_lines, vec!["Line 1: x".to_string(), "Line 1: x".to_string()]);
}

#[test]
fn finished_task_allows_new_schedule() {
    let p = "f".to_string();
    let mut w = FileWatch::new();
    assert!(w.on_event(p.clone(), 0));
    assert!(!w.on_event(p.clone(), 1));
    w.finish_task(p.clone());
    assert!(w.on_event(p.clone(), 2));
}

#[test]
fn invalid_utf8_is_decoded_lossily() {
    let p = "bin".to_string();
    let mut w = FileWatch::new();
    w.register_bytes(p.clone(), b"ok");
    let n = w.apply_bytes(p.clone(), &[b'o', b'k', b'\n', 0xff]).unwrap();
    assert_eq!(n.content, "ok\n\u{FFFD}");
    assert_eq!(n.added_lines[0], "Line 2: \u{FFFD}");
}

#[test]
fn missing_path_alone_is_rejected() {
    let paths = vec!["/does/not/exist".to_string()];
    let exists: Vec<bool> = paths.iter().map(|p| std::path::Path::new(p).exists()).collect();
    assert_eq!(select_watch_paths(&paths, &exists), Err(TrackError::NoValidPaths));
}

#[test]
fn mixed_paths_keep_only_existing() {
    let paths = vec!["/does/not/exist".to_string(), "/".to_string()];
    let exists: Vec<bool> = paths.iter().map(|p| std::path::Path::new(p).exists()).collect();
    assert_eq!(select_watch_paths(&paths, &exists), Ok(vec!["/".to_string()]));
}

#[test]
fn no_paths_is_rejected() {
    assert_eq!(select_watch_paths(&vec![], &vec![]), Err(TrackError::NoValidPaths));
}
