use unlockit_core::diff::get_added_lines;

#[test]
fn appended_lines_in_burst_are_reported_with_tail_repeat() {
    let added = get_added_lines("a\nb", "a\nb\nc\nd\ne");
    assert_eq!(
        added,
        vec![
            "Line 3: c".to_string(),
            "Line 4: d".to_string(),
            "Line 5: e".to_string(),
            "Line 3: c".to_string(),
            "Line 4: d".to_string(),
            "Line 5: e".to_string(),
        ]
    );
}

#[test]
fn identical_content_adds_nothing() {
    assert!(get_added_lines("a\nb\nc", "a\nb\nc").is_empty());
    assert!(get_added_lines("", "").is_empty());
}

#[test]
fn changed_line_absent_from_old_is_reported() {
    assert_eq!(get_added_lines("a\nb\nc", "a\nx\nc"), vec!["Line 2: x".to_string()]);
}

#[test]
fn moved_line_present_in_old_is_not_reported() {
    assert!(get_added_lines("a\nb", "b\na").is_empty());
}

#[test]
fn tail_line_present_in_old_is_reported_once() {
    // Position 3 is beyond the old text, so the first pass reports it; the
    // tail pass skips it because "a" occurs in the old text.
    assert_eq!(get_added_lines("a\nb", "a\nb\na"), vec!["Line 3: a".to_string()]);
}

#[test]
fn crlf_endings_are_not_part_of_lines() {
    assert!(get_added_lines("a\r\nb\r\n", "a\nb").is_empty());
}

#[test]
fn empty_old_content_reports_every_line_twice() {
    assert_eq!(
        get_added_lines("", "x"),
        vec!["Line 1: x".to_string(), "Line 1: x".to_string()]
    );
}

#[test]
fn line_numbers_use_plain_decimal() {
    let old: Vec<String> = (0..11).map(|i| format!("l{}", i)).collect();
    let mut new = old.clone();
    new[10] = "changed".to_string();
    assert_eq!(
        get_added_lines(&old.join("\n"), &new.join("\n")),
        vec!["Line 11: changed".to_string()]
    );
}

#[test]
fn bare_carriage_return_at_end_stays_in_line() {
    assert_eq!(get_added_lines("", "a\r"), vec!["Line 1: a\r".to_string(), "Line 1: a\r".to_string()]);
}

#[test]
fn large_line_numbers_are_written_in_full() {
    let new: Vec<String> = (0..1205).map(|i| format!("x{}", i)).collect();
    let added = get_added_lines("", &new.join("\n"));
    assert_eq!(added[1204], "Line 1205: x1204");
    assert_eq!(added[99], "Line 100: x99");
}
