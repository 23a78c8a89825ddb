use unlockit_core::error::TrackError;
use unlockit_core::store::{load_playtime, save_playtime, updated_store};

#[test]
fn saved_seconds_load_back() {
    let text = save_playtime(None, "480", 3600);
    assert_eq!(load_playtime(Some(&text), "480"), 3600);
}

#[test]
fn missing_file_loads_zero() {
    assert_eq!(load_playtime(None, "480"), 0);
    assert_eq!(load_playtime(None, ""), 0);
}

#[test]
fn corrupt_or_foreign_documents_load_zero() {
    assert_eq!(load_playtime(Some("not json"), "480"), 0);
    assert_eq!(load_playtime(Some("[1, 2]"), "480"), 0);
    assert_eq!(load_playtime(Some("{\"480\": \"ten\"}"), "480"), 0);
    assert_eq!(load_playtime(Some("{\"480\": -5}"), "480"), 0);
}

#[test]
fn other_entries_survive_a_save() {
    let text = save_playtime(Some("{\"10\": 5, \"note\": \"x\"}"), "480", 7);
    assert_eq!(load_playtime(Some(&text), "10"), 5);
    assert_eq!(load_playtime(Some(&text), "480"), 7);
    let doc = updated_store(Some(&text), "480", 8);
    assert_eq!(doc.get("note").and_then(|v| v.as_str()), Some("x"));
}

#[test]
fn save_over_corrupt_document_starts_fresh() {
    let text = save_playtime(Some("{broken"), "480", 3);
    assert_eq!(text, "{\n  \"480\": 3\n}");
    assert_eq!(TrackError::StoreWriteFailed.message(), "Failed to write playtime file");
}
