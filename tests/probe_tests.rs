use unlockit_core::probe::{is_process_running, lowered_names_match, process_name_matches, trim_exe_suffix};

#[test]
fn names_match_case_insensitively() {
    assert!(process_name_matches("GAME.exe", "game.exe"));
    assert!(process_name_matches("Game", "game.exe"));
    assert!(process_name_matches("game.exe", "Game"));
    assert!(!process_name_matches("other.exe", "game.exe"));
}

#[test]
fn suffix_is_trimmed_repeatedly() {
    assert_eq!(trim_exe_suffix("a.exe.exe"), "a");
    assert_eq!(trim_exe_suffix("a.EXE"), "a.EXE");
    assert_eq!(trim_exe_suffix(".exe"), "");
    assert_eq!(trim_exe_suffix("exe"), "exe");
}

#[test]
fn lowered_match_compares_as_given() {
    assert!(lowered_names_match("game.exe", "game"));
    assert!(!lowered_names_match("GAME", "game"));
}

#[test]
fn any_running_name_matches() {
    let names = vec!["init".to_string(), "Steam.EXE".to_string()];
    assert!(is_process_running(&names, "steam.exe"));
    assert!(!is_process_running(&names, "other"));
    assert!(!is_process_running(&vec![], "steam"));
}

#[test]
fn upper_case_suffix_of_tracked_name_is_tolerated() {
    assert!(process_name_matches("game", "GAME.EXE"));
    assert!(process_name_matches("Game.Exe", "GAME.EXE"));
    assert!(is_process_running(&vec!["game".to_string()], "Game.EXE"));
}
