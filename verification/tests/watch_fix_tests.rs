use code_glibc_fixer::fix::{
    count_fixed, entries_to_fix, entry_part_action, entry_parts, fix_mode, fix_summary, EntryAction, EntryPart, FixMode,
    FixSummary, ListedEntry,
};
use code_glibc_fixer::watch::{watch_target, wait_for_node_binary_step, WaitAction};

#[test]
fn new_directory_is_fixed() {
    assert_eq!(watch_target("/root/.vscode-server/bin", true, Some("abc")), Some("/root/.vscode-server/bin/abc".to_string()));
}

#[test]
fn new_file_is_ignored() {
    assert_eq!(watch_target("/root/.vscode-server/bin", false, Some("abc")), None);
}

#[test]
fn nameless_event_is_ignored() {
    assert_eq!(watch_target("/root/.vscode-server/bin", true, None), None);
}

#[test]
fn wait_settles_once_node_is_there() {
    assert_eq!(wait_for_node_binary_step(0, true), WaitAction::Settle);
    assert_eq!(wait_for_node_binary_step(119_999, true), WaitAction::Settle);
}

#[test]
fn wait_polls_while_node_is_missing() {
    assert_eq!(wait_for_node_binary_step(500, false), WaitAction::Poll);
}

#[test]
fn wait_gives_up_after_two_minutes() {
    assert_eq!(wait_for_node_binary_step(120_000, false), WaitAction::GiveUp);
    assert_eq!(wait_for_node_binary_step(120_000, true), WaitAction::GiveUp);
}

fn entry(path: &str, is_dir: bool) -> ListedEntry {
    ListedEntry { path: path.to_string(), is_dir }
}

#[test]
fn only_directories_are_fixed_in_order() {
    let entries = vec![entry("/b/x", true), entry("/b/f.txt", false), entry("/b/y", true)];
    assert_eq!(entries_to_fix(&entries), vec!["/b/x".to_string(), "/b/y".to_string()]);
}

#[test]
fn no_entries_nothing_to_fix() {
    assert!(entries_to_fix(&vec![]).is_empty());
}

#[test]
fn count_fixed_counts_successes() {
    assert_eq!(count_fixed(&[true, false, true, true]), 3);
    assert_eq!(count_fixed(&[]), 0);
}

#[test]
fn summary_of_nothing_fixed() {
    assert_eq!(fix_summary(&[false, false]), FixSummary::NothingFixed);
    assert_eq!(fix_summary(&[]), FixSummary::NothingFixed);
}

#[test]
fn summary_counts_fixed() {
    assert_eq!(fix_summary(&[false, true, true]), FixSummary::Fixed(2));
}

#[test]
fn entry_parts_are_node_then_check_script() {
    let parts = entry_parts("/root/.vscode-server/bin/h");
    assert_eq!(parts.len(), 2);
    match &parts[0] {
        EntryPart::NodeBinary(p) => assert_eq!(p, "/root/.vscode-server/bin/h/node"),
        EntryPart::CheckScript(_) => panic!("expected the node binary first"),
    }
    match &parts[1] {
        EntryPart::CheckScript(p) => assert_eq!(p, "/root/.vscode-server/bin/h/bin/helpers/check-requirements.sh"),
        EntryPart::NodeBinary(_) => panic!("expected the script second"),
    }
}

#[test]
fn present_parts_are_patched() {
    match entry_part_action(&EntryPart::NodeBinary("/e/node".to_string()), true) {
        EntryAction::PatchNodeBinary(p) => assert_eq!(p, "/e/node"),
        _ => panic!("expected patchelf"),
    }
    match entry_part_action(&EntryPart::CheckScript("/e/s.sh".to_string()), true) {
        EntryAction::PatchCheckScript(p) => assert_eq!(p, "/e/s.sh"),
        _ => panic!("expected the script edit"),
    }
}

#[test]
fn missing_parts_are_skipped_with_a_warning() {
    match entry_part_action(&EntryPart::NodeBinary("/e/node".to_string()), false) {
        EntryAction::NodeBinaryMissing(p) => assert_eq!(p, "/e/node"),
        _ => panic!("expected a warning"),
    }
    match entry_part_action(&EntryPart::CheckScript("/e/s.sh".to_string()), false) {
        EntryAction::CheckScriptMissing(p) => assert_eq!(p, "/e/s.sh"),
        _ => panic!("expected a warning"),
    }
}

#[test]
fn watch_directory_wins() {
    match fix_mode(Some("/w".to_string()), Some("/p".to_string()), Some("/home/u")) {
        FixMode::FixThenWatch(d) => assert_eq!(d, "/w"),
        FixMode::FixAll(_) => panic!("expected watch mode"),
    }
}

#[test]
fn path_argument_is_fixed() {
    match fix_mode(None, Some("/p".to_string()), Some("/home/u")) {
        FixMode::FixAll(d) => assert_eq!(d, "/p"),
        FixMode::FixThenWatch(_) => panic!("expected fix mode"),
    }
}

#[test]
fn default_is_home_vscode_server_bin() {
    match fix_mode(None, None, Some("/home/u")) {
        FixMode::FixAll(d) => assert_eq!(d, "/home/u/.vscode-server/bin"),
        FixMode::FixThenWatch(_) => panic!("expected fix mode"),
    }
    match fix_mode(None, None, None) {
        FixMode::FixAll(d) => assert_eq!(d, "/root/.vscode-server/bin"),
        FixMode::FixThenWatch(_) => panic!("expected fix mode"),
    }
}
