use code_glibc_fixer::paths::{check_script_path, default_bin_dir, entry_path, join, node_binary_path};

#[test]
fn entry_path_appends_the_hash_under_the_bin_dir() {
    assert_eq!(entry_path("/home/u/.vscode-server/bin", "abc123"), "/home/u/.vscode-server/bin/abc123");
}

#[test]
fn entry_path_keeps_a_single_separator() {
    assert_eq!(entry_path("/home/u/.vscode-server/bin/", "abc123"), "/home/u/.vscode-server/bin/abc123");
}

#[test]
fn entry_path_with_an_absolute_name_takes_the_name() {
    assert_eq!(entry_path("/home/u/.vscode-server/bin", "/tmp/other"), "/tmp/other");
}

#[test]
fn join_onto_an_empty_base_adds_no_separator() {
    assert_eq!(join("", "node"), "node");
}

#[test]
fn join_of_an_empty_component_ends_in_a_separator() {
    assert_eq!(join("/a", ""), "/a/");
}

#[test]
fn join_keeps_non_ascii_names() {
    assert_eq!(join("/données", "écrit"), "/données/écrit");
}

#[test]
fn node_binary_lies_in_the_entry() {
    assert_eq!(node_binary_path("/root/.vscode-server/bin/h"), "/root/.vscode-server/bin/h/node");
}

#[test]
fn check_script_lies_in_bin_helpers() {
    assert_eq!(
        check_script_path("/root/.vscode-server/bin/h"),
        "/root/.vscode-server/bin/h/bin/helpers/check-requirements.sh"
    );
}

#[test]
fn default_bin_dir_uses_home() {
    assert_eq!(default_bin_dir(Some("/home/alice")), "/home/alice/.vscode-server/bin");
}

#[test]
fn default_bin_dir_falls_back_to_root() {
    assert_eq!(default_bin_dir(None), "/root/.vscode-server/bin");
}
