use code_glibc_fixer::patchelf::{
    is_already_patched, node_patch_plan, print_interpreter_command, rpath, set_interpreter_command,
};
use code_glibc_fixer::prepare::ld_so_path;

#[test]
fn loader_is_the_unpacked_one() {
    assert_eq!(ld_so_path(), "/root/usrlibs/lib64/ld-linux-x86-64.so.2");
}

#[test]
fn rpath_lists_usr_lib64_then_lib64() {
    assert_eq!(rpath(), "/root/usrlibs/usr/lib64:/root/usrlibs/lib64");
}

#[test]
fn set_interpreter_command_matches_the_readme() {
    let c = set_interpreter_command("/root/.vscode-server/bin/h/node");
    assert_eq!(c.program, "patchelf");
    assert_eq!(
        c.args,
        vec![
            "--set-interpreter",
            "/root/usrlibs/lib64/ld-linux-x86-64.so.2",
            "--set-rpath",
            "/root/usrlibs/usr/lib64:/root/usrlibs/lib64",
            "/root/.vscode-server/bin/h/node",
        ]
    );
}

#[test]
fn print_interpreter_command_names_the_binary() {
    let c = print_interpreter_command("/x/node");
    assert_eq!(c.program, "patchelf");
    assert_eq!(c.args, vec!["--print-interpreter", "/x/node"]);
}

#[test]
fn patched_interpreter_is_recognised() {
    assert!(is_already_patched(Some(b"/root/usrlibs/lib64/ld-linux-x86-64.so.2\n")));
}

#[test]
fn system_interpreter_is_not_patched() {
    assert!(!is_already_patched(Some(b"/lib64/ld-linux-x86-64.so.2\n")));
}

#[test]
fn empty_output_is_not_patched() {
    assert!(!is_already_patched(Some(b"")));
}

#[test]
fn patchelf_missing_counts_as_not_patched() {
    assert!(!is_already_patched(None));
}

#[test]
fn invalid_utf8_around_the_directory_still_counts() {
    assert!(is_already_patched(Some(b"\xc3(/root/usrlibs/x")));
}

#[test]
fn patched_binary_is_left_alone() {
    assert!(node_patch_plan("/x/node", true).is_none());
}

#[test]
fn unpatched_binary_gets_patchelf() {
    let c = node_patch_plan("/x/node", false).unwrap();
    assert_eq!(c.program, "patchelf");
    assert_eq!(c.args.len(), 5);
    assert_eq!(c.args[4], "/x/node");
}
