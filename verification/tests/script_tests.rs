use code_glibc_fixer::script::{inject_glibc_override, patch_script, OVERRIDE_BLOCK, PATCH_MARKER};

const BLOCK: &str = "# patched by code_glibc_fixer - force glibc/glibcxx checks to pass\nfound_required_glibc=1\nfound_required_glibcxx=1\n";

#[test]
fn override_goes_right_after_the_shebang() {
    let script = "#!/usr/bin/env sh\nset -e\nfound_required_glibc=0\n";
    let expected = format!("#!/usr/bin/env sh\n{}set -e\nfound_required_glibc=0\n", BLOCK);
    assert_eq!(inject_glibc_override(script), expected);
}

#[test]
fn override_of_a_lone_shebang_goes_after_it() {
    let res = inject_glibc_override("#!/bin/sh");
    assert_eq!(res, format!("#!/bin/sh\n{}", BLOCK));
    assert_eq!(res.lines().next(), Some("#!/bin/sh"));
    assert!(res.contains(BLOCK));
}

#[test]
fn override_of_a_bare_shebang_marker() {
    assert_eq!(inject_glibc_override("#!"), format!("#!\n{}", BLOCK));
}

#[test]
fn override_of_a_single_line_without_shebang_goes_in_front() {
    assert_eq!(inject_glibc_override("echo hi"), format!("{}\necho hi", BLOCK));
    assert_eq!(inject_glibc_override("#"), format!("{}\n#", BLOCK));
}

#[test]
fn override_of_an_empty_script() {
    assert_eq!(inject_glibc_override(""), format!("{}\n", BLOCK));
}

#[test]
fn override_of_a_script_that_starts_with_a_break() {
    assert_eq!(inject_glibc_override("\nrest"), format!("\n{}rest", BLOCK));
}

#[test]
fn override_keeps_non_ascii_text() {
    let script = "#!/bin/sh — é\nécho\n";
    assert_eq!(inject_glibc_override(script), format!("#!/bin/sh — é\n{}écho\n", BLOCK));
}

#[test]
fn override_block_is_the_documented_one() {
    assert_eq!(OVERRIDE_BLOCK, BLOCK);
    assert!(OVERRIDE_BLOCK.starts_with(PATCH_MARKER));
}

#[test]
fn unpatched_script_gets_patched() {
    let script = "#!/bin/sh\necho hi\n";
    assert_eq!(patch_script(script), Some(inject_glibc_override(script)));
}

#[test]
fn patched_script_is_left_alone() {
    let script = "#!/bin/sh\n# patched by code_glibc_fixer\necho hi\n";
    assert_eq!(patch_script(script), None);
}

#[test]
fn patching_twice_changes_nothing_more() {
    let once = patch_script("#!/bin/sh\necho hi\n").unwrap();
    assert_eq!(patch_script(&once), None);
}

#[test]
fn marker_in_the_middle_of_a_line_counts() {
    assert_eq!(patch_script("x # patched by code_glibc_fixer y"), None);
}

#[test]
fn a_partial_marker_does_not_count() {
    assert!(patch_script("# patched by code_glibc_fixe\n").is_some());
}
