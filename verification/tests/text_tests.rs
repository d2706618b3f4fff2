use code_glibc_fixer::text::{bytes_contain, chars_of, str_contains, str_eq};

#[test]
fn str_contains_finds_inner_text() {
    assert!(str_contains("hello world", "o w"));
    assert!(!str_contains("hello world", "ow"));
}

#[test]
fn str_contains_empty_needle() {
    assert!(str_contains("", ""));
    assert!(str_contains("abc", ""));
}

#[test]
fn str_contains_needle_longer_than_text() {
    assert!(!str_contains("ab", "abc"));
}

#[test]
fn str_contains_at_the_end() {
    assert!(str_contains("abcdef", "def"));
}

#[test]
fn bytes_contain_finds_and_misses() {
    assert!(bytes_contain(b"\xff/root/usrlibs\xfe", b"/root/usrlibs"));
    assert!(!bytes_contain(b"/root/usrlib", b"/root/usrlibs"));
}

#[test]
fn chars_of_splits_into_characters() {
    assert_eq!(chars_of("aé—"), vec!['a', 'é', '—']);
}

#[test]
fn str_eq_compares_text() {
    assert!(str_eq("rpm2cpio", "rpm2cpio"));
    assert!(!str_eq("rpm2cpio", "rpm2cpi"));
}
