use hypercyber::text::{find_char, same_text, starts_with_text, trim_end_slashes};

#[test]
fn find_char_finds_first_occurrence_or_length() {
    assert_eq!(find_char("a=b=c", '=', 0), 1);
    assert_eq!(find_char("a=b=c", '=', 2), 3);
    assert_eq!(find_char("abc", '=', 0), 3);
    assert_eq!(find_char("", '&', 0), 0);
    assert_eq!(find_char("é=x", '=', 0), 1);
}

#[test]
fn same_text_compares_characters() {
    assert!(same_text("admin", "admin"));
    assert!(!same_text("admin", "Admin"));
    assert!(!same_text("admin", "admins"));
    assert!(same_text("", ""));
}

#[test]
fn starts_with_text_checks_prefix() {
    assert!(starts_with_text("Bearer abc", "Bearer "));
    assert!(!starts_with_text("Bearer", "Bearer "));
    assert!(!starts_with_text("bearer abc", "Bearer "));
    assert!(starts_with_text("x", ""));
}

#[test]
fn trailing_slashes_are_trimmed() {
    assert_eq!(trim_end_slashes("https://idp.example.com///"), "https://idp.example.com");
    assert_eq!(trim_end_slashes("https://idp.example.com"), "https://idp.example.com");
    assert_eq!(trim_end_slashes("///"), "");
    assert_eq!(trim_end_slashes("a/b/"), "a/b");
}
