use status_page::text::{chars_of, decimal_string, replace_all, str_contains, str_eq};

#[test]
fn decimal_text() {
    assert_eq!(decimal_string(0), "0");
    assert_eq!(decimal_string(7), "7");
    assert_eq!(decimal_string(10), "10");
    assert_eq!(decimal_string(1234567890), "1234567890");
    assert_eq!(decimal_string(u64::MAX), u64::MAX.to_string());
}

#[test]
fn replace_from_left_without_overlap() {
    assert_eq!(replace_all("{online} of {total}", "{online}", "3"), "3 of {total}");
    assert_eq!(replace_all("aaa", "aa", "x"), "xa");
    assert_eq!(replace_all("abc", "z", "y"), "abc");
    assert_eq!(replace_all("", "a", "b"), "");
    assert_eq!(replace_all("ёжик ёж", "ёж", "Ё"), "Ёик Ё");
}

#[test]
fn substring_search() {
    assert!(str_contains("hetzner online", "hetzner"));
    assert!(str_contains("abc", ""));
    assert!(!str_contains("ab", "abc"));
    assert!(str_contains("as24940 hetzner", "24940"));
    assert!(!str_contains("rostelecom", "vpn"));
}

#[test]
fn equality_and_chars() {
    assert!(str_eq("ключ", "ключ"));
    assert!(!str_eq("a", "b"));
    assert_eq!(chars_of("привет"), vec!['п', 'р', 'и', 'в', 'е', 'т']);
}

