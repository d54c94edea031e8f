use spoti_dump::text::{append, copy_all, decimal, join, same_text};

fn strings(items: &[&str]) -> Vec<String> {
    items.iter().map(|f| f.to_string()).collect()
}

#[test]
fn append_puts_one_text_after_the_other() {
    assert_eq!(append("ab", "cd"), "abcd");
    assert_eq!(append("", "cd"), "cd");
    assert_eq!(append("ab", ""), "ab");
    assert_eq!(append("é", "ß"), "éß");
}

#[test]
fn same_text_compares_characters() {
    assert!(same_text("abc", "abc"));
    assert!(same_text("", ""));
    assert!(!same_text("abc", "abd"));
    assert!(!same_text("abc", "ab"));
    assert!(!same_text("abc", "ABC"));
}

#[test]
fn join_puts_the_separator_between() {
    assert_eq!(join(&strings(&["a", "b", "c"]), ", "), "a, b, c");
    assert_eq!(join(&strings(&["a"]), ", "), "a");
    assert_eq!(join(&strings(&[]), ", "), "");
    assert_eq!(join(&strings(&["", ""]), ","), ",");
    assert_eq!(join(&strings(&["a", "b"]), ""), "ab");
}

#[test]
fn join_agrees_with_the_standard_library() {
    let parts = strings(&["x", "", "yz", "0"]);
    for sep in ["", ",", ", ", "--"] {
        for n in 0..=parts.len() {
            assert_eq!(join(&parts[..n].to_vec(), sep), parts[..n].join(sep));
        }
    }
}

#[test]
fn decimal_numerals() {
    assert_eq!(decimal(0), "0");
    assert_eq!(decimal(7), "7");
    assert_eq!(decimal(10), "10");
    assert_eq!(decimal(80), "80");
    assert_eq!(decimal(8000), "8000");
    assert_eq!(decimal(12345), "12345");
    assert_eq!(decimal(65535), "65535");
}

#[test]
fn decimal_agrees_with_the_standard_library() {
    for n in 0..=u16::MAX {
        assert_eq!(decimal(n), n.to_string());
    }
}

#[test]
fn copy_all_copies_in_order() {
    let texts = strings(&["a", "", "bc"]);
    assert_eq!(copy_all(&texts), texts);
    assert_eq!(copy_all(&Vec::new()), Vec::<String>::new());
}
