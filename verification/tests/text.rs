use surfpool::text::{cat2, cat3, cat4, decimal, join, same_text, trim_start};

#[test]
fn decimal_digits() {
    assert_eq!(decimal(0), "0");
    assert_eq!(decimal(10203), "10203");
    assert_eq!(decimal(u64::MAX), u64::MAX.to_string());
}

#[test]
fn texts_are_put_together() {
    assert_eq!(cat2("a", "b"), "ab");
    assert_eq!(cat3("a", "", "c"), "ac");
    assert_eq!(cat4("a", "b", "c", "d"), "abcd");
    assert_eq!(join(&vec![], ", "), "");
    assert_eq!(join(&vec!["x".to_string()], ", "), "x");
    assert_eq!(join(&vec!["x".to_string(), "y".to_string(), "z".to_string()], ", "), "x, y, z");
}

#[test]
fn leading_characters_are_trimmed() {
    assert_eq!(trim_start("vv1.0v", 'v'), "1.0v");
    assert_eq!(trim_start("1.0", 'v'), "1.0");
    assert_eq!(trim_start("vvv", 'v'), "");
    assert!(same_text("linux", "linux"));
    assert!(!same_text("linux", "Linux"));
}
