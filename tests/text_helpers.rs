use selene_bot::text::{parse_decimal, push_decimal, push_padded, split_words, text_of};

#[test]
fn split_on_any_whitespace() {
    let w = split_words("  @bot\tusername \u{3000}--user\n42  ");
    assert_eq!(w, vec!["@bot", "username", "--user", "42"]);
    assert!(split_words("").is_empty());
    assert!(split_words(" \t\n").is_empty());
}

#[test]
fn decimal_text() {
    let mut s = String::new();
    push_decimal(&mut s, 0);
    assert_eq!(s, "0");
    let mut s = text_of("#");
    push_decimal(&mut s, 1234567890);
    assert_eq!(s, "#1234567890");
    let mut s = String::new();
    push_decimal(&mut s, u64::MAX);
    assert_eq!(s, u64::MAX.to_string());
}

#[test]
fn decimal_reading() {
    assert_eq!(parse_decimal("0"), Some(0));
    assert_eq!(parse_decimal("0042"), Some(42));
    assert_eq!(parse_decimal("18446744073709551615"), Some(u64::MAX));
    assert_eq!(parse_decimal("18446744073709551616"), None);
    assert_eq!(parse_decimal(""), None);
    assert_eq!(parse_decimal("-1"), None);
    assert_eq!(parse_decimal("4a"), None);
}

#[test]
fn padding() {
    let mut s = String::new();
    push_padded(&mut s, "ab", 5);
    assert_eq!(s, "ab   ");
    let mut s = String::new();
    push_padded(&mut s, "abcdef", 3);
    assert_eq!(s, "abcdef");
    let mut s = String::new();
    push_padded(&mut s, "名字", 4);
    assert_eq!(s, "名字  ");
}
