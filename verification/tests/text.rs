use aranet_cli::text::{decimal, join, push_decimal, push_line, push_owned_line, RULE};

#[test]
fn decimal_writes_numbers_as_display_does() {
    for n in [0u64, 1, 9, 10, 11, 99, 100, 101, 300, 1234567890, u32::MAX as u64, u64::MAX] {
        assert_eq!(decimal(n), n.to_string());
    }
    assert_eq!(decimal(0), "0");
    assert_eq!(decimal(18446744073709551615), "18446744073709551615");
}

#[test]
fn push_decimal_appends() {
    let mut text = "n=".to_string();
    push_decimal(&mut text, 42);
    push_decimal(&mut text, 0);
    assert_eq!(text, "n=420");
}

#[test]
fn join_puts_the_separator_between_items() {
    let none: Vec<String> = Vec::new();
    assert_eq!(join(&none, ", "), "");
    assert_eq!(join(&vec!["a".to_string()], ", "), "a");
    assert_eq!(join(&vec!["a".to_string(), "b".to_string(), "".to_string()], ", "), "a, b, ");
    assert_eq!(join(&vec!["a".to_string(), "b".to_string()], ""), "ab");
}

#[test]
fn lines_are_pushed_in_order() {
    let mut lines = Vec::new();
    push_line(&mut lines, "one");
    push_owned_line(&mut lines, "two".to_string());
    push_line(&mut lines, "");
    assert_eq!(lines, vec!["one", "two", ""]);
}

#[test]
fn rule_is_thirty_six_dashes() {
    assert_eq!(RULE.chars().count(), 36);
    assert!(RULE.chars().all(|c| c == '\u{2500}'));
}
