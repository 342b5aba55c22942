use discordia::formatting::{code, negative, positive};
use discordia::text::{contains_text, decimal_text, same_text, signed_decimal_text};

#[test]
fn decimal_numbers() {
    assert_eq!(decimal_text(0), "0");
    assert_eq!(decimal_text(9), "9");
    assert_eq!(decimal_text(10), "10");
    assert_eq!(decimal_text(59685490), "59685490");
    assert_eq!(decimal_text(u64::MAX), u64::MAX.to_string());
    assert_eq!(signed_decimal_text(-50), "-50");
    assert_eq!(signed_decimal_text(i32::MIN), i32::MIN.to_string());
    assert_eq!(signed_decimal_text(i32::MAX), i32::MAX.to_string());
}

#[test]
fn text_comparisons() {
    assert!(same_text("abc", "abc"));
    assert!(!same_text("abc", "abd"));
    let strings = ["a".to_string(), "b".to_string()];
    assert!(contains_text(&strings, &"b".to_string()));
    assert!(!contains_text(&strings, &"c".to_string()));
}

#[test]
fn markdown_blocks() {
    assert_eq!(positive("50 exp"), "```diff\n+50 exp\n```");
    assert_eq!(negative("50 exp"), "```diff\n-50 exp\n```");
    assert_eq!(code("x"), "```\nx\n```");
}
