use news_rust::amount::{parse_amount, parse_positive_amount, same_text};
use news_rust::requests::{amount_string, decimal_string};

#[test]
fn parses_decimal_texts() {
    assert_eq!(parse_amount("43327.40"), Some(4_332_740_000_000));
    assert_eq!(parse_amount("0.001"), Some(100_000));
    assert_eq!(parse_amount("20"), Some(2_000_000_000));
    assert_eq!(parse_amount("0.123456789"), Some(12_345_678));
    assert_eq!(parse_amount("0"), Some(0));
}

#[test]
fn rejects_other_texts() {
    assert_eq!(parse_amount(""), None);
    assert_eq!(parse_amount(".5"), None);
    assert_eq!(parse_amount("5."), None);
    assert_eq!(parse_amount("1.2.3"), None);
    assert_eq!(parse_amount("-1"), None);
    assert_eq!(parse_amount("1e5"), None);
    assert_eq!(parse_amount("184467440737.09551616"), None);
    assert_eq!(parse_amount("184467440737.09551615"), Some(u64::MAX));
}

#[test]
fn zero_is_unavailable() {
    assert_eq!(parse_positive_amount("0.0"), None);
    assert_eq!(parse_positive_amount("0.5"), Some(50_000_000));
}

#[test]
fn formats_amounts() {
    assert_eq!(amount_string(150_000_000), "1.5");
    assert_eq!(amount_string(100_000_000), "1");
    assert_eq!(amount_string(1_000), "0.00001");
    assert_eq!(amount_string(0), "0");
    assert_eq!(amount_string(4_000_000), "0.04");
    assert_eq!(decimal_string(1706641454555), "1706641454555");
}

#[test]
fn compares_texts() {
    assert!(same_text("LOT_SIZE", "LOT_SIZE"));
    assert!(!same_text("LOT_SIZE", "LOT_SIZ"));
    assert!(!same_text("abc", "abd"));
}
