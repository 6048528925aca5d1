use pam_oom_score::score::{decimal_bytes, parse_score_token, requested_score, score_file_content};

#[test]
fn parses_plain_number() {
    assert_eq!(parse_score_token("42"), Some(42));
    assert_eq!(parse_score_token("0"), Some(0));
    assert_eq!(parse_score_token("1000"), Some(1000));
}

#[test]
fn parses_signed_numbers() {
    assert_eq!(parse_score_token("-1000"), Some(-1000));
    assert_eq!(parse_score_token("+123"), Some(123));
    assert_eq!(parse_score_token("-0"), Some(0));
}

#[test]
fn parses_leading_zeros() {
    assert_eq!(parse_score_token("007"), Some(7));
    assert_eq!(parse_score_token("-007"), Some(-7));
}

#[test]
fn rejects_malformed_tokens() {
    assert_eq!(parse_score_token(""), None);
    assert_eq!(parse_score_token("+"), None);
    assert_eq!(parse_score_token("-"), None);
    assert_eq!(parse_score_token("abc"), None);
    assert_eq!(parse_score_token("12x"), None);
    assert_eq!(parse_score_token(" 12"), None);
    assert_eq!(parse_score_token("12 "), None);
    assert_eq!(parse_score_token("1.5"), None);
    assert_eq!(parse_score_token("--5"), None);
    assert_eq!(parse_score_token("+-5"), None);
}

#[test]
fn parses_extreme_values_like_the_platform() {
    assert_eq!(parse_score_token("2147483647"), Some(i32::MAX));
    assert_eq!(parse_score_token("-2147483648"), Some(i32::MIN));
    assert_eq!(parse_score_token("2147483648"), None);
    assert_eq!(parse_score_token("-2147483649"), None);
    assert_eq!(parse_score_token("99999999999999999999"), None);
    assert_eq!(parse_score_token("-99999999999999999999"), None);
}

#[test]
fn in_range_scores_pass_through() {
    assert_eq!(requested_score(Some("500")), 500);
    assert_eq!(requested_score(Some("-1000")), -1000);
    assert_eq!(requested_score(Some("1000")), 1000);
    assert_eq!(requested_score(Some("0")), 0);
}

#[test]
fn out_of_range_scores_become_neutral() {
    assert_eq!(requested_score(Some("1001")), 0);
    assert_eq!(requested_score(Some("-1001")), 0);
    assert_eq!(requested_score(Some("-5000")), 0);
    assert_eq!(requested_score(Some("2000000000")), 0);
}

#[test]
fn malformed_or_absent_scores_become_neutral() {
    assert_eq!(requested_score(None), 0);
    assert_eq!(requested_score(Some("")), 0);
    assert_eq!(requested_score(Some("oom")), 0);
    assert_eq!(requested_score(Some("10.0")), 0);
}

#[test]
fn renders_decimal_bytes_exactly() {
    assert_eq!(decimal_bytes(0), b"0".to_vec());
    assert_eq!(decimal_bytes(7), b"7".to_vec());
    assert_eq!(decimal_bytes(-57), b"-57".to_vec());
    assert_eq!(decimal_bytes(1000), b"1000".to_vec());
    assert_eq!(decimal_bytes(-1000), b"-1000".to_vec());
    assert_eq!(decimal_bytes(i32::MAX), b"2147483647".to_vec());
    assert_eq!(decimal_bytes(i32::MIN), b"-2147483648".to_vec());
}

#[test]
fn in_range_token_is_written_exactly() {
    for v in [-1000, -999, -1, 0, 1, 37, 999, 1000] {
        let token = format!("{v}");
        let content = score_file_content(Some(&token));
        assert_eq!(content, token.as_bytes().to_vec());
    }
}

#[test]
fn unparsable_token_writes_zero() {
    assert_eq!(score_file_content(None), b"0".to_vec());
    assert_eq!(score_file_content(Some("")), b"0".to_vec());
    assert_eq!(score_file_content(Some("fifty")), b"0".to_vec());
    assert_eq!(score_file_content(Some("0x10")), b"0".to_vec());
}

#[test]
fn out_of_range_token_writes_zero_not_a_bound() {
    assert_eq!(score_file_content(Some("1001")), b"0".to_vec());
    assert_eq!(score_file_content(Some("-5000")), b"0".to_vec());
    assert_eq!(score_file_content(Some("2000000000")), b"0".to_vec());
}

#[test]
fn repeated_writes_store_the_same_content() {
    let once = score_file_content(Some("250"));
    let twice = score_file_content(Some("250"));
    assert_eq!(once, twice);
    assert_eq!(once, b"250".to_vec());
}
