use space_invaders::score::{parse_score, render_score};

#[test]
fn persisted_score_round_trips() {
    let text = render_score(12_345);
    assert_eq!(text, b"12345".to_vec());
    assert_eq!(parse_score(&text), 12_345);
}

#[test]
fn zero_renders_as_one_digit() {
    let text = render_score(0);
    assert_eq!(text, b"0".to_vec());
    assert_eq!(parse_score(&text), 0);
}

#[test]
fn largest_score_round_trips() {
    let text = render_score(u64::MAX);
    assert_eq!(text, b"18446744073709551615".to_vec());
    assert_eq!(parse_score(&text), u64::MAX);
}

#[test]
fn corrupt_text_degrades_to_zero() {
    assert_eq!(parse_score(&b"12a45".to_vec()), 0);
    assert_eq!(parse_score(&b"".to_vec()), 0);
    assert_eq!(parse_score(&b"-5".to_vec()), 0);
    assert_eq!(parse_score(&b" 12".to_vec()), 0);
}

#[test]
fn overflowing_text_degrades_to_zero() {
    assert_eq!(parse_score(&b"18446744073709551616".to_vec()), 0);
    assert_eq!(parse_score(&b"99999999999999999999999".to_vec()), 0);
}

#[test]
fn leading_zeroes_parse_by_value() {
    assert_eq!(parse_score(&b"007".to_vec()), 7);
}
