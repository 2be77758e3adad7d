use league_notifier::util::game_key;
use league_notifier::util::i64_to_string;
use league_notifier::util::parse_u64;
use league_notifier::util::u64_to_string;
use league_notifier::util::StringExt;

#[test]
fn decimal_rendering_exact_values() {
    assert_eq!(u64_to_string(0), "0");
    assert_eq!(u64_to_string(7), "7");
    assert_eq!(u64_to_string(42), "42");
    assert_eq!(u64_to_string(1000), "1000");
    assert_eq!(u64_to_string(u64::MAX), "18446744073709551615");
}

#[test]
fn signed_rendering_exact_values() {
    assert_eq!(i64_to_string(0), "0");
    assert_eq!(i64_to_string(25), "25");
    assert_eq!(i64_to_string(-1), "-1");
    assert_eq!(i64_to_string(i64::MIN), "-9223372036854775808");
    assert_eq!(i64_to_string(i64::MAX), "9223372036854775807");
}

#[test]
fn parse_accepts_plain_decimal_digits() {
    assert_eq!(parse_u64("0"), Some(0));
    assert_eq!(parse_u64("2"), Some(2));
    assert_eq!(parse_u64("007"), Some(7));
    assert_eq!(parse_u64("18446744073709551615"), Some(u64::MAX));
}

#[test]
fn parse_rejects_empty_signs_and_overflow() {
    assert_eq!(parse_u64(""), None);
    assert_eq!(parse_u64("+5"), None);
    assert_eq!(parse_u64("-5"), None);
    assert_eq!(parse_u64("12a"), None);
    assert_eq!(parse_u64(" 5"), None);
    assert_eq!(parse_u64("18446744073709551616"), None);
    assert_eq!(parse_u64("99999999999999999999999"), None);
}

#[test]
fn title_case_upper_cases_head_and_lower_cases_tail() {
    assert_eq!("GOLD".to_string().title_case(), "Gold");
    assert_eq!("gold".to_string().title_case(), "Gold");
    assert_eq!("gOLD".to_string().title_case(), "Gold");
    assert_eq!("x".to_string().title_case(), "X");
}

#[test]
fn game_key_joins_name_and_game_id() {
    assert_eq!(game_key("Player One", 4242), "Player One-4242");
}
