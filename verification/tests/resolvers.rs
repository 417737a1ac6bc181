use lyrch::resolvers::{argument_would_panic, user_id_from_argument};

#[test]
fn numbers_and_mentions() {
    assert_eq!(user_id_from_argument(None), None);
    assert_eq!(user_id_from_argument(Some("123")), Some(123));
    assert_eq!(user_id_from_argument(Some("+7")), Some(7));
    assert_eq!(user_id_from_argument(Some("<@42>")), Some(42));
    assert_eq!(user_id_from_argument(Some("<@!42>")), Some(42));
    assert_eq!(user_id_from_argument(Some("abc")), None);
    assert_eq!(user_id_from_argument(Some("-5")), None);
    assert_eq!(user_id_from_argument(Some("<@x>")), None);
    assert_eq!(user_id_from_argument(Some("<@>")), None);
    assert_eq!(user_id_from_argument(Some("18446744073709551616")), None);
    assert_eq!(user_id_from_argument(Some("18446744073709551615")), Some(u64::MAX));
}

#[test]
fn agrees_with_std_and_serenity() {
    let samples = [
        "1", "0042", "+", "", "<@1>", "<@!1>", "<@!>", "<@1", "<@12345678901234567890>", "<#5>",
        "<@ 5>", "x<@5>", "é", "<@!9x",
    ];
    for s in samples.iter() {
        assert!(!argument_would_panic(s));
        let expected = s.parse::<u64>().ok().or_else(|| serenity::utils::parse_username(*s));
        assert_eq!(user_id_from_argument(Some(s)), expected, "{:?}", s);
    }
}

#[test]
fn mentions_cut_inside_a_character() {
    assert!(argument_would_panic("<@é"));
    assert!(argument_would_panic("<@!1é"));
    assert!(!argument_would_panic("<é"));
    assert!(!argument_would_panic("é<@1"));
    assert!(!argument_would_panic("12"));
}

#[test]
fn number_reading_matches_std_parse() {
    let samples = [
        "0", "+0", "+", "++1", "-0", "007", "1 2", " 1", "1a", "٣", "99999999999999999999",
        "18446744073709551615", "18446744073709551616", "+18446744073709551615", "12345678901234567890123",
    ];
    for s in samples.iter() {
        let expected = s.parse::<u64>().ok().or_else(|| serenity::utils::parse_username(*s));
        assert_eq!(user_id_from_argument(Some(s)), expected, "{:?}", s);
    }
}
