use lyrch::i18n::Language;
use lyrch::text::{push_i64, push_u64, push_zero_padded, replace, u64_to_string};

#[test]
fn decimal_rendering() {
    assert_eq!(u64_to_string(0), "0");
    assert_eq!(u64_to_string(7), "7");
    assert_eq!(u64_to_string(1234), "1234");
    assert_eq!(u64_to_string(u64::MAX), "18446744073709551615");
}

#[test]
fn signed_decimal_rendering() {
    let mut s = String::from("x=");
    push_i64(&mut s, -42);
    assert_eq!(s, "x=-42");
    let mut t = String::new();
    push_i64(&mut t, i64::MIN);
    assert_eq!(t, "-9223372036854775808");
    let mut u = String::new();
    push_u64(&mut u, 900);
    assert_eq!(u, "900");
}

#[test]
fn zero_padding() {
    let mut s = String::new();
    push_zero_padded(&mut s, "7", 2);
    push_zero_padded(&mut s, "123", 2);
    push_zero_padded(&mut s, "-5", 4);
    assert_eq!(s, "0712300-5");
}

#[test]
fn replace_every_occurrence() {
    assert_eq!(replace("a{x}b{x}", "{x}", "1"), "a1b1");
    assert_eq!(replace("no placeholder", "{x}", "1"), "no placeholder");
    assert_eq!(replace("aaa", "aa", "b"), "ba");
    assert_eq!(replace("", "{x}", "1"), "");
    assert_eq!(replace("ñ{x}ñ", "{x}", "é"), "ñéñ");
}

fn english() -> Language {
    Language {
        ping: "Ping?",
        about: "A small bot.",
        pong: "Pong! Took {latency} ms.",
    }
}

#[test]
fn language_templates() {
    let l = english();
    assert_eq!(l.ping(), "Ping?");
    assert_eq!(l.about(), "A small bot.");
    assert_eq!(l.pong("42"), "Pong! Took 42 ms.");
}

#[test]
fn pong_without_placeholder_is_verbatim() {
    let l = Language { ping: "", about: "", pong: "Pong!" };
    assert_eq!(l.pong("999"), "Pong!");
    let twice = Language { ping: "", about: "", pong: "{latency}/{latency}" };
    assert_eq!(twice.pong("3"), "3/3");
}
