use lyrch::bucket::{Bucket, Ratelimit};
use lyrch::framework::{addresses_bot, prefix_reply, ratelimit_reply};
use lyrch::fun::choice_reply;
use lyrch::weeb::weeb_image_url;
use lyrch::schedule::DispatchEvent;
use lyrch::text::replace;
use lyrch::users::{plan_daily, plan_daily_unchecked, DailyPlan, Moment};
use std::collections::hash_map::DefaultHasher;
use std::hash::{Hash, Hasher};

fn at(days: i64, secs: u32, frac: u32) -> Moment {
    Moment { days, secs, frac }
}

fn hash_of(e: &DispatchEvent) -> u64 {
    let mut h = DefaultHasher::new();
    e.hash(&mut h);
    h.finish()
}

#[test]
fn replace_empty_pattern_matches_every_boundary() {
    assert_eq!(replace("ab", "", "x"), "xaxbx");
    assert_eq!(replace("", "", "x"), "x");
    assert_eq!(replace("é", "", "-"), "-é-");
    for (s, rep) in [("abc", "12"), ("", ""), ("hé!", "<>")].iter() {
        assert_eq!(replace(s, "", rep), s.replace("", rep));
    }
}

#[test]
fn replace_agrees_with_std() {
    let cases = [
        ("aaaa", "aa", "b"),
        ("abcabc", "bc", ""),
        ("no match here", "xyz", "q"),
        ("{latency}ms {latency}", "{latency}", "42"),
        ("ééé", "é", "e"),
    ];
    for (s, pat, rep) in cases.iter() {
        assert_eq!(replace(s, pat, rep), s.replace(pat, rep));
    }
}

#[test]
fn social_bucket_passes_at_most_once_per_delay() {
    let mut bucket = Bucket::new(Ratelimit { delay: 60, limit: None });
    let times = [100i64, 120, 159, 160, 170, 219, 220, 500];
    let waits: Vec<i64> = times.iter().map(|t| bucket.take_at(7, *t)).collect();
    assert_eq!(waits, vec![0, 40, 1, 0, 50, 1, 0, 0]);
    let passes: Vec<i64> = times
        .iter()
        .zip(waits.iter())
        .filter(|(_, w)| **w == 0)
        .map(|(t, _)| *t)
        .collect();
    for pair in passes.windows(2) {
        assert!(pair[1] >= pair[0] + 60);
    }
}

#[test]
fn social_bucket_first_message_passes() {
    let mut bucket = Bucket::new(Ratelimit { delay: 60, limit: None });
    assert_eq!(bucket.take_at(1, 60), 0);
    assert_eq!(bucket.take_at(2, 1_600_000_000), 0);
    assert_eq!(bucket.take_at(2, 1_600_000_001), 59);
}

#[test]
fn unchecked_daily_plan_cases() {
    assert_eq!(
        plan_daily_unchecked(None).err(),
        Some("The data retrieval from the database failed.")
    );
    assert!(matches!(plan_daily_unchecked(Some(false)), Ok(DailyPlan::Insert)));
    assert!(matches!(plan_daily_unchecked(Some(true)), Ok(DailyPlan::Update)));
}

#[test]
fn daily_reward_once_per_day() {
    let first = at(737_000, 3_600, 250);
    let stored = at(737_001, 3_600, 250);
    match plan_daily(Some(Some(stored)), at(737_000, 3_601, 250)) {
        DailyPlan::Cooldown(text) => assert_eq!(text, "On cooldown. Remaining time: 23:59:59"),
        _ => panic!("expected a cooldown"),
    }
    match plan_daily(Some(Some(stored)), at(737_001, 3_599, 250)) {
        DailyPlan::Cooldown(text) => assert_eq!(text, "On cooldown. Remaining time: 0:0:1"),
        _ => panic!("expected a cooldown"),
    }
    assert!(matches!(plan_daily(Some(Some(stored)), at(737_001, 3_599, 251)), DailyPlan::Update));
    assert!(matches!(plan_daily(Some(Some(stored)), at(737_001, 3_600, 250)), DailyPlan::Update));
    assert!(matches!(plan_daily(Some(Some(stored)), first), DailyPlan::Cooldown(_)));
}

#[test]
fn dispatch_events_compare_by_message_and_user() {
    let a = DispatchEvent::ReactEvent(10, 20);
    let b = DispatchEvent::ReactEvent(10, 20);
    let c = DispatchEvent::ReactEvent(10, 21);
    let d = DispatchEvent::ReactEvent(11, 20);
    assert_eq!(a, b);
    assert!(a.same_reaction(&b));
    assert_ne!(a, c);
    assert!(!a.same_reaction(&c));
    assert_ne!(a, d);
    assert!(!a.same_reaction(&d));
    assert_eq!(hash_of(&a), hash_of(&b));
}

#[test]
fn prefix_reply_only_for_the_bot() {
    assert!(addresses_bot(Some(42), 42));
    assert!(!addresses_bot(Some(43), 42));
    assert!(!addresses_bot(None, 42));
    assert_eq!(prefix_reply("!"), "The prefix is `!`");
    assert_eq!(prefix_reply("ly."), "The prefix is `ly.`");
}

#[test]
fn weeb_urls() {
    assert_eq!(weeb_image_url("pat", false), "https://api-v2.weeb.sh/images/random?type=pat&nsfw=false");
    assert_eq!(weeb_image_url("hug", true), "https://api-v2.weeb.sh/images/random?type=hug&nsfw=true");
    assert_eq!(
        weeb_image_url("cry", true),
        format!("https://api-v2.weeb.sh/images/random?type={}&nsfw={}", "cry", true)
    );
}

#[test]
fn choice_reply_names_the_option() {
    assert_eq!(choice_reply("tea"), "I think you should go with tea");
    assert_eq!(choice_reply(""), "I think you should go with ");
}

#[test]
fn ratelimit_notice() {
    assert_eq!(ratelimit_reply(5), "Try this again in 5 seconds.");
    assert_eq!(ratelimit_reply(0), "Try this again in 0 seconds.");
    assert_eq!(ratelimit_reply(-3), "Try this again in -3 seconds.");
    assert_eq!(ratelimit_reply(1234), format!("Try this again in {} seconds.", 1234));
}
