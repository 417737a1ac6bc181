use lyrch::fun::choose_reply;
use lyrch::manga::{find_bytes, manga_image_range, manga_request};
use lyrch::moderation::lockdown_plan;
use lyrch::social::{credits_reply, daily_reply, progress_bar};

#[test]
fn choose_needs_two_options() {
    let none: Vec<String> = vec![];
    let one = vec!["tea".to_owned()];
    let msg = "Provide 2 or more choices, separated by commas.";
    assert_eq!(choose_reply(&none), Err(msg.to_owned()));
    assert_eq!(choose_reply(&one), Err(msg.to_owned()));
}

#[test]
fn choose_picks_an_option() {
    let options = vec!["tea".to_owned(), "coffee".to_owned(), "water".to_owned()];
    for _ in 0..20 {
        let reply = choose_reply(&options).unwrap();
        assert!(
            options.iter().any(|o| reply == format!("I think you should go with {}", o)),
            "{}",
            reply
        );
    }
}

#[test]
fn lockdown_messages() {
    let open = lockdown_plan(false, "general");
    assert!(open.deny_send_messages);
    assert_eq!(open.patience, "Unlocking the channel general...");
    assert_eq!(open.response, "The channel general is now locked.");
    let locked = lockdown_plan(true, "general");
    assert!(!locked.deny_send_messages);
    assert_eq!(locked.patience, "Locking the channel general...");
    assert_eq!(locked.response, "The lockdown for the channel general has been released.");
}

#[test]
fn social_replies() {
    assert_eq!(daily_reply(&Ok(())), "Yay! You received 200 <:shiny:612364146792726539>!");
    assert_eq!(
        daily_reply(&Err("On cooldown. Remaining time: 1:2:3".to_owned())),
        "On cooldown. Remaining time: 1:2:3"
    );
    assert_eq!(credits_reply(350), "You have a total of 350 <:shiny:612364146792726539>");
}

#[test]
fn progress_bars() {
    assert_eq!(progress_bar(5, 2), "██   ");
    assert_eq!(progress_bar(3, 0), "   ");
    assert_eq!(progress_bar(3, 3), "███");
    assert_eq!(progress_bar(35, 10).chars().count(), 35);
    assert_eq!(progress_bar(0, 0), "");
}

#[test]
fn byte_search() {
    let hay = b"abcabc";
    assert_eq!(find_bytes(hay, b"bc", 0), Some(1));
    assert_eq!(find_bytes(hay, b"bc", 2), Some(4));
    assert_eq!(find_bytes(hay, b"bc", 5), None);
    assert_eq!(find_bytes(hay, b"", 6), Some(6));
    assert_eq!(find_bytes(hay, b"x", 0), None);
}

#[test]
fn manga_image_found() {
    let page = r#"<html><img src="logo.png" alt="logo"><img id="img" width="800" src="https://i.example/1.jpg" alt="One Piece 1 - Page 1"></html>"#;
    let (s, e) = manga_image_range(page).unwrap();
    assert_eq!(&page[s..e], "https://i.example/1.jpg");
}

#[test]
fn manga_image_without_marker_uses_first_src() {
    let page = r#"<img src="a.png" alt="a">"#;
    let (s, e) = manga_image_range(page).unwrap();
    assert_eq!(&page[s..e], "a.png");
}

#[test]
fn manga_image_missing_end_fails() {
    assert_eq!(manga_image_range(r#"<img id="img" src="a.png">"#), None);
    assert_eq!(manga_image_range("abc"), None);
    assert_eq!(manga_image_range(""), None);
}

#[test]
fn manga_cut_inside_character_fails() {
    // The cut five bytes after the start lands inside the two-byte "é".
    let page = "abcdé\" alt=";
    assert_eq!(manga_image_range(page), None);
    let ok = "abcde\" alt=";
    assert_eq!(manga_image_range(ok), Some((5, 5)));
}

#[test]
fn manga_request_defaults_and_errors() {
    let no_name = "You did not provide a manga name. Please make sure to replace all `spaces` inside a name with `-`. For example: `One Piece` should be done as `!manga one-piece`";
    assert_eq!(manga_request(None, None, None).err().unwrap(), no_name);
    assert_eq!(manga_request(Some("---"), Some("2"), Some(3)).err().unwrap(), no_name);
    let first = manga_request(Some("one-piece"), None, None).ok().unwrap();
    assert_eq!(first.url, "https://www.mangapanda.com/one-piece/1/1");
    assert_eq!(first.title, "One Piece: Chapter 1 Page 1");
    assert!(!first.back_reaction);
    let later = manga_request(Some("naruto"), Some("700"), Some(12)).ok().unwrap();
    assert_eq!(later.url, "https://www.mangapanda.com/naruto/700/12");
    assert_eq!(later.title, "One Piece: Chapter 700 Page 12");
    assert!(later.back_reaction);
}
