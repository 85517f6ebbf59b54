use tiktok_bot::bot::{
    cut_text, failure_text, handle_message, handle_resolution, help_text, is_alternate_locale,
    localized, processing_text, sync_user, welcome_back_text, welcome_text, Inbound, Outbound,
    Plan, Sender,
};
use tiktok_bot::store::{Store, User};

const DAY_MS: i64 = 86_400_000;

const WELCOME_EN: &str = "<b>🎉 Welcome aboard!</b>\n🎉 It looks like you're new here. Enjoy our bot for free - no limits! 😊";
const WELCOME_BACK_EN: &str = "<b>🌟 Welcome back!</b>\n🌟 We missed you! 😊";
const HELP_EN: &str = "<b>ℹ️ Current Bot Functions</b>\n\nCurrently, the bot only supports <b>TikTok video downloads</b>.\n\nPlease send a valid TikTok video link to proceed.\n\n<i>Example: https://vm.tiktok.com/ABC123/</i> 🎥";
const PROCESSING_EN: &str = "<b>⏳ Downloading TikTok video...</b>\n\nPlease wait while we process your request! 🎬";
const PROCESSING_RU: &str = "<b>⏳ Скачивание видео из TikTok...</b>\n\nПожалуйста, подождите, пока мы обрабатываем ваш запрос! 🎬";

fn message(text: &str, sender_id: i64) -> Inbound {
    Inbound {
        text: Some(text.to_string()),
        chat_id: Some(100),
        from: Some(Sender {
            id: sender_id,
            first_name: String::from("Ann"),
            language_code: Some(String::from("en")),
        }),
        is_topic_message: false,
    }
}

fn existing_user(store: &mut Store, id: i64, last_seen: i64) {
    let u = User {
        id,
        chat_id: Some(100),
        name: String::from("Ann"),
        requests_amount: 0,
        timestamp: last_seen,
        register_timestamp: last_seen,
    };
    assert!(store.add_user(u).is_ok());
}

#[test]
fn scenario_new_user_sends_a_link_and_gets_a_video() {
    let mut store = Store::new();
    let now = 10 * DAY_MS;
    let msg = message("https://vm.tiktok.com/ZMabc123/", 7);
    let plan = handle_message(&mut store, &msg, now);

    // the store gained one record, with the counter unset by creation alone
    let created = store.get_user(7).unwrap();
    assert_eq!(created.requests_amount, 0);
    assert_eq!(created.chat_id, Some(100));
    assert_eq!(created.name, "Ann");
    assert_eq!(created.register_timestamp, now);

    let (chat_id, user_id, api_url, notices) = match plan {
        Plan::Resolve { chat_id, user_id, api_url, notices } => {
            (chat_id, user_id, api_url, notices)
        }
        _ => panic!("a link must lead to a resolution"),
    };
    assert_eq!(chat_id, 100);
    assert_eq!(user_id, 7);
    assert_eq!(
        api_url,
        "https://www.tikwm.com/api/?url=https://vm.tiktok.com/ZMabc123/"
    );
    assert_eq!(notices, vec![WELCOME_EN, PROCESSING_EN]);

    // the resolver answers with a video
    let body = "{\"data\":{\"play\":\"https://cdn.example/v.mp4\",\"title\":\"My title\",\"music\":\"https://cdn.example/a.mp3\"}}";
    let lang = String::from("en");
    let out = handle_resolution(&mut store, 7, &lang, body, now + 5);

    // exactly one video send and one audio send, in that order
    assert_eq!(out.len(), 2);
    match &out[0] {
        Outbound::Video { url, caption } => {
            assert_eq!(url, "https://cdn.example/v.mp4");
            assert_eq!(caption, "My title");
        }
        _ => panic!("the first send must be the video"),
    }
    match &out[1] {
        Outbound::Audio { url } => assert_eq!(url, "https://cdn.example/a.mp3"),
        _ => panic!("the second send must be the audio track"),
    }

    // the counter became one
    let after = store.get_user(7).unwrap();
    assert_eq!(after.requests_amount, 1);
    assert_eq!(after.timestamp, now + 5);
}

#[test]
fn scenario_non_matching_text_earns_one_notice_and_no_resolution() {
    let mut store = Store::new();
    let now = 10 * DAY_MS;
    existing_user(&mut store, 7, now - DAY_MS);
    let plan = handle_message(&mut store, &message("hello", 7), now);
    let (chat_id, notices) = match plan {
        Plan::Inform { chat_id, notices } => (chat_id, notices),
        _ => panic!("plain text must only inform"),
    };
    assert_eq!(chat_id, 100);
    assert_eq!(notices, vec![HELP_EN]);
    // no store mutation beyond routine sync
    let u = store.get_user(7).unwrap();
    assert_eq!(u.requests_amount, 0);
    assert_eq!(u.chat_id, Some(100));
    assert_eq!(u.name, "Ann");
    assert_eq!(u.timestamp, now - DAY_MS);
}

#[test]
fn scenario_a_photo_response_is_delivered_as_a_group() {
    let mut store = Store::new();
    existing_user(&mut store, 7, 0);
    let body = "{\"data\":{\"images\":[\"a.jpg\",\"b.jpg\"],\"play\":\"v.mp4\",\"title\":\"t\"}}";
    let lang = String::from("en");
    let out = handle_resolution(&mut store, 7, &lang, body, 50);
    assert_eq!(out.len(), 2);
    match &out[0] {
        Outbound::PhotoGroup { urls, caption } => {
            assert_eq!(urls, &vec!["a.jpg".to_string(), "b.jpg".to_string()]);
            assert_eq!(caption, "t");
        }
        _ => panic!("images must be delivered as a photo group"),
    }
    assert!(matches!(&out[1], Outbound::Audio { .. }));
}

#[test]
fn scenario_a_long_absent_user_is_welcomed_back_before_processing() {
    let mut store = Store::new();
    let now = 10 * DAY_MS;
    existing_user(&mut store, 7, now - 4 * DAY_MS);
    let plan = handle_message(&mut store, &message("https://vm.tiktok.com/ZMabc123/", 7), now);
    let notices = match plan {
        Plan::Resolve { notices, .. } => notices,
        _ => panic!("a link must lead to a resolution"),
    };
    assert_eq!(notices, vec![WELCOME_BACK_EN, PROCESSING_EN]);
}

#[test]
fn a_failed_resolution_earns_the_failure_notice_and_no_delivery() {
    let mut store = Store::new();
    existing_user(&mut store, 7, 0);
    let lang = String::from("en");
    let out = handle_resolution(&mut store, 7, &lang, "not json", 50);
    assert_eq!(out.len(), 1);
    match &out[0] {
        Outbound::Message { text } => assert_eq!(
            text,
            "<b>❌ Download failed!</b>\n\nReason: <code>Failed to parse JSON response</code>\n\nPlease try again later! 🎬"
        ),
        _ => panic!("a failure earns a notice, not a delivery"),
    }
    assert_eq!(store.get_user(7).unwrap().requests_amount, 0);
}

#[test]
fn invalid_updates_are_skipped_silently() {
    let mut store = Store::new();
    let now = 100;
    let no_text = Inbound {
        text: None,
        chat_id: Some(1),
        from: message("x", 1).from,
        is_topic_message: false,
    };
    assert!(matches!(handle_message(&mut store, &no_text, now), Plan::Skip));
    let empty_text = Inbound { text: Some(String::new()), ..message("x", 1) };
    assert!(matches!(handle_message(&mut store, &empty_text, now), Plan::Skip));
    let no_chat = Inbound { chat_id: None, ..message("x", 1) };
    assert!(matches!(handle_message(&mut store, &no_chat, now), Plan::Skip));
    let no_sender = Inbound { from: None, ..message("x", 1) };
    assert!(matches!(handle_message(&mut store, &no_sender, now), Plan::Skip));
    let topic = Inbound { is_topic_message: true, ..message("x", 1) };
    assert!(matches!(handle_message(&mut store, &topic, now), Plan::Skip));
    // none of them filed a user
    assert!(!store.has_user(1));
}

#[test]
fn sync_creates_with_an_unset_counter_and_backfills_the_chat_id() {
    let mut store = Store::new();
    let name = String::from("Ann");
    let outcome = sync_user(&mut store, 7, 100, &name, 1_000);
    assert!(outcome.created);
    assert!(!outcome.long_absent);
    let u = store.get_user(7).unwrap();
    assert_eq!(u.requests_amount, 0);
    assert_eq!(u.chat_id, Some(100));

    // null the chat id, then sync again with a new name
    let replaced = User { chat_id: None, ..u };
    assert!(store.update_user(replaced).is_ok());
    let renamed = String::from("Anna");
    let outcome2 = sync_user(&mut store, 7, 200, &renamed, 2_000);
    assert!(!outcome2.created);
    let u2 = store.get_user(7).unwrap();
    assert_eq!(u2.name, "Anna");
    assert_eq!(u2.chat_id, Some(200));
    // an already known chat id is kept
    let outcome3 = sync_user(&mut store, 7, 300, &renamed, 3_000);
    assert!(!outcome3.created);
    assert_eq!(store.get_user(7).unwrap().chat_id, Some(200));
}

#[test]
fn the_welcome_back_threshold_is_three_whole_days() {
    let mut store = Store::new();
    let now = 100 * DAY_MS;
    existing_user(&mut store, 7, now - 3 * DAY_MS);
    let name = String::from("Ann");
    assert!(sync_user(&mut store, 7, 100, &name, now).long_absent);

    let mut store2 = Store::new();
    existing_user(&mut store2, 8, now - 3 * DAY_MS + 1);
    assert!(!sync_user(&mut store2, 8, 100, &name, now).long_absent);
}

#[test]
fn titles_beyond_the_cap_are_cut_to_exactly_the_cap() {
    let long: String = "a".repeat(2000);
    let cut = cut_text(long.clone(), 1024);
    assert_eq!(cut.len(), 1024);
    assert_eq!(cut, long[..1024]);

    let short: String = "b".repeat(1000);
    assert_eq!(cut_text(short.clone(), 1024), short);

    let exact: String = "c".repeat(1024);
    assert_eq!(cut_text(exact.clone(), 1024), exact);
}

#[test]
fn a_long_title_is_capped_in_the_delivered_caption() {
    let mut store = Store::new();
    existing_user(&mut store, 7, 0);
    let title = "t".repeat(2000);
    let body = format!(
        "{{\"data\":{{\"play\":\"v.mp4\",\"title\":\"{}\"}}}}",
        title
    );
    let lang = String::from("en");
    let out = handle_resolution(&mut store, 7, &lang, &body, 50);
    match &out[0] {
        Outbound::Video { caption, .. } => {
            assert_eq!(caption.len(), 1024);
            assert_eq!(caption, &title[..1024]);
        }
        _ => panic!("the body carries a playable URL"),
    }
}

#[test]
fn the_alternate_locale_set_is_exactly_the_ten_codes() {
    for code in ["ru", "rs", "ua", "by", "kz", "md", "sk", "si", "lv", "ee"] {
        assert!(is_alternate_locale(&code.to_string()), "{} must be alternate", code);
    }
    for code in ["en", "de", "fr", "", "ru-RU", "RU"] {
        assert!(!is_alternate_locale(&code.to_string()), "{} must be default", code);
    }
}

#[test]
fn notices_are_rendered_for_the_locale() {
    let ru = String::from("ru");
    let en = String::from("en");
    assert_eq!(localized("default", "alternate", &ru), "alternate");
    assert_eq!(localized("default", "alternate", &en), "default");
    assert_eq!(processing_text(&ru), PROCESSING_RU);
    assert_eq!(processing_text(&en), PROCESSING_EN);
    assert_eq!(help_text(&en), HELP_EN);
    assert_eq!(welcome_text(&en), WELCOME_EN);
    assert_eq!(welcome_back_text(&en), WELCOME_BACK_EN);
    assert_eq!(
        failure_text(&en, "Failed to send request"),
        "<b>❌ Download failed!</b>\n\nReason: <code>Failed to send request</code>\n\nPlease try again later! 🎬"
    );
}

#[test]
fn a_russian_locale_user_gets_the_alternate_processing_notice() {
    let mut store = Store::new();
    let msg = Inbound {
        text: Some(String::from("vm.tiktok.com/x")),
        chat_id: Some(5),
        from: Some(Sender {
            id: 9,
            first_name: String::from("Иван"),
            language_code: Some(String::from("ru")),
        }),
        is_topic_message: false,
    };
    let plan = handle_message(&mut store, &msg, 1_000);
    let notices = match plan {
        Plan::Resolve { notices, .. } => notices,
        _ => panic!("a link must lead to a resolution"),
    };
    assert_eq!(notices.len(), 2);
    assert_eq!(notices[1], PROCESSING_RU);
}

#[test]
fn a_sender_without_a_locale_gets_the_default_rendering() {
    let mut store = Store::new();
    let msg = Inbound {
        text: Some(String::from("hello")),
        chat_id: Some(5),
        from: Some(Sender {
            id: 9,
            first_name: String::from("Ann"),
            language_code: None,
        }),
        is_topic_message: false,
    };
    let plan = handle_message(&mut store, &msg, 1_000);
    let notices = match plan {
        Plan::Inform { notices, .. } => notices,
        _ => panic!("plain text must only inform"),
    };
    // a new user: welcome first, then the help notice, both in the default rendering
    assert_eq!(notices, vec![WELCOME_EN, HELP_EN]);
}
