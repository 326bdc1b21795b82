use monkebot::errors::Error;
use monkebot::events::compose_reply;
use monkebot::events::Events;
use monkebot::logger::Level;
use monkebot::logger::Log;
use monkebot::logger::Logger;
use monkebot::message::hex6_string;
use monkebot::message::Message;
use monkebot::message::PartialMember;
use monkebot::message::User;
use monkebot::random::WeightVec;
use monkebot::search::str_contains;
use monkebot::search::str_eq;
use monkebot::search::Search;
use monkebot::stored::Kind;
use monkebot::stored::Stored;

fn plain_user() -> User {
    User {
        bot: false,
        tag: "user#0001".to_string(),
        face: "avatar-id".to_string(),
        accent_colour: None,
    }
}

fn msg(text: &str) -> Message {
    Message {
        content: text.to_string(),
        author: plain_user(),
        member: None,
    }
}

fn quiet_events() -> Events {
    Events::new(Logger::new(true, false))
}

#[test]
fn contains_case_insensitive() {
    assert!(str_contains("CaT", "cat", true, false));
    assert!(!str_contains("Cat", "cat", false, false));
}

#[test]
fn contains_skip_spaces() {
    assert!(str_contains("c a t", "cat", true, true));
    assert!(str_contains("c a t", "cat", false, true));
    assert!(str_contains("c\ta\nt\r", "cat", false, true));
}

#[test]
fn contains_is_not_anchored() {
    assert!(str_contains("concatenate", "cat", false, false));
    assert!(!str_contains("dog", "cat", true, true));
    assert!(str_contains("anything", "", false, false));
}

#[test]
fn str_eq_by_characters() {
    assert!(str_eq("banane", "banane"));
    assert!(!str_eq("banane", "banana"));
    assert!(!str_eq("ba", "banana"));
}

#[test]
fn draw_returns_member_of_pool() {
    let pool = WeightVec(vec![(1u64, 1), (2u64, 2), (3u64, 3)]);
    for _ in 0..200 {
        let drawn = *pool.get().expect("positive total weight");
        assert!(drawn == 1 || drawn == 2 || drawn == 3);
    }
}

#[test]
fn draw_on_empty_pool_is_none() {
    let pool: WeightVec<char> = WeightVec(vec![]);
    assert!(pool.get().is_none());
}

#[test]
fn draw_on_zero_weights_is_none() {
    let pool = WeightVec(vec![('a', 0), ('b', 0)]);
    assert!(pool.get().is_none());
}

#[test]
fn pick_index_follows_cumulative_weights() {
    let pool = WeightVec(vec![(10u64, 1), (20u64, 2), (30u64, 3)]);
    assert_eq!(pool.total(), 6);
    assert_eq!(pool.pick_index(0), Some(0));
    assert_eq!(pool.pick_index(1), Some(0));
    assert_eq!(pool.pick_index(2), Some(1));
    assert_eq!(pool.pick_index(3), Some(1));
    assert_eq!(pool.pick_index(4), Some(2));
    assert_eq!(pool.pick_index(5), Some(2));
    assert_eq!(pool.pick_index(6), Some(2));
    assert_eq!(pool.pick_index(7), None);
}

#[test]
fn pick_index_frequencies_match_weights() {
    // Deterministic counterpart of frequency convergence: over every draw
    // value in the closed range, the number of values selecting an item is
    // its weight (plus the shared zero boundary on the first item).
    let pool = WeightVec(vec![('x', 2), ('y', 4)]);
    let mut counts = [0usize; 2];
    let total = pool.total();
    for draw in 0..=total {
        let i = pool.pick_index(draw).expect("draw within total");
        counts[i] += 1;
    }
    assert_eq!(counts, [3, 4]);
}

#[test]
fn find_first_match_picks_first_matching_trigger() {
    let targets = vec!["foo".to_string(), "bar".to_string()];
    let m = msg("there is a bar here");
    assert_eq!(m.search(&targets, true, true), Some("bar".to_string()));
    let none = msg("nothing of note");
    assert_eq!(none.search(&targets, true, true), None);
}

#[test]
fn search_matches_nickname_facet() {
    let mut m = msg("plain text");
    m.member = Some(PartialMember {
        user: None,
        nick: Some("CoolCat".to_string()),
    });
    assert!(m.search_contains("coolcat", true, false));
    assert!(!m.search_contains("coolcat", false, false));
}

#[test]
fn search_matches_accent_colour_facet() {
    let mut m = msg("plain text");
    m.author.accent_colour = Some(0x00FF_AA00);
    assert!(m.search_contains("ffaa00", true, false));
    assert!(!m.search_contains("123456", true, false));
}

#[test]
fn hex_spelling_of_colour() {
    assert_eq!(hex6_string(0x00AB_C1u32), "00ABC1".to_string());
    assert_eq!(hex6_string(0xFF_FFFFu32), "FFFFFF".to_string());
    assert_eq!(hex6_string(0), "000000".to_string());
}

#[test]
fn react_pipeline_end_to_end() {
    let events = quiet_events();
    let triggers = Stored::new(
        "react".to_string(),
        "triggers".to_string(),
        Kind::Ron,
        vec!["banana".to_string()],
    );
    let responses = Stored::new(
        "react".to_string(),
        "responses".to_string(),
        Kind::Ron,
        WeightVec(vec![('🍌', 1)]),
    );
    let m = msg("I love bananas");
    let r = events.search_react(&m, &triggers, &responses);
    assert_eq!(r, Ok(Some(("banana".to_string(), '🍌'))));
}

#[test]
fn reply_pipeline_end_to_end() {
    let events = quiet_events();
    let triggers = Stored::new(
        "reply".to_string(),
        "triggers".to_string(),
        Kind::Ron,
        vec!["banana".to_string()],
    );
    let responses = Stored::new(
        "reply".to_string(),
        "responses".to_string(),
        Kind::Ron,
        WeightVec(vec![(("Have a banana!".to_string(), Some('🍌')), 1)]),
    );
    let m = msg("I love bananas");
    let r = events.search_reply(&m, &triggers, &responses);
    assert_eq!(
        r,
        Ok(Some(("banana".to_string(), "🍌 Have a banana! 🍌".to_string())))
    );
}

#[test]
fn react_pipeline_reports_empty_pool() {
    let events = quiet_events();
    let triggers = Stored::new(
        "react".to_string(),
        "triggers".to_string(),
        Kind::Ron,
        vec!["banana".to_string()],
    );
    let responses = Stored::new(
        "react".to_string(),
        "responses".to_string(),
        Kind::Ron,
        WeightVec(vec![('x', 0)]),
    );
    let r = events.search_react(&msg("banana"), &triggers, &responses);
    assert_eq!(r, Err(Error::EmptyPool));
}

#[test]
fn react_pipeline_skips_bot_authors() {
    let events = quiet_events();
    let triggers = Stored::new(
        "react".to_string(),
        "triggers".to_string(),
        Kind::Ron,
        vec!["banana".to_string()],
    );
    let responses = Stored::new(
        "react".to_string(),
        "responses".to_string(),
        Kind::Ron,
        WeightVec(vec![('🍌', 1)]),
    );
    let mut m = msg("banana");
    m.author.bot = true;
    assert_eq!(events.search_react(&m, &triggers, &responses), Ok(None));
}

#[test]
fn react_pipeline_without_match_is_silent() {
    let events = quiet_events();
    let triggers = Stored::new(
        "react".to_string(),
        "triggers".to_string(),
        Kind::Ron,
        vec!["banana".to_string()],
    );
    let responses = Stored::new(
        "react".to_string(),
        "responses".to_string(),
        Kind::Ron,
        WeightVec(vec![('🍌', 1)]),
    );
    assert_eq!(
        events.search_react(&msg("apples only"), &triggers, &responses),
        Ok(None)
    );
}

#[test]
fn compose_reply_wraps_text_in_emoji() {
    assert_eq!(
        compose_reply("Have a banana!", Some('🍌')),
        "🍌 Have a banana! 🍌".to_string()
    );
}

#[test]
fn compose_reply_without_emoji_trims() {
    assert_eq!(compose_reply("hello", None), "hello".to_string());
    assert_eq!(compose_reply("  hello  ", None), "hello".to_string());
    assert_eq!(compose_reply("", None), "".to_string());
}

#[test]
fn compose_reply_trims_unicode_whitespace() {
    assert_eq!(
        compose_reply("\u{b}hi\u{3000}", None),
        "hi".to_string()
    );
    assert_eq!(
        compose_reply("\u{a0}\u{2028}spaced\u{205f}", None),
        "spaced".to_string()
    );
}

#[test]
fn logger_produces_leveled_entries() {
    let logger = Logger::new(false, false);
    let entry = logger.warn("look out".to_string()).expect("not quiet");
    assert_eq!(entry.level, Level::Warn);
    assert_eq!(entry.text, "look out".to_string());
    let info = logger.info("fine".to_string()).expect("not quiet");
    assert_eq!(info.level, Level::Info);
    let err = logger.error("bad".to_string()).expect("not quiet");
    assert_eq!(err.level, Level::Error);
}

#[test]
fn quiet_logger_suppresses_entries() {
    let logger = Logger::new(true, false);
    assert!(logger.info("dropped".to_string()).is_none());
    let events = Events::new(logger);
    assert!(events.warn("dropped too".to_string()).is_none());
}

#[test]
fn log_line_layout() {
    let log = Log {
        time: "01/02/26 03:04:05".to_string(),
        level: Level::Warn,
        text: "boom".to_string(),
    };
    assert_eq!(log.line(), "[01/02/26 03:04:05] (Warn) boom".to_string());
    assert_eq!(Level::Info.label(), "Info".to_string());
    assert_eq!(Level::Error.label(), "Error".to_string());
}

#[test]
fn logger_file_name_and_path() {
    let logger = Logger::new(false, true);
    assert!(logger.file.ends_with(".txt"));
    assert_eq!(logger.path(), format!("logs/{}", logger.file));
}
