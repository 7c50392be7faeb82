use headlines::articles::{build_cards, make_card, placeholder, NewsCardData, RawArticle};
use headlines::channel::deliver_cards;
use headlines::headlines::{Headlines, HeadlinesConfig, KEY_LEN};

fn raw(title: &str, desc: Option<&str>, url: &str) -> RawArticle {
    RawArticle {
        title: title.to_string(),
        desc: desc.map(|d| d.to_string()),
        url: url.to_string(),
    }
}

fn key32() -> String {
    "A".repeat(32)
}

fn ready_reader() -> Headlines {
    let mut h = Headlines::new();
    h.set_api_key(key32());
    assert!(h.confirm_api_key());
    h
}

fn drain(h: &mut Headlines, polls: usize) {
    for _ in 0..polls {
        h.preload_articles();
    }
}

fn titles(cards: &[NewsCardData]) -> Vec<String> {
    cards.iter().map(|c| c.title.clone()).collect()
}

#[test]
fn new_reader_is_blank() {
    let h = Headlines::new();
    assert!(h.articles.is_empty());
    assert!(!h.api_key_initialized);
    assert!(!h.data_is_set);
    assert!(!h.initial_is_set);
    assert!(h.news_rx.is_none());
    assert!(h.fetch_error.is_none());
    assert!(!h.config.dark_mode);
    assert_eq!(h.config.api_key, "");
}

#[test]
fn default_config_is_light_and_keyless() {
    let c = HeadlinesConfig::default();
    assert!(!c.dark_mode);
    assert_eq!(c.api_key, "");
}

#[test]
fn key_length_constant_is_32() {
    assert_eq!(KEY_LEN, 32);
}

#[test]
fn missing_description_becomes_placeholder() {
    let c = make_card(raw("t", None, "u"));
    assert_eq!(c.desc, "...");
    assert_eq!(c.desc, placeholder());
    assert_eq!(c.title, "t");
    assert_eq!(c.url, "u");
}

#[test]
fn present_description_is_kept() {
    let c = make_card(raw("t", Some("d"), "u"));
    assert_eq!(c.desc, "d");
}

#[test]
fn build_cards_keeps_count_and_order() {
    let items = vec![
        raw("one", Some("d1"), "u1"),
        raw("two", None, "u2"),
        raw("three", Some("d3"), "u3"),
    ];
    let cards = build_cards(&items);
    assert_eq!(cards.len(), 3);
    assert_eq!(titles(&cards), vec!["one", "two", "three"]);
    assert_eq!(cards[0].desc, "d1");
    assert_eq!(cards[1].desc, "...");
    assert_eq!(cards[2].desc, "d3");
}

#[test]
fn short_key_is_not_confirmed_and_starts_no_fetch() {
    let mut h = Headlines::new();
    h.set_api_key("A".repeat(31));
    assert!(!h.confirm_api_key());
    assert!(!h.api_key_initialized);
    assert!(h.load_data().is_none());
    assert!(h.refresh_data().is_none());
    assert!(h.news_rx.is_none());
    assert!(!h.data_is_set);
}

#[test]
fn long_key_is_not_confirmed_and_starts_no_fetch() {
    let mut h = Headlines::new();
    h.set_api_key("A".repeat(33));
    assert!(!h.confirm_api_key());
    assert!(h.load_data().is_none());
    assert!(h.refresh_data().is_none());
    assert!(h.news_rx.is_none());
}

#[test]
fn exact_key_is_confirmed() {
    let mut h = Headlines::new();
    h.set_api_key(key32());
    assert!(h.confirm_api_key());
    assert!(h.api_key_initialized);
    let job = h.load_data();
    assert!(job.is_some());
    assert_eq!(job.unwrap().api_key, key32());
    assert!(h.news_rx.is_some());
    assert!(h.data_is_set);
}

#[test]
fn load_data_runs_at_most_once_per_refresh() {
    let mut h = ready_reader();
    assert!(h.load_data().is_some());
    assert!(h.load_data().is_none());
    assert!(h.refresh_data().is_some());
}

#[test]
fn three_records_with_one_placeholder() {
    let mut h = ready_reader();
    let job = h.refresh_data().unwrap();
    let items = vec![
        raw("first", Some("d1"), "u1"),
        raw("second", Some("d2"), "u2"),
        raw("third", None, "u3"),
    ];
    assert_eq!(deliver_cards(&job.sender, &items), 3);
    drop(job);
    drain(&mut h, 5);
    assert_eq!(h.articles.len(), 3);
    assert_eq!(titles(&h.articles), vec!["first", "second", "third"]);
    assert_eq!(h.articles[2].desc, "...");
    assert!(h.news_rx.is_none());
}

#[test]
fn every_delivered_record_arrives_in_order() {
    let mut h = ready_reader();
    let job = h.refresh_data().unwrap();
    h.preload_articles();
    assert!(h.articles.is_empty());
    let items: Vec<RawArticle> = (0..5)
        .map(|i| raw(&format!("title {i}"), Some(&format!("desc {i}")), &format!("url {i}")))
        .collect();
    assert_eq!(deliver_cards(&job.sender, &items), 5);
    drop(job);
    drain(&mut h, 8);
    assert_eq!(h.articles.len(), 5);
    for (i, card) in h.articles.iter().enumerate() {
        assert_eq!(card.title, format!("title {i}"));
        assert_eq!(card.desc, format!("desc {i}"));
        assert_eq!(card.url, format!("url {i}"));
    }
}

#[test]
fn empty_response_leaves_list_empty_and_ends_session() {
    let mut h = ready_reader();
    let job = h.refresh_data().unwrap();
    let items: Vec<RawArticle> = vec![];
    assert_eq!(deliver_cards(&job.sender, &items), 0);
    drop(job);
    drain(&mut h, 3);
    assert!(h.articles.is_empty());
    assert!(h.news_rx.is_none());
}

#[test]
fn polling_after_closure_changes_nothing() {
    let mut h = ready_reader();
    let job = h.refresh_data().unwrap();
    assert_eq!(deliver_cards(&job.sender, &vec![raw("only", None, "u")]), 1);
    drop(job);
    drain(&mut h, 4);
    assert!(h.news_rx.is_none());
    assert_eq!(h.articles.len(), 1);
    drain(&mut h, 3);
    assert_eq!(h.articles.len(), 1);
    assert!(h.news_rx.is_none());
}

#[test]
fn refresh_discards_the_old_session() {
    let mut h = ready_reader();
    let old_job = h.refresh_data().unwrap();
    let old_items = vec![raw("stale one", Some("old"), "u1"), raw("stale two", None, "u2")];
    assert_eq!(deliver_cards(&old_job.sender, &old_items), 2);
    let new_job = h.refresh_data().unwrap();
    assert!(h.articles.is_empty());
    assert_eq!(deliver_cards(&old_job.sender, &old_items), 0);
    let new_items = vec![raw("fresh", Some("new"), "u3")];
    assert_eq!(deliver_cards(&new_job.sender, &new_items), 1);
    drop(old_job);
    drop(new_job);
    drain(&mut h, 5);
    assert_eq!(titles(&h.articles), vec!["fresh"]);
    assert!(h.articles.iter().all(|c| !c.title.starts_with("stale")));
}

#[test]
fn frame_tick_starts_the_first_fetch_once() {
    let mut h = ready_reader();
    let job = h.frame_tick();
    assert!(job.is_some());
    assert_eq!(job.unwrap().api_key, key32());
    assert!(h.initial_is_set);
    assert!(h.frame_tick().is_none());
}

#[test]
fn frame_tick_without_confirmed_key_is_idle() {
    let mut h = Headlines::new();
    h.set_api_key(key32());
    assert!(h.frame_tick().is_none());
    assert!(h.news_rx.is_none());
    assert!(!h.initial_is_set);
}

#[test]
fn frame_tick_drains_the_session() {
    let mut h = ready_reader();
    let job = h.frame_tick().unwrap();
    assert_eq!(deliver_cards(&job.sender, &vec![raw("a", None, "u")]), 1);
    drop(job);
    for _ in 0..4 {
        h.frame_tick();
    }
    assert_eq!(h.articles.len(), 1);
    assert!(h.news_rx.is_none());
}

#[test]
fn failed_fetch_is_surfaced_and_cleared_by_refresh() {
    let mut h = ready_reader();
    let job = h.refresh_data().unwrap();
    drop(job);
    h.fetch_failed("network down".to_string());
    assert!(h.news_rx.is_none());
    assert_eq!(h.fetch_error.as_deref(), Some("network down"));
    let job = h.refresh_data().unwrap();
    assert!(h.fetch_error.is_none());
    drop(job);
}

#[test]
fn toggle_dark_mode_flips_the_scheme() {
    let mut h = Headlines::new();
    assert!(!h.config.dark_mode);
    h.toggle_dark_mode();
    assert!(h.config.dark_mode);
    h.toggle_dark_mode();
    assert!(!h.config.dark_mode);
}
