use std::collections::HashMap;

use hackernews_tim::fake::{FakeCall, FakeHnApi, HnApi};
use hackernews_tim::model::{Article, PageData, StorySortMode, VoteData, VouchData};

fn page(id: u32) -> PageData {
    PageData {
        title: format!("item {id}"),
        url: format!("https://news.ycombinator.com/item?id={id}"),
        root_item_id: id,
        comment_ids: vec![id + 1, id + 2],
    }
}

#[test]
fn queued_pages_come_back_in_order_then_fail() {
    let mut fake = FakeHnApi::new();
    fake.enqueue_page_data(page(1));
    fake.enqueue_page_data(page(2));
    assert_eq!(fake.get_page_data(10).unwrap().root_item_id, 1);
    assert_eq!(fake.get_page_data(11).unwrap().root_item_id, 2);
    let err = fake.get_page_data(12).unwrap_err();
    assert_eq!(err.to_string(), "FakeHnApi: no page data queued for item 12");
    assert_eq!(fake.call_count(), 3);
    assert!(matches!(fake.calls()[2], FakeCall::GetPageData(12)));
}

#[test]
fn user_threads_queue_is_separate_and_reports_empty_queue() {
    let mut fake = FakeHnApi::new();
    fake.enqueue_page_data(page(1));
    let err = fake.get_user_threads_page("bob", 3).unwrap_err();
    assert_eq!(err.to_string(), "FakeHnApi: no user-threads page queued for bob (page 3)");
    fake.enqueue_user_threads(page(7));
    assert_eq!(fake.get_user_threads_page("bob", 0).unwrap().root_item_id, 7);
    assert_eq!(fake.get_page_data(1).unwrap().root_item_id, 1);
}

#[test]
fn listing_state_is_keyed_by_tag_sort_and_page() {
    let mut fake = FakeHnApi::new();
    let mut votes = HashMap::new();
    votes.insert(5u32, VoteData { auth: "a".into(), upvoted: true, downvoted: false });
    fake.set_listing_vote_state("story", StorySortMode::Date, 1, votes);
    let mut vouches = HashMap::new();
    vouches.insert(6u32, VouchData { auth: "v".into(), vouched: true });
    fake.set_listing_vouch_state("story", StorySortMode::Date, 1, vouches);

    let hit = fake.get_listing_vote_state("story", StorySortMode::Date, 1).unwrap();
    assert_eq!(hit.len(), 1);
    assert!(hit[&5].upvoted);
    assert!(fake.get_listing_vote_state("story", StorySortMode::Points, 1).unwrap().is_empty());
    assert!(fake.get_listing_vote_state("story", StorySortMode::Date, 2).unwrap().is_empty());
    let v = fake.get_listing_vouch_state("story", StorySortMode::Date, 1).unwrap();
    assert!(v[&6].vouched);
}

#[test]
fn later_stub_for_same_tag_replaces_earlier() {
    let mut fake = FakeHnApi::new();
    fake.set_matched_stories("rust", true, 0, vec![]);
    fake.set_article("https://a.example", Article {
        title: "first".into(),
        url: "https://a.example".into(),
        content: String::new(),
        author: None,
        date_published: None,
    });
    fake.set_article("https://a.example", Article {
        title: "second".into(),
        url: "https://a.example".into(),
        content: "body".into(),
        author: Some("carol".into()),
        date_published: None,
    });
    assert_eq!(fake.get_article("https://a.example").unwrap().title, "second");
    let empty = fake.get_article("https://b.example").unwrap();
    assert!(empty.title.is_empty() && empty.url.is_empty() && empty.content.is_empty());
    assert!(empty.author.is_none() && empty.date_published.is_none());
    assert!(matches!(fake.calls()[1], FakeCall::GetArticle(ref u) if u == "https://b.example"));
    assert!(fake.get_matched_stories("rust", true, 0).unwrap().is_empty());
    assert!(fake.get_matched_stories("rust", false, 0).unwrap().is_empty());
}

#[test]
fn item_vote_and_vouch_data_and_failure_switches() {
    let mut fake = FakeHnApi::default();
    assert!(fake.get_vote_data_for_item(1).unwrap().is_none());
    fake.set_vote_data(1, Some(VoteData { auth: "t".into(), upvoted: false, downvoted: true }));
    fake.set_vouch_data(2, None);
    assert!(fake.get_vote_data_for_item(1).unwrap().unwrap().downvoted);
    assert!(fake.get_vouch_data_for_item(2).unwrap().is_none());
    assert!(fake.vouch(2, "t", false).is_ok());
    fake.fail_vouch();
    assert_eq!(fake.vouch(2, "t", true).unwrap_err().to_string(), "FakeHnApi: vouch failed (stub)");
    assert_eq!(fake.vote(1, "t", None).is_ok(), true);
    assert_eq!(fake.current_session_cookie(), None);
    assert_eq!(fake.call_count(), 7);
}
