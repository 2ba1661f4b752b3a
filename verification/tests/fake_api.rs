use hackernews_tim::fake::{FakeCall, FakeHnApi, HnApi};
use hackernews_tim::model::{Story, StoryNumericFilters, StorySortMode, VoteDirection};

fn story(id: u32, title: &str) -> Story {
    Story {
        id,
        url: format!("https://example.com/{id}"),
        author: "alice".into(),
        points: 10,
        num_comments: 0,
        time: 0,
        title: title.into(),
        content: String::new(),
        dead: false,
        flagged: false,
    }
}

#[test]
fn unstubbed_calls_return_empty_and_record_the_call() {
    let mut fake = FakeHnApi::new();

    let stories = fake
        .get_stories_by_tag(
            "front_page",
            StorySortMode::Unsorted,
            0,
            StoryNumericFilters::default(),
        )
        .unwrap();

    assert!(stories.is_empty());
    assert_eq!(fake.call_count(), 1);
    assert!(matches!(
        fake.calls()[0],
        FakeCall::GetStoriesByTag(ref tag, StorySortMode::Unsorted, 0, _) if tag == "front_page"
    ));
}

#[test]
fn stubbed_stories_are_returned_for_their_tag() {
    let mut fake = FakeHnApi::new();
    fake.set_stories_for_tag("front_page", vec![story(1, "hi"), story(2, "bye")]);

    let result = fake
        .get_stories_by_tag(
            "front_page",
            StorySortMode::Unsorted,
            0,
            StoryNumericFilters::default(),
        )
        .unwrap();

    assert_eq!(result.len(), 2);
    assert_eq!(result[0].id, 1);
    assert_eq!(result[1].title, "bye");
}

#[test]
fn other_tags_get_empty_response_independently() {
    let mut fake = FakeHnApi::new();
    fake.set_stories_for_tag("front_page", vec![story(1, "hi")]);

    let result = fake
        .get_stories_by_tag(
            "ask_hn",
            StorySortMode::Unsorted,
            0,
            StoryNumericFilters::default(),
        )
        .unwrap();

    assert!(result.is_empty());
}

#[test]
fn login_records_credentials_and_honours_failure_flag() {
    let mut fake = FakeHnApi::new();
    assert!(fake.login("alice", "hunter2").is_ok());

    fake.fail_login();
    let err = fake.login("alice", "wrong").unwrap_err();
    assert!(err.to_string().contains("login failed"));
    assert_eq!(fake.call_count(), 2);
    assert!(matches!(
        fake.calls()[1],
        FakeCall::Login(ref u, ref p) if u == "alice" && p == "wrong"
    ));
}

#[test]
fn vote_records_direction_and_returns_failure_when_flagged() {
    let mut fake = FakeHnApi::new();
    assert!(fake.vote(123, "auth-token", Some(VoteDirection::Up)).is_ok());
    fake.fail_vote();
    assert!(fake.vote(123, "auth-token", None).is_err());

    let calls = fake.calls();
    assert!(matches!(
        calls[0],
        FakeCall::Vote(123, ref a, Some(VoteDirection::Up)) if a == "auth-token"
    ));
    assert!(matches!(calls[1], FakeCall::Vote(123, _, None)));
}

#[test]
fn dyn_dispatch_through_hn_api_trait_works() {
    let mut fake = FakeHnApi::new();
    fake.set_session_cookie(Some("user=alice&...".into()));

    {
        let api: &mut dyn HnApi = &mut fake;
        assert_eq!(api.current_session_cookie().as_deref(), Some("user=alice&..."));
    }
    assert!(matches!(fake.calls()[0], FakeCall::CurrentSessionCookie));
}
