use hackernews_tim::model::{StorySortMode, UserInfo};
use hackernews_tim::nav::{
    build_user_info_text, construct_story_view_top_bar, construct_view_title_bar,
    construct_view_title_bar_with_nav, nav_strip_styled, open_ith_link_in_article_view,
    open_ith_link_in_browser, story_tags, LinkAction, NavTarget, SpanStyle, StyledSpan,
};

fn text(spans: &[StyledSpan]) -> String {
    spans.iter().map(|s| s.text.as_str()).collect()
}

fn active(spans: &[StyledSpan]) -> Vec<&str> {
    spans
        .iter()
        .filter(|s| s.style == SpanStyle::Active)
        .map(|s| s.text.as_str())
        .collect()
}

#[test]
fn nav_strip_text_and_highlight() {
    let plain = nav_strip_styled(NavTarget::NoTarget, "");
    assert_eq!(
        text(&plain),
        "[Y] Hacker News | 1.front_page | 2.story | 3.ask_hn | 4.show_hn | 5.job | 6.threads | search (^S) | "
    );
    assert_eq!(plain.len(), 17);
    assert!(active(&plain).is_empty());
    assert_eq!(plain[0].style, SpanStyle::Logo);

    let ask = nav_strip_styled(NavTarget::StoryTag("ask_hn"), " (by_point)");
    assert_eq!(active(&ask), vec!["3.ask_hn (by_point)"]);
    assert!(!text(&ask).contains("front_page (by_point)"));

    assert_eq!(active(&nav_strip_styled(NavTarget::MyThreads, "x")), vec!["6.threads"]);
    assert_eq!(active(&nav_strip_styled(NavTarget::Search, "")), vec!["search (^S)"]);
    assert!(active(&nav_strip_styled(NavTarget::StoryTag("jobs"), "")).is_empty());
    assert_eq!(story_tags(), vec!["front_page", "story", "ask_hn", "show_hn", "job"]);
}

#[test]
fn story_view_top_bar_shows_sort_mode_on_active_tag() {
    let bar = construct_story_view_top_bar("show_hn", StorySortMode::Date, &None);
    assert_eq!(active(&bar.nav), vec!["4.show_hn (by_date)"]);
    assert!(bar.user_info.is_empty());
    assert!(bar.description.is_none());
    let bar = construct_story_view_top_bar("front_page", StorySortMode::Unsorted, &None);
    assert_eq!(active(&bar.nav), vec!["1.front_page"]);
}

#[test]
fn title_bars_and_user_badge() {
    let user = Some(UserInfo { username: "alice".into(), karma: Some(42) });
    let bar = construct_view_title_bar("Comment View - hello", &user);
    assert_eq!(bar.description.as_deref(), Some("Comment View - hello"));
    assert_eq!(text(&bar.user_info), " alice (42) ");
    assert!(active(&bar.nav).is_empty());
    let bar = construct_view_title_bar_with_nav("Search View", NavTarget::Search, &None);
    assert_eq!(active(&bar.nav), vec!["search (^S)"]);

    let no_karma = Some(UserInfo { username: "bob".into(), karma: None });
    let badge = build_user_info_text(&no_karma, SpanStyle::TitleBar);
    assert_eq!(text(&badge), " bob ");
    assert!(build_user_info_text(&None, SpanStyle::TitleBar).is_empty());
}

#[test]
fn numbered_links_open_only_in_range() {
    let links = vec!["https://a.example".to_string(), "https://b.example".to_string()];
    assert!(matches!(open_ith_link_in_browser(&links, 0), Some(LinkAction::Consumed)));
    assert!(matches!(open_ith_link_in_browser(&links, 3), Some(LinkAction::Consumed)));
    assert!(matches!(open_ith_link_in_browser(&links, 2),
        Some(LinkAction::OpenInBrowser(ref u)) if u == "https://b.example"));
    assert!(matches!(open_ith_link_in_article_view(&links, 1),
        Some(LinkAction::OpenInArticleView(ref u)) if u == "https://a.example"));
    assert!(matches!(open_ith_link_in_article_view(&[], 1), Some(LinkAction::Consumed)));
}
