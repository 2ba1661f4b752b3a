use hackernews_tim::config::{
    clamp_page_size, clamp_search_page_size, page_size, search_page_size, Command, Config, HostOs,
    DEFAULT_PAGE_SIZE, DEFAULT_SEARCH_PAGE_SIZE, MAX_PAGE_SIZE, MAX_SEARCH_PAGE_SIZE,
    MIN_PAGE_SIZE, MIN_SEARCH_PAGE_SIZE,
};
use hackernews_tim::text::decimal_string;

#[test]
fn page_sizes_are_clamped_into_range() {
    assert_eq!(clamp_page_size(0), MIN_PAGE_SIZE);
    assert_eq!(clamp_page_size(5), 5);
    assert_eq!(clamp_page_size(50), 50);
    assert_eq!(clamp_page_size(1000), MAX_PAGE_SIZE);
    assert_eq!(clamp_search_page_size(3), MIN_SEARCH_PAGE_SIZE);
    assert_eq!(clamp_search_page_size(15), 15);
    assert_eq!(clamp_search_page_size(31), MAX_SEARCH_PAGE_SIZE);
    for x in [0usize, 7, 99, 100, 101, usize::MAX] {
        assert_eq!(clamp_page_size(clamp_page_size(x)), clamp_page_size(x));
    }
}

#[test]
fn default_config_values() {
    let c = Config::default_for(HostOs::Unix);
    assert!(c.use_page_scrolling && c.use_pacman_loading && c.use_hn_topcolor);
    assert_eq!(c.client_timeout, 32);
    assert_eq!(c.page_size, DEFAULT_PAGE_SIZE as u64);
    assert_eq!(c.search_page_size, DEFAULT_SEARCH_PAGE_SIZE as u64);
    assert_eq!(c.url_open_command.command, "xdg-open");
    assert_eq!(c.article_parse_command.to_string(), "article_md --format html");
    assert_eq!(Config::default_for(HostOs::MacOs).url_open_command.command, "open");
    assert_eq!(Config::default_for(HostOs::Windows).url_open_command.command, "start");
    assert_eq!(page_size(&c), 20);
    assert_eq!(search_page_size(&c), 15);
}

#[test]
fn out_of_range_configured_sizes_are_pulled_in() {
    let mut c = Config::default_for(HostOs::Unix);
    c.page_size = 1;
    c.search_page_size = u64::MAX;
    assert_eq!(page_size(&c), MIN_PAGE_SIZE);
    assert_eq!(search_page_size(&c), MAX_SEARCH_PAGE_SIZE);
}

#[test]
fn command_display_joins_options_with_spaces() {
    let c = Command { command: "xdg-open".into(), options: vec![] };
    assert_eq!(c.to_string(), "xdg-open ");
    let c = Command { command: "open".into(), options: vec!["-a".into(), "Safari".into()] };
    assert_eq!(c.to_string(), "open -a Safari");
}

#[test]
fn decimal_rendering() {
    assert_eq!(decimal_string(0), "0");
    assert_eq!(decimal_string(7), "7");
    assert_eq!(decimal_string(10), "10");
    assert_eq!(decimal_string(1234567890), "1234567890");
    assert_eq!(decimal_string(u64::MAX), u64::MAX.to_string());
}
