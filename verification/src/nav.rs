//! The text of the navigation chrome: the nav strip at the top of every
//! view, the title bars, the logged-in user badge, and the choice of link
//! to open from a numbered-link shortcut.
//!
//! Text is produced as a list of spans, each with the role that decides
//! its colours; the terminal front end turns roles into theme styles.

use vstd::prelude::*;

use crate::model::{StorySortMode, UserInfo};
use crate::text::{decimal, decimal_string, str_eq};

verus! {

/// The HN story-tag tabs of the nav strip, in F1..F5 order; the story
/// view also cycles through them.
pub open spec fn story_tags_spec() -> Seq<Seq<char>> {
    seq!["front_page"@, "story"@, "ask_hn"@, "show_hn"@, "job"@]
}

pub fn story_tags() -> (v: Vec<&'static str>)
    ensures
        v@.len() == 5,
        v@.map_values(|t: &str| t@) == story_tags_spec(),
{
    let mut v: Vec<&'static str> = Vec::new();
    v.push("front_page");
    v.push("story");
    v.push("ask_hn");
    v.push("show_hn");
    v.push("job");
    assert(v@.map_values(|t: &str| t@) =~= story_tags_spec());
    v
}

/// Which nav-strip entry a view highlights as "you are here".
#[derive(Debug, Clone, Copy)]
pub enum NavTarget {
    /// Views not anchored to an entry (article view, comment view).
    NoTarget,
    StoryTag(&'static str),
    MyThreads,
    Search,
}

/// The colour role of a span.
#[derive(Debug, Clone, Copy, PartialEq, Eq, Structural)]
pub enum SpanStyle {
    /// The title-bar style.
    TitleBar,
    /// The title-bar style with a light-white foreground (the `[Y]` mark).
    Logo,
    /// The title-bar style combined with the current-tag highlight.
    Active,
}

/// A run of text in one style.
#[derive(Debug)]
pub struct StyledSpan {
    pub text: String,
    pub style: SpanStyle,
}

pub open spec fn span_views(v: Seq<StyledSpan>) -> Seq<(Seq<char>, SpanStyle)> {
    v.map_values(|s: StyledSpan| (s.text@, s.style))
}

/// Whether `active` highlights the story tag `tag`.
pub open spec fn is_active_tag(active: NavTarget, tag: Seq<char>) -> bool {
    match active {
        NavTarget::StoryTag(t) => t@ == tag,
        _ => false,
    }
}

/// The label of the `k`-th story tag, `"{k+1}.{tag}"`, with the suffix
/// when it is the active one.
pub open spec fn tag_label(k: nat, active: NavTarget, suffix: Seq<char>) -> (Seq<char>, SpanStyle) {
    let tag = story_tags_spec()[k as int];
    let label = decimal(k + 1) + "."@ + tag;
    if is_active_tag(active, tag) {
        (label + suffix, SpanStyle::Active)
    } else {
        (label, SpanStyle::TitleBar)
    }
}

/// The spans of the first `k` story tabs, each after a separator.
pub open spec fn tag_spans(k: nat, active: NavTarget, suffix: Seq<char>) -> Seq<(Seq<char>, SpanStyle)>
    decreases k,
{
    if k == 0 {
        Seq::empty()
    } else {
        tag_spans((k - 1) as nat, active, suffix).push((" | "@, SpanStyle::TitleBar)).push(
            tag_label((k - 1) as nat, active, suffix),
        )
    }
}

pub open spec fn highlight(on: bool) -> SpanStyle {
    if on {
        SpanStyle::Active
    } else {
        SpanStyle::TitleBar
    }
}

/// The nav strip `[Y] Hacker News | 1.front_page | ... | 6.threads |
/// search (^S) | ` with the entry matching `active` highlighted; the
/// suffix is appended to the active story tab only.
pub open spec fn nav_strip(active: NavTarget, suffix: Seq<char>) -> Seq<(Seq<char>, SpanStyle)> {
    seq![("[Y]"@, SpanStyle::Logo), (" Hacker News"@, SpanStyle::TitleBar)] + tag_spans(
        5,
        active,
        suffix,
    ) + seq![
        (" | "@, SpanStyle::TitleBar),
        ("6.threads"@, highlight(active is MyThreads)),
        (" | "@, SpanStyle::TitleBar),
        ("search (^S)"@, highlight(active is Search)),
        (" | "@, SpanStyle::TitleBar),
    ]
}

fn span(text: &str, style: SpanStyle) -> (s: StyledSpan)
    ensures
        s.text@ == text@,
        s.style == style,
{
    StyledSpan { text: String::from_str(text), style }
}

fn is_active(active: NavTarget, tag: &str) -> (b: bool)
    ensures
        b == is_active_tag(active, tag@),
{
    match active {
        NavTarget::StoryTag(t) => str_eq(t, tag),
        _ => false,
    }
}

/// The global nav strip with the entry matching `active` highlighted.
/// `sort_suffix` is appended to the active story tab (the story view
/// shows the sort mode there); other callers pass an empty string.
pub fn nav_strip_styled(active: NavTarget, sort_suffix: &str) -> (r: Vec<StyledSpan>)
    ensures
        span_views(r@) == nav_strip(active, sort_suffix@),
{
    let mut out: Vec<StyledSpan> = Vec::new();
    out.push(span("[Y]", SpanStyle::Logo));
    out.push(span(" Hacker News", SpanStyle::TitleBar));
    let tags = story_tags();
    let ghost head = seq![("[Y]"@, SpanStyle::Logo), (" Hacker News"@, SpanStyle::TitleBar)];
    assert(span_views(out@) =~= head);
    let mut i: usize = 0;
    while i < 5
        invariant
            i <= 5,
            tags@.len() == 5,
            tags@.map_values(|t: &str| t@) == story_tags_spec(),
            span_views(out@) == head + tag_spans(i as nat, active, sort_suffix@),
        decreases 5 - i,
    {
        let tag = tags[i];
        assert(tag@ == story_tags_spec()[i as int]);
        let ghost before = span_views(out@);
        out.push(span(" | ", SpanStyle::TitleBar));
        let mut label = decimal_string((i + 1) as u64);
        label.append(".");
        label.append(tag);
        if is_active(active, tag) {
            label.append(sort_suffix);
            out.push(StyledSpan { text: label, style: SpanStyle::Active });
        } else {
            out.push(StyledSpan { text: label, style: SpanStyle::TitleBar });
        }
        assert(span_views(out@) =~= before.push((" | "@, SpanStyle::TitleBar)).push(
            tag_label(i as nat, active, sort_suffix@),
        ));
        i = i + 1;
    }
    out.push(span(" | ", SpanStyle::TitleBar));
    let threads = match active {
        NavTarget::MyThreads => SpanStyle::Active,
        _ => SpanStyle::TitleBar,
    };
    out.push(span("6.threads", threads));
    out.push(span(" | ", SpanStyle::TitleBar));
    let search = match active {
        NavTarget::Search => SpanStyle::Active,
        _ => SpanStyle::TitleBar,
    };
    out.push(span("search (^S)", search));
    out.push(span(" | ", SpanStyle::TitleBar));
    assert(span_views(out@) =~= nav_strip(active, sort_suffix@));
    out
}

/// The suffix the story view shows after the active tab for a sort mode.
pub open spec fn sort_suffix(mode: StorySortMode) -> Seq<char> {
    match mode {
        StorySortMode::Unsorted => ""@,
        StorySortMode::Date => " (by_date)"@,
        StorySortMode::Points => " (by_point)"@,
    }
}

pub fn sort_mode_suffix(mode: StorySortMode) -> (s: &'static str)
    ensures
        s@ == sort_suffix(mode),
{
    match mode {
        StorySortMode::Unsorted => "",
        StorySortMode::Date => " (by_date)",
        StorySortMode::Points => " (by_point)",
    }
}

/// The suffix names the sort mode: `" (by_date)"` for date order,
/// `" (by_point)"` for points order and nothing for the unsorted listing,
/// so two different sort modes never show the same suffix.
pub proof fn law_sort_suffix_names_the_mode(a: StorySortMode, b: StorySortMode)
    ensures
        sort_suffix(StorySortMode::Unsorted) == Seq::<char>::empty(),
        sort_suffix(StorySortMode::Date) == seq![' ', '(', 'b', 'y', '_', 'd', 'a', 't', 'e', ')'],
        sort_suffix(StorySortMode::Points) == seq![
            ' ',
            '(',
            'b',
            'y',
            '_',
            'p',
            'o',
            'i',
            'n',
            't',
            ')',
        ],
        sort_suffix(a) == sort_suffix(b) ==> a == b,
{
    reveal_strlit("");
    reveal_strlit(" (by_date)");
    reveal_strlit(" (by_point)");
    assert(sort_suffix(StorySortMode::Date) =~= seq![' ', '(', 'b', 'y', '_', 'd', 'a', 't', 'e', ')']);
    assert(sort_suffix(StorySortMode::Points) =~= seq![
        ' ',
        '(',
        'b',
        'y',
        '_',
        'p',
        'o',
        'i',
        'n',
        't',
        ')',
    ]);
}

/// The user badge at the right edge of a title bar: `" name (karma) "`,
/// `" name "` without karma, nothing when no user is logged in.
pub open spec fn user_badge(username: Seq<char>, karma: Option<u32>) -> Seq<char> {
    match karma {
        Some(k) => " "@ + username + " ("@ + decimal(k as nat) + ") "@,
        None => " "@ + username + " "@,
    }
}

/// The badge spans for an optional logged-in user.
pub open spec fn user_info_spans(user: Option<UserInfo>, style: SpanStyle) -> Seq<(Seq<char>, SpanStyle)> {
    match user {
        None => Seq::empty(),
        Some(info) => seq![(user_badge(info.username@, info.karma), style)],
    }
}

/// The "username (karma)" text rendered at the right edge of a title
/// bar, like the top-right corner of the HN website; empty when no user
/// is logged in.
pub fn build_user_info_text(user: &Option<UserInfo>, style: SpanStyle) -> (r: Vec<StyledSpan>)
    ensures
        span_views(r@) == user_info_spans(*user, style),
{
    let mut r: Vec<StyledSpan> = Vec::new();
    match user {
        None => {},
        Some(info) => {
            let mut text = String::from_str(" ");
            text.append(info.username.as_str());
            match info.karma {
                Some(k) => {
                    text.append(" (");
                    text.append(decimal_string(k as u64).as_str());
                    text.append(") ");
                },
                None => {
                    text.append(" ");
                },
            }
            r.push(StyledSpan { text, style });
        },
    }
    assert(span_views(r@) =~= user_info_spans(*user, style));
    r
}

/// The content of a title bar: the nav strip, the user badge at its
/// right, and, for two-row bars, the description centred below.
#[derive(Debug)]
pub struct TitleBar {
    pub nav: Vec<StyledSpan>,
    pub user_info: Vec<StyledSpan>,
    pub description: Option<String>,
}

/// The nav-strip-only top bar of the story view: the active tag carries
/// the sort-mode suffix.
pub fn construct_story_view_top_bar(
    active_tag: &'static str,
    sort_mode: StorySortMode,
    user: &Option<UserInfo>,
) -> (b: TitleBar)
    ensures
        span_views(b.nav@) == nav_strip(NavTarget::StoryTag(active_tag), sort_suffix(sort_mode)),
        span_views(b.user_info@) == user_info_spans(*user, SpanStyle::TitleBar),
        b.description is None,
{
    let suffix = sort_mode_suffix(sort_mode);
    TitleBar {
        nav: nav_strip_styled(NavTarget::StoryTag(active_tag), suffix),
        user_info: build_user_info_text(user, SpanStyle::TitleBar),
        description: None,
    }
}

/// A two-row title bar: the nav strip with `nav` highlighted above the
/// view's description.
pub fn construct_view_title_bar_with_nav(desc: &str, nav: NavTarget, user: &Option<UserInfo>) -> (b:
    TitleBar)
    ensures
        span_views(b.nav@) == nav_strip(nav, ""@),
        span_views(b.user_info@) == user_info_spans(*user, SpanStyle::TitleBar),
        b.description matches Some(d) && d@ == desc@,
{
    TitleBar {
        nav: nav_strip_styled(nav, ""),
        user_info: build_user_info_text(user, SpanStyle::TitleBar),
        description: Some(String::from_str(desc)),
    }
}

/// A two-row title bar with no nav entry highlighted.
pub fn construct_view_title_bar(desc: &str, user: &Option<UserInfo>) -> (b: TitleBar)
    ensures
        span_views(b.nav@) == nav_strip(NavTarget::NoTarget, ""@),
        span_views(b.user_info@) == user_info_spans(*user, SpanStyle::TitleBar),
        b.description matches Some(d) && d@ == desc@,
{
    construct_view_title_bar_with_nav(desc, NavTarget::NoTarget, user)
}

/// What a numbered-link shortcut does.
#[derive(Debug)]
pub enum LinkAction {
    /// Open this URL in a new article view.
    OpenInArticleView(String),
    /// Open this URL with the configured browser command.
    OpenInBrowser(String),
    /// The key is consumed and nothing happens (no such link).
    Consumed,
}

/// Open the `i`-th link (numbered from 1) in an article view; an index
/// outside `1..=links.len()` just consumes the key.
pub fn open_ith_link_in_article_view(links: &[String], i: usize) -> (r: Option<LinkAction>)
    ensures
        r matches Some(a) && (if 0 < i <= links@.len() {
            a matches LinkAction::OpenInArticleView(u) && u@ == links@[i - 1]@
        } else {
            a is Consumed
        }),
{
    if i > 0 && i <= links.len() {
        Some(LinkAction::OpenInArticleView(links[i - 1].clone()))
    } else {
        Some(LinkAction::Consumed)
    }
}

/// Open the `i`-th link (numbered from 1) in the browser; an index
/// outside `1..=links.len()` just consumes the key.
pub fn open_ith_link_in_browser(links: &[String], i: usize) -> (r: Option<LinkAction>)
    ensures
        r matches Some(a) && (if 0 < i <= links@.len() {
            a matches LinkAction::OpenInBrowser(u) && u@ == links@[i - 1]@
        } else {
            a is Consumed
        }),
{
    if i > 0 && i <= links.len() {
        Some(LinkAction::OpenInBrowser(links[i - 1].clone()))
    } else {
        Some(LinkAction::Consumed)
    }
}


/// Index of the separator before the `k`-th story tab.
pub open spec fn separator_position(k: int) -> int {
    2 + 2 * k
}

/// Index of the `k`-th story tab.
pub open spec fn tab_position(k: int) -> int {
    3 + 2 * k
}

/// The nav strip has seventeen spans: the logo, the title, a separator
/// before each of the five story tabs, the threads and search entries and
/// a closing separator. Only the entry named by `active` is highlighted
/// (the five tags are distinct, so at most one tab matches), and only the
/// active story tab carries the suffix.
pub proof fn law_nav_strip_highlights_only_active(active: NavTarget, suffix: Seq<char>)
    ensures
        nav_strip(active, suffix).len() == 17,
        nav_strip(active, suffix)[0] == ("[Y]"@, SpanStyle::Logo),
        nav_strip(active, suffix)[1] == (" Hacker News"@, SpanStyle::TitleBar),
        forall|k: int|
            0 <= k < 5 ==> nav_strip(active, suffix)[#[trigger] separator_position(k)] == (
                " | "@,
                SpanStyle::TitleBar,
            ),
        forall|k: int|
            0 <= k < 5 ==> nav_strip(active, suffix)[#[trigger] tab_position(k)] == tag_label(
                k as nat,
                active,
                suffix,
            ),
        forall|k: int|
            0 <= k < 5 ==> (#[trigger] tag_label(k as nat, active, suffix).1 == SpanStyle::Active
                <==> is_active_tag(active, story_tags_spec()[k])),
        forall|k1: int, k2: int|
            0 <= k1 < 5 && 0 <= k2 < 5 && k1 != k2 ==> !(is_active_tag(
                active,
                #[trigger] story_tags_spec()[k1],
            ) && is_active_tag(active, #[trigger] story_tags_spec()[k2])),
        nav_strip(active, suffix)[12] == (" | "@, SpanStyle::TitleBar),
        nav_strip(active, suffix)[13] == ("6.threads"@, highlight(active is MyThreads)),
        nav_strip(active, suffix)[14] == (" | "@, SpanStyle::TitleBar),
        nav_strip(active, suffix)[15] == ("search (^S)"@, highlight(active is Search)),
        nav_strip(active, suffix)[16] == (" | "@, SpanStyle::TitleBar),
{
    reveal_strlit("front_page");
    reveal_strlit("story");
    reveal_strlit("ask_hn");
    reveal_strlit("show_hn");
    reveal_strlit("job");
    let t = story_tags_spec();
    assert(t[0].len() == 10 && t[1].len() == 5 && t[2].len() == 6 && t[3].len() == 7 && t[4].len()
        == 3);
    let sep = (" | "@, SpanStyle::TitleBar);
    let ts = tag_spans(5, active, suffix);
    assert(tag_spans(0, active, suffix) =~= Seq::empty());
    assert(tag_spans(1, active, suffix) =~= seq![sep, tag_label(0, active, suffix)]);
    assert(tag_spans(2, active, suffix) =~= seq![
        sep,
        tag_label(0, active, suffix),
        sep,
        tag_label(1, active, suffix),
    ]);
    assert(tag_spans(3, active, suffix) =~= seq![
        sep,
        tag_label(0, active, suffix),
        sep,
        tag_label(1, active, suffix),
        sep,
        tag_label(2, active, suffix),
    ]);
    assert(tag_spans(4, active, suffix) =~= seq![
        sep,
        tag_label(0, active, suffix),
        sep,
        tag_label(1, active, suffix),
        sep,
        tag_label(2, active, suffix),
        sep,
        tag_label(3, active, suffix),
    ]);
    assert(ts =~= seq![
        sep,
        tag_label(0, active, suffix),
        sep,
        tag_label(1, active, suffix),
        sep,
        tag_label(2, active, suffix),
        sep,
        tag_label(3, active, suffix),
        sep,
        tag_label(4, active, suffix),
    ]);
    let n = nav_strip(active, suffix);
    assert forall|k: int| 0 <= k < 5 implies n[separator_position(k)] == sep && n[tab_position(k)]
        == tag_label(k as nat, active, suffix) by {
        assert(n[2 + 2 * k] == ts[2 * k]);
        assert(n[3 + 2 * k] == ts[2 * k + 1]);
    }
}

} // verus!
