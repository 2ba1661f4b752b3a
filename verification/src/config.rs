//! Application settings: the paging limits, external commands and the
//! built-in defaults.

use vstd::prelude::*;

verus! {

/// Inclusive bounds for the story-listing page size. The floor keeps
/// paging usable; the ceiling is the largest page the search backend
/// accepts.
pub const MIN_PAGE_SIZE: usize = 5;

pub const MAX_PAGE_SIZE: usize = 100;

pub const DEFAULT_PAGE_SIZE: usize = 20;

/// Inclusive bounds for the search-view page size.
pub const MIN_SEARCH_PAGE_SIZE: usize = 5;

pub const MAX_SEARCH_PAGE_SIZE: usize = 30;

pub const DEFAULT_SEARCH_PAGE_SIZE: usize = 15;

/// `x` pulled into `lo..=hi`.
pub open spec fn clamped(x: int, lo: int, hi: int) -> int {
    if x < lo {
        lo
    } else if x > hi {
        hi
    } else {
        x
    }
}

/// A listing page size pulled into `MIN_PAGE_SIZE..=MAX_PAGE_SIZE`.
pub fn clamp_page_size(raw: usize) -> (r: usize)
    ensures
        r == clamped(raw as int, MIN_PAGE_SIZE as int, MAX_PAGE_SIZE as int),
        MIN_PAGE_SIZE <= r <= MAX_PAGE_SIZE,
{
    if raw < MIN_PAGE_SIZE {
        MIN_PAGE_SIZE
    } else if raw > MAX_PAGE_SIZE {
        MAX_PAGE_SIZE
    } else {
        raw
    }
}

/// A search page size pulled into `MIN_SEARCH_PAGE_SIZE..=MAX_SEARCH_PAGE_SIZE`.
pub fn clamp_search_page_size(raw: usize) -> (r: usize)
    ensures
        r == clamped(raw as int, MIN_SEARCH_PAGE_SIZE as int, MAX_SEARCH_PAGE_SIZE as int),
        MIN_SEARCH_PAGE_SIZE <= r <= MAX_SEARCH_PAGE_SIZE,
{
    if raw < MIN_SEARCH_PAGE_SIZE {
        MIN_SEARCH_PAGE_SIZE
    } else if raw > MAX_SEARCH_PAGE_SIZE {
        MAX_SEARCH_PAGE_SIZE
    } else {
        raw
    }
}

/// Clamping leaves an in-range size alone, always lands in range, and
/// clamping twice is the same as clamping once.
pub proof fn law_clamp_is_a_projection(x: int, lo: int, hi: int)
    requires
        lo <= hi,
    ensures
        lo <= clamped(x, lo, hi) <= hi,
        lo <= x <= hi ==> clamped(x, lo, hi) == x,
        clamped(clamped(x, lo, hi), lo, hi) == clamped(x, lo, hi),
        x < lo ==> clamped(x, lo, hi) == lo,
        x > hi ==> clamped(x, lo, hi) == hi,
{
}

/// An external command with its leading arguments.
#[derive(Debug)]
pub struct Command {
    pub command: String,
    pub options: Vec<String>,
}

impl Clone for Command {
    fn clone(&self) -> (r: Self)
        ensures
            r.command == self.command,
            r.options@ == self.options@,
    {
        let options = self.options.clone();
        assert(options@ =~= self.options@);
        Command { command: self.command.clone(), options }
    }
}

/// `parts` joined with `sep` between neighbours.
pub open spec fn joined(parts: Seq<Seq<char>>, sep: Seq<char>) -> Seq<char>
    decreases parts.len(),
{
    if parts.len() == 0 {
        Seq::empty()
    } else if parts.len() == 1 {
        parts[0]
    } else {
        joined(parts.drop_last(), sep) + sep + parts.last()
    }
}

/// The views of a list of strings.
pub open spec fn string_views(v: Seq<String>) -> Seq<Seq<char>> {
    v.map_values(|s: String| s@)
}

/// Join strings with a separator.
pub fn join_strings(parts: &Vec<String>, sep: &str) -> (r: String)
    ensures
        r@ == joined(string_views(parts@), sep@),
{
    let mut r = String::new();
    let ghost views = string_views(parts@);
    let mut i: usize = 0;
    while i < parts.len()
        invariant
            i <= parts.len(),
            views == string_views(parts@),
            r@ == joined(views.take(i as int), sep@),
        decreases parts.len() - i,
    {
        assert(views.take(i + 1).drop_last() =~= views.take(i as int));
        if i != 0 {
            r.append(sep);
        }
        r.append(parts[i].as_str());
        i = i + 1;
    }
    assert(views.take(parts.len() as int) =~= views);
    r
}

impl Command {
    /// The command line as shown in log messages: the command, a space,
    /// then the options separated by spaces.
    pub open spec fn display(&self) -> Seq<char> {
        self.command@ + " "@ + joined(string_views(self.options@), " "@)
    }

    pub fn to_string(&self) -> (s: String)
        ensures
            s@ == self.display(),
    {
        let mut s = self.command.clone();
        s.append(" ");
        let rest = join_strings(&self.options, " ");
        s.append(rest.as_str());
        s
    }
}

/// The platform family, which decides the default URL opener.
#[derive(Debug, Clone, Copy, PartialEq, Eq, Structural)]
pub enum HostOs {
    /// Unix other than macOS.
    Unix,
    MacOs,
    Windows,
}

/// The command that opens a URL on each platform.
pub open spec fn url_opener(os: HostOs) -> Seq<char> {
    match os {
        HostOs::Unix => "xdg-open"@,
        HostOs::MacOs => "open"@,
        HostOs::Windows => "start"@,
    }
}

/// The platform's default URL-open command, without options.
pub fn default_url_open_command(os: HostOs) -> (c: Command)
    ensures
        c.command@ == url_opener(os),
        c.options@.len() == 0,
{
    let command = match os {
        HostOs::Unix => String::from_str("xdg-open"),
        HostOs::MacOs => String::from_str("open"),
        HostOs::Windows => String::from_str("start"),
    };
    Command { command, options: Vec::new() }
}

/// The application's configuration.
#[derive(Debug)]
pub struct Config {
    pub use_page_scrolling: bool,
    pub use_pacman_loading: bool,
    pub use_hn_topcolor: bool,
    pub client_timeout: u64,
    /// Stories per listing page; read through [`page_size`].
    pub page_size: u64,
    /// Results per search page; read through [`search_page_size`].
    pub search_page_size: u64,
    pub url_open_command: Command,
    pub article_parse_command: Command,
}

impl Config {
    /// The built-in configuration on platform `os`.
    pub fn default_for(os: HostOs) -> (c: Config)
        ensures
            c.use_page_scrolling,
            c.use_pacman_loading,
            c.use_hn_topcolor,
            c.client_timeout == 32,
            c.page_size == DEFAULT_PAGE_SIZE,
            c.search_page_size == DEFAULT_SEARCH_PAGE_SIZE,
            c.url_open_command.command@ == url_opener(os),
            c.url_open_command.options@.len() == 0,
            c.article_parse_command.command@ == "article_md"@,
            string_views(c.article_parse_command.options@) == seq!["--format"@, "html"@],
    {
        let mut options = Vec::new();
        options.push(String::from_str("--format"));
        options.push(String::from_str("html"));
        assert(string_views(options@) =~= seq!["--format"@, "html"@]);
        Config {
            use_page_scrolling: true,
            use_pacman_loading: true,
            use_hn_topcolor: true,
            url_open_command: default_url_open_command(os),
            article_parse_command: Command { command: String::from_str("article_md"), options },
            client_timeout: 32,
            page_size: DEFAULT_PAGE_SIZE as u64,
            search_page_size: DEFAULT_SEARCH_PAGE_SIZE as u64,
        }
    }
}

/// `x` pulled into `lo..=hi`, computed on 64-bit values.
fn clamp_u64(x: u64, lo: usize, hi: usize) -> (r: usize)
    requires
        lo <= hi,
    ensures
        r == clamped(x as int, lo as int, hi as int),
{
    if x < lo as u64 {
        lo
    } else if x > hi as u64 {
        hi
    } else {
        x as usize
    }
}

/// The story-listing page size of `config`, clamped to
/// `MIN_PAGE_SIZE..=MAX_PAGE_SIZE`, so an out-of-range setting is pulled
/// into a working range rather than rejected.
pub fn page_size(config: &Config) -> (r: usize)
    ensures
        r == clamped(config.page_size as int, MIN_PAGE_SIZE as int, MAX_PAGE_SIZE as int),
{
    clamp_u64(config.page_size, MIN_PAGE_SIZE, MAX_PAGE_SIZE)
}

/// Results per search-view page of `config`, clamped to
/// `MIN_SEARCH_PAGE_SIZE..=MAX_SEARCH_PAGE_SIZE`.
pub fn search_page_size(config: &Config) -> (r: usize)
    ensures
        r == clamped(
            config.search_page_size as int,
            MIN_SEARCH_PAGE_SIZE as int,
            MAX_SEARCH_PAGE_SIZE as int,
        ),
{
    clamp_u64(config.search_page_size, MIN_SEARCH_PAGE_SIZE, MAX_SEARCH_PAGE_SIZE)
}

} // verus!
