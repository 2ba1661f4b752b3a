//! In-memory fake of the Hacker News API for tests.
//!
//! Tests register fixture responses ahead of the call (first-in,
//! first-out queues for the page-data fetches, keyed tables for
//! everything else) and read back the recorded call log to assert that
//! a view drove the expected request. Lookups that were not stubbed
//! answer with an empty value rather than an error, and the `fail_*`
//! switches turn the matching mutating call into its failure path.

use std::collections::{HashMap, VecDeque};

use vstd::prelude::*;

use crate::model::{
    Article, PageData, Story, StoryNumericFilters, StorySortMode, VoteData, VoteDirection,
    VouchData,
};
use crate::store::{Store, StoreKey};
use crate::text::{decimal, decimal_string, opt_str_view};

verus! {

broadcast use vstd::std_specs::hash::group_hash_axioms;

/// One recorded interaction with [`FakeHnApi`].
#[derive(Debug)]
pub enum FakeCall {
    GetPageData(u32),
    GetUserThreadsPage(String, usize),
    GetStoriesByTag(String, StorySortMode, usize, StoryNumericFilters),
    GetListingVoteState(String, StorySortMode, usize),
    GetListingVouchState(String, StorySortMode, usize),
    GetMatchedStories(String, bool, usize),
    Login(String, String),
    CurrentSessionCookie,
    Vote(u32, String, Option<VoteDirection>),
    Vouch(u32, String, bool),
    GetVoteDataForItem(u32),
    GetVouchDataForItem(u32),
    GetArticle(String),
}

/// A recorded call with its strings taken as character sequences.
pub enum CallRecord {
    GetPageData(u32),
    GetUserThreadsPage(Seq<char>, usize),
    GetStoriesByTag(Seq<char>, StorySortMode, usize, StoryNumericFilters),
    GetListingVoteState(Seq<char>, StorySortMode, usize),
    GetListingVouchState(Seq<char>, StorySortMode, usize),
    GetMatchedStories(Seq<char>, bool, usize),
    Login(Seq<char>, Seq<char>),
    CurrentSessionCookie,
    Vote(u32, Seq<char>, Option<VoteDirection>),
    Vouch(u32, Seq<char>, bool),
    GetVoteDataForItem(u32),
    GetVouchDataForItem(u32),
    GetArticle(Seq<char>),
}

impl View for FakeCall {
    type V = CallRecord;

    open spec fn view(&self) -> CallRecord {
        match self {
            FakeCall::GetPageData(id) => CallRecord::GetPageData(*id),
            FakeCall::GetUserThreadsPage(u, p) => CallRecord::GetUserThreadsPage(u@, *p),
            FakeCall::GetStoriesByTag(t, s, p, f) => CallRecord::GetStoriesByTag(t@, *s, *p, *f),
            FakeCall::GetListingVoteState(t, s, p) => CallRecord::GetListingVoteState(t@, *s, *p),
            FakeCall::GetListingVouchState(t, s, p) => CallRecord::GetListingVouchState(
                t@,
                *s,
                *p,
            ),
            FakeCall::GetMatchedStories(q, b, p) => CallRecord::GetMatchedStories(q@, *b, *p),
            FakeCall::Login(u, p) => CallRecord::Login(u@, p@),
            FakeCall::CurrentSessionCookie => CallRecord::CurrentSessionCookie,
            FakeCall::Vote(id, a, d) => CallRecord::Vote(*id, a@, *d),
            FakeCall::Vouch(id, a, r) => CallRecord::Vouch(*id, a@, *r),
            FakeCall::GetVoteDataForItem(id) => CallRecord::GetVoteDataForItem(*id),
            FakeCall::GetVouchDataForItem(id) => CallRecord::GetVouchDataForItem(*id),
            FakeCall::GetArticle(u) => CallRecord::GetArticle(u@),
        }
    }
}

impl Clone for FakeCall {
    fn clone(&self) -> (r: Self)
        ensures
            r == *self,
    {
        match self {
            FakeCall::GetPageData(id) => FakeCall::GetPageData(*id),
            FakeCall::GetUserThreadsPage(u, p) => FakeCall::GetUserThreadsPage(u.clone(), *p),
            FakeCall::GetStoriesByTag(t, s, p, f) => FakeCall::GetStoriesByTag(t.clone(), *s, *p, *f),
            FakeCall::GetListingVoteState(t, s, p) => FakeCall::GetListingVoteState(t.clone(), *s, *p),
            FakeCall::GetListingVouchState(t, s, p) => FakeCall::GetListingVouchState(t.clone(), *s, *p),
            FakeCall::GetMatchedStories(q, b, p) => FakeCall::GetMatchedStories(q.clone(), *b, *p),
            FakeCall::Login(u, p) => FakeCall::Login(u.clone(), p.clone()),
            FakeCall::CurrentSessionCookie => FakeCall::CurrentSessionCookie,
            FakeCall::Vote(id, a, d) => FakeCall::Vote(*id, a.clone(), *d),
            FakeCall::Vouch(id, a, r) => FakeCall::Vouch(*id, a.clone(), *r),
            FakeCall::GetVoteDataForItem(id) => FakeCall::GetVoteDataForItem(*id),
            FakeCall::GetVouchDataForItem(id) => FakeCall::GetVouchDataForItem(*id),
            FakeCall::GetArticle(u) => FakeCall::GetArticle(u.clone()),
        }
    }
}

/// Why a call to the fake API failed.
#[derive(Debug)]
pub enum HnApiError {
    NoPageData { item_id: u32 },
    NoUserThreads { username: String, page: usize },
    LoginFailed,
    VoteFailed,
    VouchFailed,
}

impl HnApiError {
    /// The human-readable message of the error.
    pub open spec fn message(&self) -> Seq<char> {
        match self {
            HnApiError::NoPageData { item_id } => "FakeHnApi: no page data queued for item "@
                + decimal(*item_id as nat),
            HnApiError::NoUserThreads { username, page } => "FakeHnApi: no user-threads page queued for "@
                + username@ + " (page "@ + decimal(*page as nat) + ")"@,
            HnApiError::LoginFailed => "FakeHnApi: login failed (stub)"@,
            HnApiError::VoteFailed => "FakeHnApi: vote failed (stub)"@,
            HnApiError::VouchFailed => "FakeHnApi: vouch failed (stub)"@,
        }
    }

    /// Render the error message.
    pub fn to_string(&self) -> (s: String)
        ensures
            s@ == self.message(),
    {
        match self {
            HnApiError::NoPageData { item_id } => {
                let mut s = String::from_str("FakeHnApi: no page data queued for item ");
                s.append(decimal_string(*item_id as u64).as_str());
                s
            },
            HnApiError::NoUserThreads { username, page } => {
                let mut s = String::from_str("FakeHnApi: no user-threads page queued for ");
                s.append(username.as_str());
                s.append(" (page ");
                s.append(decimal_string(*page as u64).as_str());
                s.append(")");
                s
            },
            HnApiError::LoginFailed => String::from_str("FakeHnApi: login failed (stub)"),
            HnApiError::VoteFailed => String::from_str("FakeHnApi: vote failed (stub)"),
            HnApiError::VouchFailed => String::from_str("FakeHnApi: vouch failed (stub)"),
        }
    }
}

/// The Hacker News API as the views use it.
pub trait HnApi {
    fn get_page_data(&mut self, item_id: u32) -> Result<PageData, HnApiError>;

    fn get_user_threads_page(&mut self, username: &str, page: usize) -> Result<PageData, HnApiError>;

    fn get_stories_by_tag(
        &mut self,
        tag: &str,
        sort_mode: StorySortMode,
        page: usize,
        numeric_filters: StoryNumericFilters,
    ) -> Result<Vec<Story>, HnApiError>;

    fn get_listing_vote_state(&mut self, tag: &str, sort_mode: StorySortMode, page: usize) -> Result<
        HashMap<u32, VoteData>,
        HnApiError,
    >;

    fn get_listing_vouch_state(&mut self, tag: &str, sort_mode: StorySortMode, page: usize) -> Result<
        HashMap<u32, VouchData>,
        HnApiError,
    >;

    fn get_matched_stories(&mut self, query: &str, by_date: bool, page: usize) -> Result<
        Vec<Story>,
        HnApiError,
    >;

    fn login(&mut self, username: &str, password: &str) -> Result<(), HnApiError>;

    fn current_session_cookie(&mut self) -> Option<String>;

    fn vote(&mut self, id: u32, auth: &str, new_vote: Option<VoteDirection>) -> Result<(), HnApiError>;

    fn vouch(&mut self, id: u32, auth: &str, rescind: bool) -> Result<(), HnApiError>;

    fn get_vote_data_for_item(&mut self, item_id: u32) -> Result<Option<VoteData>, HnApiError>;

    fn get_vouch_data_for_item(&mut self, item_id: u32) -> Result<Option<VouchData>, HnApiError>;

    fn get_article(&mut self, url: &str) -> Result<Article, HnApiError>;
}

/// Abstract state of the fake: the call log, the queued pages, the
/// stubbed tables and the failure switches.
pub struct FakeModel {
    pub calls: Seq<CallRecord>,
    pub page_data: Seq<PageData>,
    pub user_threads: Seq<PageData>,
    pub stories_by_tag: Map<Seq<char>, Seq<Story>>,
    pub listing_vote_state: Map<(Seq<char>, StorySortMode, usize), Map<u32, VoteData>>,
    pub listing_vouch_state: Map<(Seq<char>, StorySortMode, usize), Map<u32, VouchData>>,
    pub matched_stories: Map<(Seq<char>, bool, usize), Seq<Story>>,
    pub vote_data: Map<u32, Option<VoteData>>,
    pub vouch_data: Map<u32, Option<VouchData>>,
    pub article: Map<Seq<char>, Article>,
    pub session_cookie: Option<Seq<char>>,
    pub fail_login: bool,
    pub fail_vote: bool,
    pub fail_vouch: bool,
}

/// The model of a freshly made fake: nothing recorded, nothing stubbed.
pub open spec fn empty_model() -> FakeModel {
    FakeModel {
        calls: Seq::empty(),
        page_data: Seq::empty(),
        user_threads: Seq::empty(),
        stories_by_tag: Map::empty(),
        listing_vote_state: Map::empty(),
        listing_vouch_state: Map::empty(),
        matched_stories: Map::empty(),
        vote_data: Map::empty(),
        vouch_data: Map::empty(),
        article: Map::empty(),
        session_cookie: None,
        fail_login: false,
        fail_vote: false,
        fail_vouch: false,
    }
}

/// The model with one more call appended to the log.
pub open spec fn record(m: FakeModel, c: CallRecord) -> FakeModel {
    FakeModel { calls: m.calls.push(c), ..m }
}

/// Stories stubbed for a tag (empty when none were).
pub open spec fn stories_for_tag(m: FakeModel, tag: Seq<char>) -> Seq<Story> {
    if m.stories_by_tag.contains_key(tag) {
        m.stories_by_tag[tag]
    } else {
        Seq::empty()
    }
}

/// Stories stubbed for a search query (empty when none were).
pub open spec fn stories_for_query(m: FakeModel, key: (Seq<char>, bool, usize)) -> Seq<Story> {
    if m.matched_stories.contains_key(key) {
        m.matched_stories[key]
    } else {
        Seq::empty()
    }
}

/// Vote state stubbed for a listing page (empty when none was).
pub open spec fn vote_state_for(m: FakeModel, key: (Seq<char>, StorySortMode, usize)) -> Map<
    u32,
    VoteData,
> {
    if m.listing_vote_state.contains_key(key) {
        m.listing_vote_state[key]
    } else {
        Map::empty()
    }
}

/// Vouch state stubbed for a listing page (empty when none was).
pub open spec fn vouch_state_for(m: FakeModel, key: (Seq<char>, StorySortMode, usize)) -> Map<
    u32,
    VouchData,
> {
    if m.listing_vouch_state.contains_key(key) {
        m.listing_vouch_state[key]
    } else {
        Map::empty()
    }
}

/// Vote data stubbed for an item (`None` when none was).
pub open spec fn vote_data_for(m: FakeModel, id: u32) -> Option<VoteData> {
    if m.vote_data.contains_key(id) {
        m.vote_data[id]
    } else {
        None
    }
}

/// Vouch data stubbed for an item (`None` when none was).
pub open spec fn vouch_data_for(m: FakeModel, id: u32) -> Option<VouchData> {
    if m.vouch_data.contains_key(id) {
        m.vouch_data[id]
    } else {
        None
    }
}

/// An article with no title, URL, content, author or date: what the fake
/// answers for a URL nothing was stubbed for.
pub open spec fn is_empty_article(a: Article) -> bool {
    &&& a.title@.len() == 0
    &&& a.url@.len() == 0
    &&& a.content@.len() == 0
    &&& a.author is None
    &&& a.date_published is None
}

fn empty_article() -> (a: Article)
    ensures
        is_empty_article(a),
{
    Article {
        title: String::new(),
        url: String::new(),
        content: String::new(),
        author: None,
        date_published: None,
    }
}

/// Test double for [`HnApi`]. Register fixtures with the `set_*` and
/// `enqueue_*` methods, drive it through the trait, then inspect
/// [`FakeHnApi::calls`] to assert what was requested.
pub struct FakeHnApi {
    calls: Vec<FakeCall>,
    page_data: VecDeque<PageData>,
    user_threads: VecDeque<PageData>,
    stories_by_tag: Store<String, Vec<Story>>,
    listing_vote_state: Store<(String, StorySortMode, usize), HashMap<u32, VoteData>>,
    listing_vouch_state: Store<(String, StorySortMode, usize), HashMap<u32, VouchData>>,
    matched_stories: Store<(String, bool, usize), Vec<Story>>,
    vote_data: HashMap<u32, Option<VoteData>>,
    vouch_data: HashMap<u32, Option<VouchData>>,
    article: Store<String, Article>,
    session_cookie: Option<String>,
    fail_login: bool,
    fail_vote: bool,
    fail_vouch: bool,
}

impl View for FakeHnApi {
    type V = FakeModel;

    closed spec fn view(&self) -> FakeModel {
        FakeModel {
            calls: self.calls@.map_values(|c: FakeCall| c@),
            page_data: self.page_data@,
            user_threads: self.user_threads@,
            stories_by_tag: self.stories_by_tag@.map_values(|v: Vec<Story>| v@),
            listing_vote_state: self.listing_vote_state@.map_values(
                |h: HashMap<u32, VoteData>| h@,
            ),
            listing_vouch_state: self.listing_vouch_state@.map_values(
                |h: HashMap<u32, VouchData>| h@,
            ),
            matched_stories: self.matched_stories@.map_values(|v: Vec<Story>| v@),
            vote_data: self.vote_data@,
            vouch_data: self.vouch_data@,
            article: self.article@,
            session_cookie: opt_str_view(self.session_cookie),
            fail_login: self.fail_login,
            fail_vote: self.fail_vote,
            fail_vouch: self.fail_vouch,
        }
    }
}

impl FakeHnApi {
    pub fn new() -> (r: Self)
        ensures
            r@ == empty_model(),
    {
        let r = FakeHnApi {
            calls: Vec::new(),
            page_data: VecDeque::new(),
            user_threads: VecDeque::new(),
            stories_by_tag: Store::new(),
            listing_vote_state: Store::new(),
            listing_vouch_state: Store::new(),
            matched_stories: Store::new(),
            vote_data: HashMap::new(),
            vouch_data: HashMap::new(),
            article: Store::new(),
            session_cookie: None,
            fail_login: false,
            fail_vote: false,
            fail_vouch: false,
        };
        assert(r@.calls =~= Seq::empty());
        assert(r@.stories_by_tag =~= Map::empty());
        assert(r@.listing_vote_state =~= Map::empty());
        assert(r@.listing_vouch_state =~= Map::empty());
        assert(r@.matched_stories =~= Map::empty());
        r
    }

    /// Every call received so far, in the order they happened.
    pub fn calls(&self) -> (r: Vec<FakeCall>)
        ensures
            r@.map_values(|c: FakeCall| c@) == self@.calls,
    {
        let r = self.calls.clone();
        assert(r@ =~= self.calls@);
        r
    }

    /// Number of recorded calls.
    pub fn call_count(&self) -> (n: usize)
        ensures
            n == self@.calls.len(),
    {
        self.calls.len()
    }
}


impl FakeHnApi {
    pub fn enqueue_page_data(&mut self, data: PageData)
        ensures
            final(self)@ == with_queued_page(old(self)@, data),
    {
        self.page_data.push_back(data);
    }

    pub fn enqueue_user_threads(&mut self, data: PageData)
        ensures
            final(self)@ == (FakeModel {
                user_threads: old(self)@.user_threads.push(data),
                ..old(self)@
            }),
    {
        self.user_threads.push_back(data);
    }

    pub fn set_stories_for_tag(&mut self, tag: &str, stories: Vec<Story>)
        ensures
            final(self)@ == (FakeModel {
                stories_by_tag: old(self)@.stories_by_tag.insert(tag@, stories@),
                ..old(self)@
            }),
    {
        let ghost sv = stories@;
        self.stories_by_tag.insert(String::from_str(tag), stories);
        assert(self@.stories_by_tag =~= old(self)@.stories_by_tag.insert(tag@, sv));
    }

    pub fn set_listing_vote_state(
        &mut self,
        tag: &str,
        sort_mode: StorySortMode,
        page: usize,
        state: HashMap<u32, VoteData>,
    )
        ensures
            final(self)@ == (FakeModel {
                listing_vote_state: old(self)@.listing_vote_state.insert(
                    (tag@, sort_mode, page),
                    state@,
                ),
                ..old(self)@
            }),
    {
        let ghost sv = state@;
        self.listing_vote_state.insert((String::from_str(tag), sort_mode, page), state);
        assert(self@.listing_vote_state =~= old(self)@.listing_vote_state.insert(
            (tag@, sort_mode, page),
            sv,
        ));
    }

    pub fn set_listing_vouch_state(
        &mut self,
        tag: &str,
        sort_mode: StorySortMode,
        page: usize,
        state: HashMap<u32, VouchData>,
    )
        ensures
            final(self)@ == (FakeModel {
                listing_vouch_state: old(self)@.listing_vouch_state.insert(
                    (tag@, sort_mode, page),
                    state@,
                ),
                ..old(self)@
            }),
    {
        let ghost sv = state@;
        self.listing_vouch_state.insert((String::from_str(tag), sort_mode, page), state);
        assert(self@.listing_vouch_state =~= old(self)@.listing_vouch_state.insert(
            (tag@, sort_mode, page),
            sv,
        ));
    }

    pub fn set_matched_stories(&mut self, query: &str, by_date: bool, page: usize, stories: Vec<Story>)
        ensures
            final(self)@ == (FakeModel {
                matched_stories: old(self)@.matched_stories.insert((query@, by_date, page), stories@),
                ..old(self)@
            }),
    {
        let ghost sv = stories@;
        self.matched_stories.insert((String::from_str(query), by_date, page), stories);
        assert(self@.matched_stories =~= old(self)@.matched_stories.insert(
            (query@, by_date, page),
            sv,
        ));
    }

    pub fn set_vote_data(&mut self, item_id: u32, data: Option<VoteData>)
        ensures
            final(self)@ == (FakeModel {
                vote_data: old(self)@.vote_data.insert(item_id, data),
                ..old(self)@
            }),
    {
        self.vote_data.insert(item_id, data);
    }

    pub fn set_vouch_data(&mut self, item_id: u32, data: Option<VouchData>)
        ensures
            final(self)@ == (FakeModel {
                vouch_data: old(self)@.vouch_data.insert(item_id, data),
                ..old(self)@
            }),
    {
        self.vouch_data.insert(item_id, data);
    }

    pub fn set_article(&mut self, url: &str, article: Article)
        ensures
            final(self)@ == (FakeModel { article: old(self)@.article.insert(url@, article), ..old(self)@ }),
    {
        self.article.insert(String::from_str(url), article);
    }

    pub fn set_session_cookie(&mut self, cookie: Option<String>)
        ensures
            final(self)@ == (FakeModel { session_cookie: opt_str_view(cookie), ..old(self)@ }),
    {
        self.session_cookie = cookie;
    }

    pub fn fail_login(&mut self)
        ensures
            final(self)@ == (FakeModel { fail_login: true, ..old(self)@ }),
    {
        self.fail_login = true;
    }

    pub fn fail_vote(&mut self)
        ensures
            final(self)@ == (FakeModel { fail_vote: true, ..old(self)@ }),
    {
        self.fail_vote = true;
    }

    pub fn fail_vouch(&mut self)
        ensures
            final(self)@ == (FakeModel { fail_vouch: true, ..old(self)@ }),
    {
        self.fail_vouch = true;
    }

    fn push_call(&mut self, c: FakeCall)
        ensures
            final(self)@ == record(old(self)@, c@),
    {
        let ghost cv = c@;
        self.calls.push(c);
        assert(self@.calls =~= old(self)@.calls.push(cv));
    }
}


impl HnApi for FakeHnApi {
    /// Pops the oldest queued page; fails when the queue is empty.
    fn get_page_data(&mut self, item_id: u32) -> (r: Result<PageData, HnApiError>)
        ensures
            match r {
                Ok(d) => {
                    &&& old(self)@.page_data.len() > 0
                    &&& d == old(self)@.page_data[0]
                    &&& final(self)@ == (FakeModel {
                        page_data: old(self)@.page_data.drop_first(),
                        ..record(old(self)@, CallRecord::GetPageData(item_id))
                    })
                },
                Err(e) => {
                    &&& old(self)@.page_data.len() == 0
                    &&& e == (HnApiError::NoPageData { item_id })
                    &&& final(self)@ == record(old(self)@, CallRecord::GetPageData(item_id))
                },
            },
            final(self)@ == after_get_page(old(self)@, item_id),
            match (r, next_page(old(self)@)) {
                (Ok(d), Some(e)) => d == e,
                (Err(_), None) => true,
                _ => false,
            },
    {
        self.push_call(FakeCall::GetPageData(item_id));
        match self.page_data.pop_front() {
            Some(d) => Ok(d),
            None => Err(HnApiError::NoPageData { item_id }),
        }
    }

    /// Pops the oldest queued user-threads page; fails when the queue is empty.
    fn get_user_threads_page(&mut self, username: &str, page: usize) -> (r: Result<PageData, HnApiError>)
        ensures
            match r {
                Ok(d) => {
                    &&& old(self)@.user_threads.len() > 0
                    &&& d == old(self)@.user_threads[0]
                    &&& final(self)@ == (FakeModel {
                        user_threads: old(self)@.user_threads.drop_first(),
                        ..record(old(self)@, CallRecord::GetUserThreadsPage(username@, page))
                    })
                },
                Err(e) => {
                    &&& old(self)@.user_threads.len() == 0
                    &&& e matches HnApiError::NoUserThreads { username: u, page: p }
                    &&& u@ == username@
                    &&& p == page
                    &&& final(self)@ == record(old(self)@, CallRecord::GetUserThreadsPage(username@, page))
                },
            },
    {
        self.push_call(FakeCall::GetUserThreadsPage(String::from_str(username), page));
        match self.user_threads.pop_front() {
            Some(d) => Ok(d),
            None => Err(HnApiError::NoUserThreads { username: String::from_str(username), page }),
        }
    }

    /// The stories stubbed for `tag`, or none.
    fn get_stories_by_tag(
        &mut self,
        tag: &str,
        sort_mode: StorySortMode,
        page: usize,
        numeric_filters: StoryNumericFilters,
    ) -> (r: Result<Vec<Story>, HnApiError>)
        ensures
            r matches Ok(v) && v@ == stories_for_tag(old(self)@, tag@),
            final(self)@ == record(
                old(self)@,
                CallRecord::GetStoriesByTag(tag@, sort_mode, page, numeric_filters),
            ),
    {
        self.push_call(FakeCall::GetStoriesByTag(String::from_str(tag), sort_mode, page, numeric_filters));
        let key = String::from_str(tag);
        match self.stories_by_tag.get(&key) {
            Some(v) => {
                let c = v.clone();
                assert(c@ =~= v@);
                Ok(c)
            },
            None => Ok(Vec::new()),
        }
    }

    /// The vote state stubbed for the listing page, or an empty one.
    fn get_listing_vote_state(&mut self, tag: &str, sort_mode: StorySortMode, page: usize) -> (r: Result<
        HashMap<u32, VoteData>,
        HnApiError,
    >)
        ensures
            r matches Ok(h) && h@ == vote_state_for(old(self)@, (tag@, sort_mode, page)),
            final(self)@ == record(old(self)@, CallRecord::GetListingVoteState(tag@, sort_mode, page)),
    {
        self.push_call(FakeCall::GetListingVoteState(String::from_str(tag), sort_mode, page));
        let key = (String::from_str(tag), sort_mode, page);
        match self.listing_vote_state.get(&key) {
            Some(h) => Ok(h.clone()),
            None => Ok(HashMap::new()),
        }
    }

    /// The vouch state stubbed for the listing page, or an empty one.
    fn get_listing_vouch_state(&mut self, tag: &str, sort_mode: StorySortMode, page: usize) -> (r: Result<
        HashMap<u32, VouchData>,
        HnApiError,
    >)
        ensures
            r matches Ok(h) && h@ == vouch_state_for(old(self)@, (tag@, sort_mode, page)),
            final(self)@ == record(old(self)@, CallRecord::GetListingVouchState(tag@, sort_mode, page)),
    {
        self.push_call(FakeCall::GetListingVouchState(String::from_str(tag), sort_mode, page));
        let key = (String::from_str(tag), sort_mode, page);
        match self.listing_vouch_state.get(&key) {
            Some(h) => Ok(h.clone()),
            None => Ok(HashMap::new()),
        }
    }

    /// The stories stubbed for the query, or none.
    fn get_matched_stories(&mut self, query: &str, by_date: bool, page: usize) -> (r: Result<
        Vec<Story>,
        HnApiError,
    >)
        ensures
            r matches Ok(v) && v@ == stories_for_query(old(self)@, (query@, by_date, page)),
            final(self)@ == record(old(self)@, CallRecord::GetMatchedStories(query@, by_date, page)),
    {
        self.push_call(FakeCall::GetMatchedStories(String::from_str(query), by_date, page));
        let key = (String::from_str(query), by_date, page);
        match self.matched_stories.get(&key) {
            Some(v) => {
                let c = v.clone();
                assert(c@ =~= v@);
                Ok(c)
            },
            None => Ok(Vec::new()),
        }
    }

    /// Succeeds unless [`FakeHnApi::fail_login`] was called.
    fn login(&mut self, username: &str, password: &str) -> (r: Result<(), HnApiError>)
        ensures
            match r {
                Ok(_) => !old(self)@.fail_login,
                Err(e) => old(self)@.fail_login && e == HnApiError::LoginFailed,
            },
            final(self)@ == record(old(self)@, CallRecord::Login(username@, password@)),
    {
        self.push_call(FakeCall::Login(String::from_str(username), String::from_str(password)));
        if self.fail_login {
            Err(HnApiError::LoginFailed)
        } else {
            Ok(())
        }
    }

    /// The stubbed session cookie.
    fn current_session_cookie(&mut self) -> (r: Option<String>)
        ensures
            opt_str_view(r) == old(self)@.session_cookie,
            final(self)@ == record(old(self)@, CallRecord::CurrentSessionCookie),
    {
        self.push_call(FakeCall::CurrentSessionCookie);
        match &self.session_cookie {
            Some(c) => Some(c.clone()),
            None => None,
        }
    }

    /// Succeeds unless [`FakeHnApi::fail_vote`] was called.
    fn vote(&mut self, id: u32, auth: &str, new_vote: Option<VoteDirection>) -> (r: Result<
        (),
        HnApiError,
    >)
        ensures
            match r {
                Ok(_) => !old(self)@.fail_vote,
                Err(e) => old(self)@.fail_vote && e == HnApiError::VoteFailed,
            },
            final(self)@ == record(old(self)@, CallRecord::Vote(id, auth@, new_vote)),
    {
        self.push_call(FakeCall::Vote(id, String::from_str(auth), new_vote));
        if self.fail_vote {
            Err(HnApiError::VoteFailed)
        } else {
            Ok(())
        }
    }

    /// Succeeds unless [`FakeHnApi::fail_vouch`] was called.
    fn vouch(&mut self, id: u32, auth: &str, rescind: bool) -> (r: Result<(), HnApiError>)
        ensures
            match r {
                Ok(_) => !old(self)@.fail_vouch,
                Err(e) => old(self)@.fail_vouch && e == HnApiError::VouchFailed,
            },
            final(self)@ == record(old(self)@, CallRecord::Vouch(id, auth@, rescind)),
    {
        self.push_call(FakeCall::Vouch(id, String::from_str(auth), rescind));
        if self.fail_vouch {
            Err(HnApiError::VouchFailed)
        } else {
            Ok(())
        }
    }

    /// The vote data stubbed for the item, or `None`.
    fn get_vote_data_for_item(&mut self, item_id: u32) -> (r: Result<Option<VoteData>, HnApiError>)
        ensures
            r matches Ok(v) && v == vote_data_for(old(self)@, item_id),
            final(self)@ == record(old(self)@, CallRecord::GetVoteDataForItem(item_id)),
    {
        self.push_call(FakeCall::GetVoteDataForItem(item_id));
        match self.vote_data.get(&item_id) {
            Some(Some(v)) => Ok(Some(v.clone())),
            _ => Ok(None),
        }
    }

    /// The vouch data stubbed for the item, or `None`.
    fn get_vouch_data_for_item(&mut self, item_id: u32) -> (r: Result<Option<VouchData>, HnApiError>)
        ensures
            r matches Ok(v) && v == vouch_data_for(old(self)@, item_id),
            final(self)@ == record(old(self)@, CallRecord::GetVouchDataForItem(item_id)),
    {
        self.push_call(FakeCall::GetVouchDataForItem(item_id));
        match self.vouch_data.get(&item_id) {
            Some(Some(v)) => Ok(Some(v.clone())),
            _ => Ok(None),
        }
    }

    /// The article stubbed for the URL, or an empty article.
    fn get_article(&mut self, url: &str) -> (r: Result<Article, HnApiError>)
        ensures
            old(self)@.article.contains_key(url@) ==> (r matches Ok(a) && a == old(
                self,
            )@.article[url@]),
            !old(self)@.article.contains_key(url@) ==> (r matches Ok(a) && is_empty_article(a)),
            final(self)@ == record(old(self)@, CallRecord::GetArticle(url@)),
    {
        self.push_call(FakeCall::GetArticle(String::from_str(url)));
        let key = String::from_str(url);
        match self.article.get(&key) {
            Some(a) => Ok(a.clone()),
            None => Ok(empty_article()),
        }
    }
}


impl Default for FakeHnApi {
    fn default() -> (r: Self)
        ensures
            r@ == empty_model(),
    {
        FakeHnApi::new()
    }
}

/// The model after a page is queued.
pub open spec fn with_queued_page(m: FakeModel, d: PageData) -> FakeModel {
    FakeModel { page_data: m.page_data.push(d), ..m }
}

/// The page `get_page_data` hands out in state `m`, if any.
pub open spec fn next_page(m: FakeModel) -> Option<PageData> {
    if m.page_data.len() > 0 {
        Some(m.page_data[0])
    } else {
        None
    }
}

/// The model after `get_page_data(item_id)` in state `m`.
pub open spec fn after_get_page(m: FakeModel, item_id: u32) -> FakeModel {
    let r = record(m, CallRecord::GetPageData(item_id));
    if m.page_data.len() > 0 {
        FakeModel { page_data: m.page_data.drop_first(), ..r }
    } else {
        r
    }
}

/// Pages come back out of the fake in the order they were queued, and
/// the queue reports failure once it is drained.
pub proof fn law_pages_dequeue_in_order(m: FakeModel, a: PageData, b: PageData, i: u32, j: u32, k: u32)
    requires
        m.page_data.len() == 0,
    ensures
        next_page(with_queued_page(with_queued_page(m, a), b)) == Some(a),
        next_page(after_get_page(with_queued_page(with_queued_page(m, a), b), i)) == Some(b),
        next_page(
            after_get_page(after_get_page(with_queued_page(with_queued_page(m, a), b), i), j),
        ) is None,
        after_get_page(
            after_get_page(after_get_page(with_queued_page(with_queued_page(m, a), b), i), j),
            k,
        ).calls == m.calls.push(CallRecord::GetPageData(i)).push(CallRecord::GetPageData(j)).push(
            CallRecord::GetPageData(k),
        ),
{
    let m2 = with_queued_page(with_queued_page(m, a), b);
    assert(m2.page_data =~= seq![a, b]);
    assert(after_get_page(m2, i).page_data =~= seq![b]);
    assert(after_get_page(after_get_page(m2, i), j).page_data =~= Seq::<PageData>::empty());
}

/// What a test stubs for a tag is what the fake answers for that tag;
/// the answer for every other tag is unchanged.
pub proof fn law_stubbed_stories_read_back(m: FakeModel, tag: Seq<char>, stories: Seq<Story>, other: Seq<char>)
    ensures
        stories_for_tag(FakeModel { stories_by_tag: m.stories_by_tag.insert(tag, stories), ..m }, tag)
            == stories,
        other != tag ==> stories_for_tag(
            FakeModel { stories_by_tag: m.stories_by_tag.insert(tag, stories), ..m },
            other,
        ) == stories_for_tag(m, other),
{
}

/// What a test stubs for a search (query, ordering, page) is what the fake
/// answers for exactly that search; the answer for every other search,
/// including the same query and page under the other ordering, is
/// unchanged.
pub proof fn law_stubbed_search_read_back(
    m: FakeModel,
    query: Seq<char>,
    by_date: bool,
    page: usize,
    stories: Seq<Story>,
    other: (Seq<char>, bool, usize),
)
    ensures
        stories_for_query(
            FakeModel {
                matched_stories: m.matched_stories.insert((query, by_date, page), stories),
                ..m
            },
            (query, by_date, page),
        ) == stories,
        other != (query, by_date, page) ==> stories_for_query(
            FakeModel {
                matched_stories: m.matched_stories.insert((query, by_date, page), stories),
                ..m
            },
            other,
        ) == stories_for_query(m, other),
        stories_for_query(
            FakeModel {
                matched_stories: m.matched_stories.insert((query, by_date, page), stories),
                ..m
            },
            (query, !by_date, page),
        ) == stories_for_query(m, (query, !by_date, page)),
{
}

/// What a test stubs as the vote or vouch state of a listing page is what
/// the fake answers for that page; every other page keeps its answer.
pub proof fn law_stubbed_listing_state_read_back(
    m: FakeModel,
    key: (Seq<char>, StorySortMode, usize),
    votes: Map<u32, VoteData>,
    vouches: Map<u32, VouchData>,
    other: (Seq<char>, StorySortMode, usize),
)
    ensures
        vote_state_for(
            FakeModel { listing_vote_state: m.listing_vote_state.insert(key, votes), ..m },
            key,
        ) == votes,
        other != key ==> vote_state_for(
            FakeModel { listing_vote_state: m.listing_vote_state.insert(key, votes), ..m },
            other,
        ) == vote_state_for(m, other),
        vouch_state_for(
            FakeModel { listing_vouch_state: m.listing_vouch_state.insert(key, vouches), ..m },
            key,
        ) == vouches,
        other != key ==> vouch_state_for(
            FakeModel { listing_vouch_state: m.listing_vouch_state.insert(key, vouches), ..m },
            other,
        ) == vouch_state_for(m, other),
{
}

/// What a test stubs as an item's vote or vouch data is what the fake
/// answers for that item; every other item keeps its answer.
pub proof fn law_stubbed_item_data_read_back(
    m: FakeModel,
    id: u32,
    vote: Option<VoteData>,
    vouch: Option<VouchData>,
    other: u32,
)
    ensures
        vote_data_for(FakeModel { vote_data: m.vote_data.insert(id, vote), ..m }, id) == vote,
        other != id ==> vote_data_for(FakeModel { vote_data: m.vote_data.insert(id, vote), ..m }, other)
            == vote_data_for(m, other),
        vouch_data_for(FakeModel { vouch_data: m.vouch_data.insert(id, vouch), ..m }, id) == vouch,
        other != id ==> vouch_data_for(
            FakeModel { vouch_data: m.vouch_data.insert(id, vouch), ..m },
            other,
        ) == vouch_data_for(m, other),
{
}

/// A fresh fake answers every lookup with an empty value, and every
/// mutating call succeeds.
pub proof fn law_fresh_fake_answers_empty(
    tag: Seq<char>,
    sort_mode: StorySortMode,
    page: usize,
    query: Seq<char>,
    by_date: bool,
    id: u32,
)
    ensures
        stories_for_tag(empty_model(), tag) == Seq::<Story>::empty(),
        stories_for_query(empty_model(), (query, by_date, page)) == Seq::<Story>::empty(),
        vote_state_for(empty_model(), (tag, sort_mode, page)) == Map::<u32, VoteData>::empty(),
        vouch_state_for(empty_model(), (tag, sort_mode, page)) == Map::<u32, VouchData>::empty(),
        vote_data_for(empty_model(), id) is None,
        vouch_data_for(empty_model(), id) is None,
        next_page(empty_model()) is None,
        !empty_model().article.contains_key(tag),
        !empty_model().fail_login && !empty_model().fail_vote && !empty_model().fail_vouch,
{
}

/// A failure switch, once thrown, stays thrown: recording further calls
/// never clears it.
pub proof fn law_failure_switches_persist(m: FakeModel, c: CallRecord)
    ensures
        record(m, c).fail_login == m.fail_login,
        record(m, c).fail_vote == m.fail_vote,
        record(m, c).fail_vouch == m.fail_vouch,
        record(m, c).calls.len() == m.calls.len() + 1,
        record(m, c).calls.last() == c,
{
}

} // verus!
