//! Data carried between the HN client and the views: stories, pages,
//! articles and per-item vote/vouch state.

use vstd::prelude::*;

use crate::text::clone_opt_string;

verus! {

/// A story as listed on a story page or in search results.
#[derive(Debug)]
pub struct Story {
    pub id: u32,
    pub url: String,
    pub author: String,
    pub points: u32,
    pub num_comments: usize,
    pub time: u64,
    pub title: String,
    pub content: String,
    pub dead: bool,
    pub flagged: bool,
}

impl Clone for Story {
    fn clone(&self) -> (r: Self)
        ensures
            r == *self,
    {
        Story {
            id: self.id,
            url: self.url.clone(),
            author: self.author.clone(),
            points: self.points,
            num_comments: self.num_comments,
            time: self.time,
            title: self.title.clone(),
            content: self.content.clone(),
            dead: self.dead,
            flagged: self.flagged,
        }
    }
}

/// Everything the comment view needs to render one item page.
#[derive(Debug)]
pub struct PageData {
    pub title: String,
    pub url: String,
    pub root_item_id: u32,
    pub comment_ids: Vec<u32>,
}

/// A readable version of a linked web page, as produced by the
/// article-parse command.
#[derive(Debug)]
pub struct Article {
    pub title: String,
    pub url: String,
    pub content: String,
    pub author: Option<String>,
    pub date_published: Option<String>,
}

impl Clone for Article {
    fn clone(&self) -> (r: Self)
        ensures
            r == *self,
    {
        Article {
            title: self.title.clone(),
            url: self.url.clone(),
            content: self.content.clone(),
            author: clone_opt_string(&self.author),
            date_published: clone_opt_string(&self.date_published),
        }
    }
}

/// The logged-in user's vote on an item, with the auth token HN embeds
/// in the vote links.
#[derive(Debug)]
pub struct VoteData {
    pub auth: String,
    pub upvoted: bool,
    pub downvoted: bool,
}

impl Clone for VoteData {
    fn clone(&self) -> (r: Self)
        ensures
            r == *self,
    {
        VoteData { auth: self.auth.clone(), upvoted: self.upvoted, downvoted: self.downvoted }
    }
}

/// The logged-in user's vouch state on a dead item.
#[derive(Debug)]
pub struct VouchData {
    pub auth: String,
    pub vouched: bool,
}

impl Clone for VouchData {
    fn clone(&self) -> (r: Self)
        ensures
            r == *self,
    {
        VouchData { auth: self.auth.clone(), vouched: self.vouched }
    }
}

/// Direction of a vote.
#[derive(Debug, Clone, Copy, PartialEq, Eq, Structural, Hash)]
pub enum VoteDirection {
    Up,
    Down,
}

/// Order of a story listing.
#[derive(Debug, Clone, Copy, PartialEq, Eq, Structural, Hash)]
pub enum StorySortMode {
    Unsorted,
    Date,
    Points,
}

/// An optional lower and upper bound on a numeric story attribute.
#[derive(Debug, Clone, Copy, PartialEq, Eq, Structural)]
pub struct FilterInterval {
    pub start: Option<u32>,
    pub end: Option<u32>,
}

impl Default for FilterInterval {
    fn default() -> (r: Self)
        ensures
            r.start is None,
            r.end is None,
    {
        FilterInterval { start: None, end: None }
    }
}

/// Numeric filters applied to a story listing.
#[derive(Debug, Clone, Copy, PartialEq, Eq, Structural)]
pub struct StoryNumericFilters {
    pub elapsed_days_interval: FilterInterval,
    pub points_interval: FilterInterval,
    pub num_comments_interval: FilterInterval,
}

impl Default for StoryNumericFilters {
    fn default() -> (r: Self)
        ensures
            r.elapsed_days_interval.start is None,
            r.elapsed_days_interval.end is None,
            r.points_interval.start is None,
            r.points_interval.end is None,
            r.num_comments_interval.start is None,
            r.num_comments_interval.end is None,
    {
        StoryNumericFilters {
            elapsed_days_interval: FilterInterval::default(),
            points_interval: FilterInterval::default(),
            num_comments_interval: FilterInterval::default(),
        }
    }
}

/// The logged-in user as shown in the title bar.
#[derive(Debug)]
pub struct UserInfo {
    pub username: String,
    pub karma: Option<u32>,
}

} // verus!
