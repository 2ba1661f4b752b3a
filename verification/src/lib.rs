//! Verified core of the Hacker News terminal client: the in-memory test
//! double for the HN API, the credential-file rules, the paging limits,
//! and the text of the navigation chrome.

pub mod auth;
pub mod config;
pub mod fake;
pub mod harness;
pub mod model;
pub mod nav;
pub mod pattern;
pub mod screen;
pub mod store;
pub mod text;
pub mod toml_doc;
