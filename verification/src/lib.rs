//! Daily habit tracking against a Notion workspace: the request bodies sent to
//! Notion, the reading of its replies, and the decisions of a daily run.

pub mod text;
pub mod json;
pub mod error;
pub mod config;
pub mod notion_client;
pub mod habits_md;
pub mod daily_tracking;
pub mod daily_habits;
pub mod retry;
