//! Browse Hacker News stories from a terminal: the story catalog, the bounded
//! fetch pipeline and the navigation between the story list and a story's
//! actions, each stated as a contract and proved.

pub mod args;
pub mod client;
pub mod color;
pub mod constants;
pub mod helpers;
pub mod story;
pub mod text;
pub mod types;
pub mod ui;
