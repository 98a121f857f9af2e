//! Fixed addresses and colours.

use vstd::prelude::*;

verus! {

/// Where the Hacker News API is served.
pub const HACKER_NEWS_API_BASE_URL: &'static str = "https://hacker-news.firebaseio.com";

/// Where the Hacker News site itself is served.
pub const Y_COMBINATOR_BASE_URL: &'static str = "https://news.ycombinator.com";

/// The escape sequence that switches the terminal to orange.
pub const ORANGE_COLOR: &'static str = "\x1b[38;5;208m";

/// How many detail requests may be outstanding at once.
pub const MAX_CONCURRENT_REQUESTS: usize = 5;

} // verus!
