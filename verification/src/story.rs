//! The story catalog, a story record, and the text shown for each.

use vstd::prelude::*;
use vstd::string::*;
use crate::color::{ansi_code, color_value, Tone};
use crate::constants::{ORANGE_COLOR, Y_COMBINATOR_BASE_URL};
use crate::text::{append_decimal, append_signed_decimal, decimal, decimal_text, signed_decimal};

verus! {

/// Hacker News story type (new, top, best, ask, show, jobs)
#[derive(Clone, Copy, Debug, PartialEq, Eq, Structural)]
pub enum HackerNewsStoryType {
    N,
    T,
    B,
    A,
    S,
    J,
}

impl HackerNewsStoryType {
    /// The display name of each story type.
    pub open spec fn name_text(self) -> Seq<char> {
        match self {
            HackerNewsStoryType::N => "New"@,
            HackerNewsStoryType::T => "Top"@,
            HackerNewsStoryType::B => "Best"@,
            HackerNewsStoryType::A => "Ask"@,
            HackerNewsStoryType::S => "Show"@,
            HackerNewsStoryType::J => "Jobs"@,
        }
    }

    /// The path segment under which the API lists each story type.
    pub open spec fn parameter_text(self) -> Seq<char> {
        match self {
            HackerNewsStoryType::N => "newstories"@,
            HackerNewsStoryType::T => "topstories"@,
            HackerNewsStoryType::B => "beststories"@,
            HackerNewsStoryType::A => "askstories"@,
            HackerNewsStoryType::S => "showstories"@,
            HackerNewsStoryType::J => "jobstories"@,
        }
    }

    /// How many stories of each type may be asked for: 500 of new, top and
    /// best, 200 of the others.
    pub open spec fn max_limit(self) -> u16 {
        match self {
            HackerNewsStoryType::N | HackerNewsStoryType::T | HackerNewsStoryType::B => 500u16,
            HackerNewsStoryType::A | HackerNewsStoryType::S | HackerNewsStoryType::J => 200u16,
        }
    }

    /// Get the full name of the story kind
    pub fn full_name(&self) -> (r: &str)
        ensures
            r@ == self.name_text(),
    {
        match self {
            HackerNewsStoryType::N => "New",
            HackerNewsStoryType::T => "Top",
            HackerNewsStoryType::B => "Best",
            HackerNewsStoryType::A => "Ask",
            HackerNewsStoryType::S => "Show",
            HackerNewsStoryType::J => "Jobs",
        }
    }

    /// Get the parameter name for the story kind
    pub fn parameter_name(&self) -> (r: &str)
        ensures
            r@ == self.parameter_text(),
    {
        match self {
            HackerNewsStoryType::N => "newstories",
            HackerNewsStoryType::T => "topstories",
            HackerNewsStoryType::B => "beststories",
            HackerNewsStoryType::A => "askstories",
            HackerNewsStoryType::S => "showstories",
            HackerNewsStoryType::J => "jobstories",
        }
    }

    /// Get the maximum story limit for the story kind
    pub fn max_stories_limit(&self) -> (r: u16)
        ensures
            r == self.max_limit(),
    {
        match self {
            HackerNewsStoryType::N | HackerNewsStoryType::T | HackerNewsStoryType::B => 500,
            _ => 200,
        }
    }
}

/// The address of a story's page on the Hacker News site.
pub open spec fn story_page(id: u64) -> Seq<char> {
    Y_COMBINATOR_BASE_URL@ + "/item?id="@ + decimal(id as nat)
}

/// The address of an author's page on the Hacker News site.
pub open spec fn author_page(author: Seq<char>) -> Seq<char> {
    Y_COMBINATOR_BASE_URL@ + "/user?id="@ + author
}

/// Builds the address of a story's page.
pub fn story_page_url(id: u64) -> (r: String)
    ensures
        r@ == story_page(id),
{
    let mut out: String = String::from_str(Y_COMBINATOR_BASE_URL);
    out.append("/item?id=");
    append_decimal(&mut out, id);
    out
}

/// Builds the address of an author's page.
pub fn author_page_url(author: &str) -> (r: String)
    ensures
        r@ == author_page(author@),
{
    let mut out: String = String::from_str(Y_COMBINATOR_BASE_URL);
    out.append("/user?id=");
    out.append(author);
    out
}

/// Actions available to the user when interacting with a story item
#[derive(Debug, Clone)]
pub enum StoryAction {
    OpenUrl(String),
    ViewStoryItem(u64),
    ViewAuthor(String),
    Back,
}

/// What a `StoryAction` holds, with each string as its characters.
pub enum ActionView {
    OpenUrl(Seq<char>),
    ViewStoryItem(u64),
    ViewAuthor(Seq<char>),
    Back,
}

impl ActionView {
    /// The menu line of an action.
    pub open spec fn label(self) -> Seq<char> {
        match self {
            ActionView::OpenUrl(url) => "Open URL: "@ + url,
            ActionView::ViewStoryItem(id) => "View story on Hacker News: "@ + story_page(id),
            ActionView::ViewAuthor(author) => "View author on Hacker News: "@ + author_page(
                author,
            ),
            ActionView::Back => "<- Back"@,
        }
    }

    /// The address that an action opens; `Back` opens none.
    pub open spec fn target(self) -> Option<Seq<char>> {
        match self {
            ActionView::OpenUrl(url) => Some(url),
            ActionView::ViewStoryItem(id) => Some(story_page(id)),
            ActionView::ViewAuthor(author) => Some(author_page(author)),
            ActionView::Back => None,
        }
    }
}

impl View for StoryAction {
    type V = ActionView;

    open spec fn view(&self) -> ActionView {
        match *self {
            StoryAction::OpenUrl(url) => ActionView::OpenUrl(url@),
            StoryAction::ViewStoryItem(id) => ActionView::ViewStoryItem(id),
            StoryAction::ViewAuthor(author) => ActionView::ViewAuthor(author@),
            StoryAction::Back => ActionView::Back,
        }
    }
}

impl StoryAction {
    /// Formats the action for readable output
    pub fn label(&self) -> (r: String)
        ensures
            r@ == self@.label(),
    {
        match self {
            StoryAction::OpenUrl(url) => {
                let mut out: String = String::from_str("Open URL: ");
                out.append(url.as_str());
                out
            },
            StoryAction::ViewStoryItem(id) => {
                let mut out: String = String::from_str("View story on Hacker News: ");
                let page: String = story_page_url(*id);
                out.append(page.as_str());
                out
            },
            StoryAction::ViewAuthor(author) => {
                let mut out: String = String::from_str("View author on Hacker News: ");
                let page: String = author_page_url(author.as_str());
                out.append(page.as_str());
                out
            },
            StoryAction::Back => String::from_str("<- Back"),
        }
    }

    /// The address to hand to the browser for this action, if it opens one.
    pub fn target(&self) -> (r: Option<String>)
        ensures
            text_view(r) == self@.target(),
    {
        match self {
            StoryAction::OpenUrl(url) => Some(url.clone()),
            StoryAction::ViewStoryItem(id) => Some(story_page_url(*id)),
            StoryAction::ViewAuthor(author) => Some(author_page_url(author.as_str())),
            StoryAction::Back => None,
        }
    }
}

/// What each action of a menu holds.
pub open spec fn action_views(actions: Seq<StoryAction>) -> Seq<ActionView> {
    actions.map_values(|action: StoryAction| action@)
}

/// Hacker News story item
#[derive(Debug, Clone)]
pub struct StoryItem {
    pub id: u64,
    pub by: Option<String>,
    pub url: Option<String>,
    pub score: Option<i32>,
    pub title: Option<String>,
}

/// What a `StoryItem` holds, with each string as its characters.
pub struct StoryView {
    pub id: u64,
    pub by: Option<Seq<char>>,
    pub url: Option<Seq<char>>,
    pub score: Option<i32>,
    pub title: Option<Seq<char>>,
}

/// The characters of an optional string.
pub open spec fn text_view(field: Option<String>) -> Option<Seq<char>> {
    match field {
        Some(s) => Some(s@),
        None => None,
    }
}

/// The characters of an optional field, or `fallback` where it is missing.
pub open spec fn text_or(field: Option<Seq<char>>, fallback: Seq<char>) -> Seq<char> {
    match field {
        Some(s) => s,
        None => fallback,
    }
}

impl StoryView {
    /// The score shown for a story: zero where it has none.
    pub open spec fn shown_score(self) -> int {
        match self.score {
            Some(score) => score as int,
            None => 0,
        }
    }

    /// The unit after the score: singular only for a score of exactly one.
    pub open spec fn points_text(self) -> Seq<char> {
        if self.shown_score() == 1 {
            "point"@
        } else {
            "points"@
        }
    }

    /// Score, unit and author as both story texts show them.
    pub open spec fn score_text(self) -> Seq<char> {
        signed_decimal(self.shown_score()) + " "@ + self.points_text() + " by "@ + text_or(
            self.by,
            "Unknown"@,
        )
    }

    /// The line of a story in the list, under the given 1-based index.
    pub open spec fn list_line(self, index: nat) -> Seq<char> {
        decimal(index) + ". "@ + text_or(self.title, "No Title"@) + " ("@ + text_or(
            self.url,
            "No URL"@,
        ) + ") ["@ + self.score_text() + "]"@
    }

    /// The actions on offer for a story, in menu order: opening its address if
    /// it has one, its page on Hacker News, its author's page if it names an
    /// author, and going back.
    pub open spec fn actions(self) -> Seq<ActionView> {
        let open = match self.url {
            Some(url) => seq![ActionView::OpenUrl(url)],
            None => seq![],
        };
        let author = match self.by {
            Some(by) => seq![ActionView::ViewAuthor(by)],
            None => seq![],
        };
        open + seq![ActionView::ViewStoryItem(self.id)] + author + seq![ActionView::Back]
    }

    /// The heading above a story's actions.
    pub open spec fn details_header(self) -> Seq<char> {
        ORANGE_COLOR@ + text_or(self.title, "No Title"@) + " ["@ + self.score_text()
            + "]. What would you like to do?"@ + ansi_code(Tone::Reset)
    }
}

impl View for StoryItem {
    type V = StoryView;

    open spec fn view(&self) -> StoryView {
        StoryView {
            id: self.id,
            by: text_view(self.by),
            url: text_view(self.url),
            score: self.score,
            title: text_view(self.title),
        }
    }
}

/// What each story of a collection holds.
pub open spec fn story_views(stories: Seq<StoryItem>) -> Seq<StoryView> {
    stories.map_values(|story: StoryItem| story@)
}

/// The text of an optional field, or `fallback` where it is missing.
fn field_or<'a>(field: &'a Option<String>, fallback: &'a str) -> (r: &'a str)
    ensures
        r@ == text_or(text_view(*field), fallback@),
{
    match field {
        Some(s) => s.as_str(),
        None => fallback,
    }
}

impl StoryItem {
    /// Get plural or singular `points` label for the story's score
    pub fn get_points_text(&self) -> (r: String)
        ensures
            r@ == self@.points_text(),
    {
        let score: i32 = match self.score {
            Some(score) => score,
            None => 0,
        };
        let suffix: &str = if score == 1 {
            ""
        } else {
            "s"
        };
        let mut out: String = String::from_str("point");
        out.append(suffix);
        proof {
            reveal_strlit("");
            reveal_strlit("s");
            reveal_strlit("point");
            reveal_strlit("points");
            assert(out@ =~= self@.points_text());
        }
        out
    }

    /// Appends score, unit and author to `out`.
    fn append_score_text(&self, out: &mut String)
        ensures
            final(out)@ == old(out)@ + self@.score_text(),
    {
        let score: i32 = match self.score {
            Some(score) => score,
            None => 0,
        };
        let mut part: String = String::new();
        append_signed_decimal(&mut part, score);
        part.append(" ");
        let points: String = self.get_points_text();
        part.append(points.as_str());
        part.append(" by ");
        part.append(field_or(&self.by, "Unknown"));
        assert(part@ =~= self@.score_text());
        out.append(part.as_str());
    }

    /// Formats Hacker News story item for display within a list
    pub fn format_for_list(&self, index: usize) -> (r: String)
        ensures
            r@ == self@.list_line(index as nat),
    {
        let mut out: String = decimal_text(index as u64);
        out.append(". ");
        out.append(field_or(&self.title, "No Title"));
        out.append(" (");
        out.append(field_or(&self.url, "No URL"));
        out.append(") [");
        self.append_score_text(&mut out);
        out.append("]");
        out
    }

    /// Builds the menu of actions for this story.
    pub fn actions(&self) -> (r: Vec<StoryAction>)
        ensures
            action_views(r@) == self@.actions(),
    {
        let mut actions: Vec<StoryAction> = Vec::new();
        if let Some(url) = &self.url {
            actions.push(StoryAction::OpenUrl(url.clone()));
        }
        actions.push(StoryAction::ViewStoryItem(self.id));
        if let Some(by) = &self.by {
            actions.push(StoryAction::ViewAuthor(by.clone()));
        }
        actions.push(StoryAction::Back);
        assert(action_views(actions@) =~= self@.actions());
        actions
    }

    /// Formats Hacker News story item for the detailed view of the item
    pub fn format_for_details_header(&self) -> (r: String)
        ensures
            r@ == self@.details_header(),
    {
        let mut out: String = String::from_str(ORANGE_COLOR);
        out.append(field_or(&self.title, "No Title"));
        out.append(" [");
        self.append_score_text(&mut out);
        out.append("]. What would you like to do?");
        out.append(color_value(Tone::Reset));
        out
    }
}

/// The unit after the score is singular exactly for a score of one, and
/// plural for every other score and for a story without one.
pub proof fn lemma_singular_only_for_score_one(story: StoryView)
    ensures
        story.points_text() == "point"@ <==> story.score == Some(1i32),
        story.points_text() == "points"@ <==> story.score != Some(1i32),
{
    reveal_strlit("point");
    reveal_strlit("points");
    assert("point"@.len() != "points"@.len());
}

/// A story without address and author offers exactly its page and the way
/// back; one with both offers all four actions; and whatever a story holds,
/// its menu ends with the way back and has no other.
pub proof fn lemma_actions_shape(story: StoryView)
    ensures
        story.actions().len() == 2 + (if story.url is Some {
            1int
        } else {
            0int
        }) + (if story.by is Some {
            1int
        } else {
            0int
        }),
        story.actions().last() == ActionView::Back,
        forall|i: int| 0 <= i < story.actions().len() - 1 ==> story.actions()[i] != ActionView::Back,
        story.url is None && story.by is None ==> story.actions() == seq![
            ActionView::ViewStoryItem(story.id),
            ActionView::Back,
        ],
        story.url is Some && story.by is Some ==> story.actions() == seq![
            ActionView::OpenUrl(story.url.unwrap()),
            ActionView::ViewStoryItem(story.id),
            ActionView::ViewAuthor(story.by.unwrap()),
            ActionView::Back,
        ],
{
    if story.url is None && story.by is None {
        assert(story.actions() =~= seq![ActionView::ViewStoryItem(story.id), ActionView::Back]);
    }
    if story.url is Some && story.by is Some {
        assert(story.actions() =~= seq![
            ActionView::OpenUrl(story.url.unwrap()),
            ActionView::ViewStoryItem(story.id),
            ActionView::ViewAuthor(story.by.unwrap()),
            ActionView::Back,
        ]);
    }
}

} // verus!
