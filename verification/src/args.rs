//! What a run asks for, and what to do at each point of it.
//!
//! A run validates the request, fetches, and browses what came back. The
//! library decides at each point; fetching and the terminal belong to the
//! caller.

use vstd::prelude::*;
use vstd::string::*;
use crate::story::{story_views, HackerNewsStoryType, StoryItem, StoryView};
use crate::text::{append_decimal, decimal, occurs_in};
use crate::types::{ErrorView, HnError, HnResult};

verus! {

/// Command line arguments for interactively fetching, browsing, and opening Hacker News stories
#[derive(Clone, Copy, Debug)]
pub struct Args {
    /// Story type (top, new, best, ask, show, job)
    pub story: HackerNewsStoryType,
    /// The number of stories to fetch and display in the terminal UI
    pub limit: u16,
}

/// What to do once the fetch has returned.
#[derive(Debug, Clone)]
pub enum RunStep {
    /// Fail with this error.
    Fail(HnError),
    /// Say that nothing was found, with this line, and end successfully.
    NothingFound(String),
    /// Browse these stories.
    Browse(Vec<StoryItem>),
}

/// What a `RunStep` holds.
pub enum RunStepView {
    Fail(ErrorView),
    NothingFound(Seq<char>),
    Browse(Seq<StoryView>),
}

impl View for RunStep {
    type V = RunStepView;

    open spec fn view(&self) -> RunStepView {
        match *self {
            RunStep::Fail(error) => RunStepView::Fail(error@),
            RunStep::NothingFound(line) => RunStepView::NothingFound(line@),
            RunStep::Browse(stories) => RunStepView::Browse(story_views(stories@)),
        }
    }
}

/// The message for a limit above what a story type allows.
pub open spec fn limit_message(story: HackerNewsStoryType) -> Seq<char> {
    "Max story limit for '"@ + story.name_text() + "' stories is "@ + decimal(
        story.max_limit() as nat,
    )
}

/// The line shown while stories are fetched.
pub open spec fn loading_message_text(story: HackerNewsStoryType) -> Seq<char> {
    "Fetching "@ + story.name_text() + " stories...please wait"@
}

/// The line shown where a fetch brought no story.
pub open spec fn empty_message_text(story: HackerNewsStoryType) -> Seq<char> {
    "No "@ + story.name_text() + " stories found to display"@
}

/// What a fetch returned, as values.
pub open spec fn fetched_view(fetched: HnResult<Vec<StoryItem>>) -> Result<
    Seq<StoryView>,
    ErrorView,
> {
    match fetched {
        Ok(stories) => Ok(story_views(stories@)),
        Err(error) => Err(error@),
    }
}

/// What follows a fetch: its error fails the run, no story ends it with a
/// notice, and stories are browsed.
pub open spec fn step_after_fetch(
    story: HackerNewsStoryType,
    fetched: Result<Seq<StoryView>, ErrorView>,
) -> RunStepView {
    match fetched {
        Err(error) => RunStepView::Fail(error),
        Ok(stories) => if stories.len() == 0 {
            RunStepView::NothingFound(empty_message_text(story))
        } else {
            RunStepView::Browse(stories)
        },
    }
}

/// The error of a result, if it is one.
pub open spec fn error_view(result: HnResult<()>) -> Option<ErrorView> {
    match result {
        Ok(_) => None,
        Err(error) => Some(error@),
    }
}

impl Args {
    /// Why a request is refused, if it is: a limit up to the maximum of its
    /// story type passes, one above it is refused with `limit_message`.
    pub open spec fn refusal(self) -> Option<ErrorView> {
        if self.limit > self.story.max_limit() {
            Some(ErrorView::Validation(limit_message(self.story)))
        } else {
            None
        }
    }

    /// Checks the limit against what the story type allows.
    pub fn validate(&self) -> (r: HnResult<()>)
        ensures
            error_view(r) == self.refusal(),
    {
        let max_limit: u16 = self.story.max_stories_limit();
        if self.limit > max_limit {
            let mut message: String = String::from_str("Max story limit for '");
            message.append(self.story.full_name());
            message.append("' stories is ");
            append_decimal(&mut message, max_limit as u64);
            return Err(HnError::Validation(message));
        }
        Ok(())
    }

    /// The line to show while the stories are fetched.
    pub fn loading_message(&self) -> (r: String)
        ensures
            r@ == loading_message_text(self.story),
    {
        let mut out: String = String::from_str("Fetching ");
        out.append(self.story.full_name());
        out.append(" stories...please wait");
        out
    }

    /// Decides what follows the fetch.
    pub fn after_fetch(&self, fetched: HnResult<Vec<StoryItem>>) -> (r: RunStep)
        ensures
            r@ == step_after_fetch(self.story, fetched_view(fetched)),
    {
        match fetched {
            Err(error) => RunStep::Fail(error),
            Ok(stories) => {
                if stories.len() == 0 {
                    let mut line: String = String::from_str("No ");
                    line.append(self.story.full_name());
                    line.append(" stories found to display");
                    RunStep::NothingFound(line)
                } else {
                    RunStep::Browse(stories)
                }
            },
        }
    }
}

/// For every story type, a limit above its maximum is refused, by a
/// validation error whose message holds the words `Max story limit`.
pub proof fn lemma_limit_above_maximum_is_refused(args: Args)
    requires
        args.limit > args.story.max_limit(),
    ensures
        args.refusal() is Some,
        args.refusal().unwrap() is Validation,
        occurs_in("Max story limit"@, args.refusal().unwrap().message()),
{
    reveal_strlit("Max story limit");
    reveal_strlit("Max story limit for '");
    let message = limit_message(args.story);
    assert(message.subrange(0, 0int + "Max story limit"@.len()) =~= "Max story limit"@);
}

} // verus!
