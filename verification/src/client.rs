//! The fetch pipeline: one request for the ranked story identifiers, then one
//! request per story with a bound on how many are outstanding at once.
//!
//! The library decides which request comes next and what becomes of each
//! answer; whoever owns the network sends the requests that `StoryFetch::poll`
//! hands out and reports what came back.

use vstd::prelude::*;
use vstd::string::*;
use crate::constants::{HACKER_NEWS_API_BASE_URL, MAX_CONCURRENT_REQUESTS};
use crate::story::{story_views, HackerNewsStoryType, StoryItem, StoryView};
use crate::text::{append_decimal, decimal};
use crate::types::{ErrorView, HnError, HnResult};

verus! {

/// Hacker News API versions
#[derive(Clone, Copy, Debug, PartialEq, Eq, Structural)]
pub enum ApiVersion {
    V0,
}

impl ApiVersion {
    /// The path segment of a version.
    pub open spec fn path_text(self) -> Seq<char> {
        match self {
            ApiVersion::V0 => "v0"@,
        }
    }

    /// The path segment of this version.
    pub fn path(&self) -> (r: &'static str)
        ensures
            r@ == self.path_text(),
    {
        match self {
            ApiVersion::V0 => "v0",
        }
    }
}

/// The version used where none is named.
pub open spec fn version_or_default(version: Option<ApiVersion>) -> ApiVersion {
    match version {
        Some(version) => version,
        None => ApiVersion::V0,
    }
}

/// The address under which a version of the API is served, with its final
/// slash.
pub open spec fn base_url_text(version: ApiVersion) -> Seq<char> {
    HACKER_NEWS_API_BASE_URL@ + "/"@ + version.path_text() + "/"@
}

/// The address that lists at most `limit` identifiers of one story type, in
/// rank order.
pub open spec fn story_ids_url_text(base_url: Seq<char>, story_type: Seq<char>, limit: u16) -> Seq<
    char,
> {
    base_url + story_type + ".json?orderBy=\"$key\"&limitToFirst="@ + decimal(limit as nat)
}

/// The address of one story's record.
pub open spec fn story_item_url_text(base_url: Seq<char>, id: u64) -> Seq<char> {
    base_url + "item/"@ + decimal(id as nat) + ".json"@
}

/// Builds the address of the identifier list.
pub fn story_ids_url(base_url: &str, story_type: &str, limit: u16) -> (r: String)
    ensures
        r@ == story_ids_url_text(base_url@, story_type@, limit),
{
    let mut out: String = String::from_str(base_url);
    out.append(story_type);
    out.append(".json?orderBy=\"$key\"&limitToFirst=");
    append_decimal(&mut out, limit as u64);
    out
}

/// Builds the address of one story's record.
pub fn story_item_url(base_url: &str, id: u64) -> (r: String)
    ensures
        r@ == story_item_url_text(base_url@, id),
{
    let mut out: String = String::from_str(base_url);
    out.append("item/");
    append_decimal(&mut out, id);
    out.append(".json");
    out
}

/// Client for interacting with the Hacker News API
#[derive(Debug, Clone)]
pub struct HackerNewsClient {
    base_url: String,
}

impl View for HackerNewsClient {
    type V = Seq<char>;

    /// A client is the address it sends its requests to.
    closed spec fn view(&self) -> Seq<char> {
        self.base_url@
    }
}

impl HackerNewsClient {
    /// A client for the given version of the API, or for `V0` where none is
    /// named.
    pub fn new(version: Option<ApiVersion>) -> (r: Self)
        ensures
            r@ == base_url_text(version_or_default(version)),
    {
        let api_version: ApiVersion = match version {
            Some(version) => version,
            None => ApiVersion::V0,
        };
        let mut base_url: String = String::from_str(HACKER_NEWS_API_BASE_URL);
        base_url.append("/");
        base_url.append(api_version.path());
        base_url.append("/");
        HackerNewsClient { base_url }
    }

    /// The address that this client sends its requests to.
    pub fn base_url(&self) -> (r: &str)
        ensures
            r@ == self@,
    {
        self.base_url.as_str()
    }

    /// Starts the fetch of at most `limit` stories of one type. Nothing has
    /// been requested yet.
    pub fn fetch_stories(&self, story_type: &HackerNewsStoryType, limit: u16) -> (r: StoryFetch)
        ensures
            r@ == FetchView::start(self@, *story_type, limit),
            r@.wf(),
    {
        let ids_url: String = story_ids_url(
            self.base_url.as_str(),
            story_type.parameter_name(),
            limit,
        );
        let fetch: StoryFetch = StoryFetch {
            base_url: self.base_url.clone(),
            ids_url,
            limit,
            phase: FetchPhase::Start,
            ids: Vec::new(),
            issued: 0,
            outstanding: 0,
            stories: Vec::new(),
            dropped: 0,
            failure: String::new(),
        };
        assert(fetch@.ids =~= Seq::<u64>::empty());
        assert(fetch@.stories =~= Seq::<StoryView>::empty());
        assert(fetch@.failure =~= Seq::<char>::empty());
        fetch
    }
}

/// How far a fetch has come.
#[derive(Clone, Copy, Debug, PartialEq, Eq, Structural)]
pub enum FetchPhase {
    /// Nothing has been requested.
    Start,
    /// The identifier list has been requested and not yet answered.
    AwaitingIds,
    /// The identifier list is here; story records are requested and collected.
    Items,
    /// The identifier list could not be fetched: the whole fetch has failed.
    Failed,
}

/// What the owner of the network does next.
#[derive(Debug, Clone)]
pub enum FetchStep {
    /// Request the identifier list at this address, and report the answer
    /// with `ids_received`.
    RequestIds(String),
    /// Request the record of this story at this address, without waiting for
    /// it; report the answer with `item_received` when it arrives.
    RequestItem(u64, String),
    /// Wait for an outstanding request to be answered, and report the answer.
    Wait,
    /// Nothing more to do: take the result.
    Finished,
}

/// What a `FetchStep` holds, with each address as its characters.
pub enum StepView {
    RequestIds(Seq<char>),
    RequestItem(u64, Seq<char>),
    Wait,
    Finished,
}

impl View for FetchStep {
    type V = StepView;

    open spec fn view(&self) -> StepView {
        match *self {
            FetchStep::RequestIds(url) => StepView::RequestIds(url@),
            FetchStep::RequestItem(id, url) => StepView::RequestItem(id, url@),
            FetchStep::Wait => StepView::Wait,
            FetchStep::Finished => StepView::Finished,
        }
    }
}

/// A fetch as a value.
pub struct FetchView {
    /// Where the API is served.
    pub base_url: Seq<char>,
    /// The address of the identifier list.
    pub ids_url: Seq<char>,
    /// How many stories were asked for.
    pub limit: u16,
    pub phase: FetchPhase,
    /// The identifiers that the list request returned, in rank order.
    pub ids: Seq<u64>,
    /// How many story requests have been handed out: those for the first
    /// `issued` identifiers.
    pub issued: nat,
    /// How many story requests have been handed out and not yet answered.
    pub outstanding: nat,
    /// The stories that arrived, in the order of their arrival.
    pub stories: Seq<StoryView>,
    /// How many story requests failed.
    pub dropped: nat,
    /// The message of the failed list request.
    pub failure: Seq<char>,
}

impl FetchView {
    /// A fetch before its first request.
    pub open spec fn start(base_url: Seq<char>, story_type: HackerNewsStoryType, limit: u16) -> FetchView {
        FetchView {
            base_url,
            ids_url: story_ids_url_text(base_url, story_type.parameter_text(), limit),
            limit,
            phase: FetchPhase::Start,
            ids: seq![],
            issued: 0,
            outstanding: 0,
            stories: seq![],
            dropped: 0,
            failure: seq![],
        }
    }

    /// What holds of every fetch: no more requests are outstanding than the
    /// bound allows, every request handed out is outstanding, answered by a
    /// story or failed, and nothing is requested or collected before the
    /// identifier list is here.
    pub open spec fn wf(self) -> bool {
        &&& self.outstanding <= MAX_CONCURRENT_REQUESTS
        &&& self.issued <= self.ids.len()
        &&& self.stories.len() + self.dropped + self.outstanding == self.issued
        &&& self.phase != FetchPhase::Items ==> self.ids.len() == 0
        &&& self.phase != FetchPhase::Failed ==> self.failure.len() == 0
    }

    /// Whether a story request may be handed out now.
    pub open spec fn can_issue(self) -> bool {
        &&& self.phase == FetchPhase::Items
        &&& self.outstanding < MAX_CONCURRENT_REQUESTS
        &&& self.issued < self.ids.len()
    }

    /// Whether the fetch has its result: the list request failed, or every
    /// identifier was requested and every request answered.
    pub open spec fn finished(self) -> bool {
        ||| self.phase == FetchPhase::Failed
        ||| (self.phase == FetchPhase::Items && self.issued == self.ids.len() && self.outstanding
            == 0)
    }

    /// What to do next.
    pub open spec fn next_step(self) -> StepView {
        match self.phase {
            FetchPhase::Start => StepView::RequestIds(self.ids_url),
            FetchPhase::AwaitingIds => StepView::Wait,
            FetchPhase::Items => if self.can_issue() {
                StepView::RequestItem(
                    self.ids[self.issued as int],
                    story_item_url_text(self.base_url, self.ids[self.issued as int]),
                )
            } else if self.outstanding > 0 {
                StepView::Wait
            } else {
                StepView::Finished
            },
            FetchPhase::Failed => StepView::Finished,
        }
    }

    /// The fetch once `next_step` has been handed out.
    pub open spec fn advance(self) -> FetchView {
        match self.phase {
            FetchPhase::Start => FetchView { phase: FetchPhase::AwaitingIds, ..self },
            FetchPhase::Items => if self.can_issue() {
                FetchView { issued: self.issued + 1, outstanding: self.outstanding + 1, ..self }
            } else {
                self
            },
            _ => self,
        }
    }

    /// The fetch once the list request is answered. A failure fails the whole
    /// fetch. An answer that no request is waiting for changes nothing.
    pub open spec fn with_ids(self, answer: Result<Seq<u64>, Seq<char>>) -> FetchView {
        if self.phase == FetchPhase::AwaitingIds {
            match answer {
                Ok(ids) => FetchView { phase: FetchPhase::Items, ids, ..self },
                Err(message) => FetchView { phase: FetchPhase::Failed, failure: message, ..self },
            }
        } else {
            self
        }
    }

    /// The fetch once a story request is answered: a story joins the end of
    /// those that arrived, a failure is counted and otherwise forgotten. An
    /// answer that no request is waiting for changes nothing.
    pub open spec fn with_item(self, answer: Option<StoryView>) -> FetchView {
        if self.phase == FetchPhase::Items && self.outstanding > 0 {
            match answer {
                Some(story) => FetchView {
                    outstanding: (self.outstanding - 1) as nat,
                    stories: self.stories.push(story),
                    ..self
                },
                None => FetchView {
                    outstanding: (self.outstanding - 1) as nat,
                    dropped: self.dropped + 1,
                    ..self
                },
            }
        } else {
            self
        }
    }

    /// The result of the fetch: none before it has finished; the error of the
    /// list request if that failed; else the stories that arrived.
    pub open spec fn outcome(self) -> Option<Result<Seq<StoryView>, ErrorView>> {
        if !self.finished() {
            None
        } else if self.phase == FetchPhase::Failed {
            Some(Err(ErrorView::Transport(self.failure)))
        } else {
            Some(Ok(self.stories))
        }
    }
}

/// One thing that happens to a fetch.
pub enum FetchEvent {
    /// The next step is handed out.
    Poll,
    /// The list request is answered, by the identifiers or by the message of
    /// a failure.
    Ids(Result<Seq<u64>, Seq<char>>),
    /// A story request is answered, by the story or by a failure.
    Item(Option<StoryView>),
}

impl FetchView {
    /// The fetch after one event.
    pub open spec fn apply(self, event: FetchEvent) -> FetchView {
        match event {
            FetchEvent::Poll => self.advance(),
            FetchEvent::Ids(answer) => self.with_ids(answer),
            FetchEvent::Item(answer) => self.with_item(answer),
        }
    }

    /// The fetch after a run of events, the first of them first.
    pub open spec fn run(self, events: Seq<FetchEvent>) -> FetchView
        decreases events.len(),
    {
        if events.len() == 0 {
            self
        } else {
            self.run(events.drop_last()).apply(events.last())
        }
    }
}

/// A fetch starts well formed, and whatever happens to it, in whatever order,
/// it stays so.
pub proof fn lemma_run_keeps_wf(fetch: FetchView, events: Seq<FetchEvent>)
    requires
        fetch.wf(),
    ensures
        fetch.run(events).wf(),
    decreases events.len(),
{
    if events.len() > 0 {
        lemma_run_keeps_wf(fetch, events.drop_last());
    }
}

/// Whatever happens to a fetch, no more than five story requests are ever
/// outstanding at once.
pub proof fn lemma_outstanding_never_exceeds_bound(
    base_url: Seq<char>,
    story_type: HackerNewsStoryType,
    limit: u16,
    events: Seq<FetchEvent>,
)
    ensures
        FetchView::start(base_url, story_type, limit).run(events).outstanding <= 5,
{
    lemma_run_keeps_wf(FetchView::start(base_url, story_type, limit), events);
}

/// Whatever happens to a fetch, every story request handed out is either
/// outstanding, or failed, or answered by exactly one of the stories
/// collected. So once all have been answered, of `n` requests with `k`
/// failures exactly `n - k` stories are the result, and the failures alone
/// never make the fetch fail.
pub proof fn lemma_failures_only_shorten_result(
    base_url: Seq<char>,
    story_type: HackerNewsStoryType,
    limit: u16,
    events: Seq<FetchEvent>,
)
    ensures
        ({
            let fetch = FetchView::start(base_url, story_type, limit).run(events);
            &&& fetch.stories.len() == fetch.issued - fetch.outstanding - fetch.dropped
            &&& fetch.phase == FetchPhase::Items && fetch.finished() ==> {
                &&& fetch.issued == fetch.ids.len()
                &&& fetch.stories.len() == fetch.ids.len() - fetch.dropped
                &&& fetch.outcome() == Some(
                    Ok::<Seq<StoryView>, ErrorView>(fetch.stories),
                )
            }
        }),
{
    lemma_run_keeps_wf(FetchView::start(base_url, story_type, limit), events);
}

/// Whatever happens to a fetch, it never holds more stories than the list
/// request returned identifiers; so where that list kept to the limit asked
/// for, the stories do too.
pub proof fn lemma_result_within_bounds(
    base_url: Seq<char>,
    story_type: HackerNewsStoryType,
    limit: u16,
    events: Seq<FetchEvent>,
)
    ensures
        ({
            let fetch = FetchView::start(base_url, story_type, limit).run(events);
            &&& fetch.stories.len() <= fetch.ids.len()
            &&& fetch.limit == limit
            &&& fetch.ids.len() <= limit ==> fetch.stories.len() <= limit
        }),
{
    let start = FetchView::start(base_url, story_type, limit);
    lemma_run_keeps_wf(start, events);
    lemma_run_keeps_settings(start, events);
}

/// Nothing that happens to a fetch changes where it sends its requests or how
/// many stories it asks for.
pub proof fn lemma_run_keeps_settings(fetch: FetchView, events: Seq<FetchEvent>)
    ensures
        fetch.run(events).base_url == fetch.base_url,
        fetch.run(events).ids_url == fetch.ids_url,
        fetch.run(events).limit == fetch.limit,
    decreases events.len(),
{
    if events.len() > 0 {
        lemma_run_keeps_settings(fetch, events.drop_last());
    }
}

/// Once the list request has failed, the fetch has failed for good: whatever
/// happens afterwards, its result is the error of that request, the next step
/// is to take the result, and no story request is ever handed out.
pub proof fn lemma_failed_list_request_ends_fetch(
    fetch: FetchView,
    message: Seq<char>,
    events: Seq<FetchEvent>,
)
    requires
        fetch.wf(),
        fetch.phase == FetchPhase::AwaitingIds,
    ensures
        ({
            let failed = fetch.with_ids(Err(message));
            &&& failed.run(events) == failed
            &&& failed.issued == 0
            &&& failed.next_step() == StepView::Finished
            &&& failed.outcome() == Some(
                Err::<Seq<StoryView>, ErrorView>(ErrorView::Transport(message)),
            )
        }),
    decreases events.len(),
{
    if events.len() > 0 {
        lemma_failed_list_request_ends_fetch(fetch, message, events.drop_last());
    }
}

/// The identifiers or the message of an answer to the list request.
pub open spec fn ids_answer_view(answer: Result<Vec<u64>, String>) -> Result<Seq<u64>, Seq<char>> {
    match answer {
        Ok(ids) => Ok(ids@),
        Err(message) => Err(message@),
    }
}

/// The story of an answer to a story request, if it brought one.
pub open spec fn item_answer_view(answer: Option<StoryItem>) -> Option<StoryView> {
    match answer {
        Some(story) => Some(story@),
        None => None,
    }
}

/// What a result of a fetch holds.
pub open spec fn outcome_view(outcome: Option<HnResult<Vec<StoryItem>>>) -> Option<
    Result<Seq<StoryView>, ErrorView>,
> {
    match outcome {
        None => None,
        Some(Ok(stories)) => Some(Ok(story_views(stories@))),
        Some(Err(error)) => Some(Err(error@)),
    }
}

/// One fetch of stories, from the first request to the result.
pub struct StoryFetch {
    base_url: String,
    ids_url: String,
    limit: u16,
    phase: FetchPhase,
    ids: Vec<u64>,
    issued: usize,
    outstanding: usize,
    stories: Vec<StoryItem>,
    dropped: usize,
    failure: String,
}

impl View for StoryFetch {
    type V = FetchView;

    closed spec fn view(&self) -> FetchView {
        FetchView {
            base_url: self.base_url@,
            ids_url: self.ids_url@,
            limit: self.limit,
            phase: self.phase,
            ids: self.ids@,
            issued: self.issued as nat,
            outstanding: self.outstanding as nat,
            stories: story_views(self.stories@),
            dropped: self.dropped as nat,
            failure: self.failure@,
        }
    }
}

impl StoryFetch {
    /// Hands out the next thing to do, and counts a story request as
    /// outstanding from then on.
    pub fn poll(&mut self) -> (step: FetchStep)
        requires
            old(self)@.wf(),
        ensures
            step@ == old(self)@.next_step(),
            final(self)@ == old(self)@.advance(),
            final(self)@.wf(),
    {
        match self.phase {
            FetchPhase::Start => {
                self.phase = FetchPhase::AwaitingIds;
                FetchStep::RequestIds(self.ids_url.clone())
            },
            FetchPhase::AwaitingIds => FetchStep::Wait,
            FetchPhase::Items => {
                if self.outstanding < MAX_CONCURRENT_REQUESTS && self.issued < self.ids.len() {
                    let id: u64 = self.ids[self.issued];
                    let url: String = story_item_url(self.base_url.as_str(), id);
                    self.issued = self.issued + 1;
                    self.outstanding = self.outstanding + 1;
                    FetchStep::RequestItem(id, url)
                } else if self.outstanding > 0 {
                    FetchStep::Wait
                } else {
                    FetchStep::Finished
                }
            },
            FetchPhase::Failed => FetchStep::Finished,
        }
    }

    /// Takes the answer to the list request.
    pub fn ids_received(&mut self, answer: Result<Vec<u64>, String>)
        requires
            old(self)@.wf(),
        ensures
            final(self)@ == old(self)@.with_ids(ids_answer_view(answer)),
            final(self)@.wf(),
    {
        match self.phase {
            FetchPhase::AwaitingIds => {
                match answer {
                    Ok(ids) => {
                        self.ids = ids;
                        self.phase = FetchPhase::Items;
                    },
                    Err(message) => {
                        self.failure = message;
                        self.phase = FetchPhase::Failed;
                    },
                }
            },
            _ => {},
        }
    }

    /// Takes the answer to one story request.
    pub fn item_received(&mut self, answer: Option<StoryItem>)
        requires
            old(self)@.wf(),
        ensures
            final(self)@ == old(self)@.with_item(item_answer_view(answer)),
            final(self)@.wf(),
    {
        if self.phase == FetchPhase::Items && self.outstanding > 0 {
            match answer {
                Some(story) => {
                    self.stories.push(story);
                    self.outstanding = self.outstanding - 1;
                    assert(story_views(self.stories@) =~= story_views(old(self).stories@).push(
                        story@,
                    ));
                },
                None => {
                    self.dropped = self.dropped + 1;
                    self.outstanding = self.outstanding - 1;
                },
            }
        }
    }

    /// How many story requests are outstanding.
    pub fn outstanding(&self) -> (r: usize)
        ensures
            r == self@.outstanding,
    {
        self.outstanding
    }

    /// How many story requests have been handed out.
    pub fn issued(&self) -> (r: usize)
        ensures
            r == self@.issued,
    {
        self.issued
    }

    /// Whether the fetch has its result.
    pub fn is_finished(&self) -> (r: bool)
        ensures
            r == self@.finished(),
    {
        match self.phase {
            FetchPhase::Failed => true,
            FetchPhase::Items => self.issued == self.ids.len() && self.outstanding == 0,
            _ => false,
        }
    }

    /// Ends the fetch and hands out its result, or nothing if it has not
    /// finished.
    pub fn into_result(self) -> (r: Option<HnResult<Vec<StoryItem>>>)
        ensures
            outcome_view(r) == self@.outcome(),
    {
        if !self.is_finished() {
            None
        } else if self.phase == FetchPhase::Failed {
            Some(Err(HnError::Transport(self.failure)))
        } else {
            Some(Ok(self.stories))
        }
    }
}

} // verus!
