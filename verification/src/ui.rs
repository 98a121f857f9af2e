//! Navigation between the story list and the actions of one story.
//!
//! The library decides; whoever owns the terminal shows what `Navigation`
//! asks for, reports the user's choice as a `NavEvent`, and opens the address
//! that `step` hands back.

use vstd::prelude::*;
use vstd::string::*;
use crate::story::{
    action_views, lemma_actions_shape, story_views, text_view, ActionView, HackerNewsStoryType,
    StoryAction, StoryItem, StoryView,
};

verus! {

/// What the terminal shows.
#[derive(Clone, Copy, Debug, PartialEq, Eq, Structural)]
pub enum Screen {
    /// The list of all stories.
    ListView,
    /// The actions of the story at this position of the list.
    DetailView(usize),
    /// Nothing more: the session has ended.
    Terminal,
}

/// What the user did with the menu on screen.
#[derive(Clone, Copy, Debug, PartialEq, Eq, Structural)]
pub enum NavEvent {
    /// Chose the entry at this position, counted from zero.
    Select(usize),
    /// Left the menu without choosing.
    Cancel,
}

/// A browsing session as a value: the stories and the screen.
pub struct NavigationView {
    pub stories: Seq<StoryView>,
    pub screen: Screen,
}

impl NavigationView {
    /// A detail view always shows a story of the list.
    pub open spec fn wf(self) -> bool {
        match self.screen {
            Screen::DetailView(i) => i < self.stories.len(),
            _ => true,
        }
    }

    /// The actions on the menu: those of the story in the detail view, and
    /// none on any other screen.
    pub open spec fn menu(self) -> Seq<ActionView> {
        match self.screen {
            Screen::DetailView(i) => self.stories[i as int].actions(),
            _ => seq![],
        }
    }

    /// The action that an event picks from the menu, if any.
    pub open spec fn chosen(self, event: NavEvent) -> Option<ActionView> {
        match event {
            NavEvent::Select(a) => if a < self.menu().len() {
                Some(self.menu()[a as int])
            } else {
                None
            },
            NavEvent::Cancel => None,
        }
    }

    /// The screen after an event. From the list, a choice enters that story's
    /// detail view and a cancel ends the session. From a detail view only the
    /// way back leaves, to the list. Events that mean nothing on the current
    /// screen leave it as it is.
    pub open spec fn next_screen(self, event: NavEvent) -> Screen {
        match self.screen {
            Screen::ListView => match event {
                NavEvent::Select(i) => if i < self.stories.len() {
                    Screen::DetailView(i)
                } else {
                    Screen::ListView
                },
                NavEvent::Cancel => Screen::Terminal,
            },
            Screen::DetailView(i) => if self.chosen(event) == Some(ActionView::Back) {
                Screen::ListView
            } else {
                Screen::DetailView(i)
            },
            Screen::Terminal => Screen::Terminal,
        }
    }

    /// The session after an event.
    pub open spec fn step(self, event: NavEvent) -> NavigationView {
        NavigationView { stories: self.stories, screen: self.next_screen(event) }
    }

    /// The address to open on an event: that of the chosen action, if the
    /// event chose one that opens an address.
    pub open spec fn effect(self, event: NavEvent) -> Option<Seq<char>> {
        match self.chosen(event) {
            Some(action) => action.target(),
            None => None,
        }
    }
}

/// Whatever the user does, a detail view keeps showing a story of the list.
pub proof fn lemma_step_keeps_wf(session: NavigationView, event: NavEvent)
    requires
        session.wf(),
    ensures
        session.step(event).wf(),
{
}

/// A session ends only where the user cancels at the story list; an ended
/// session stays ended.
pub proof fn lemma_session_ends_only_by_cancel_at_list(session: NavigationView, event: NavEvent)
    requires
        session.wf(),
    ensures
        session.step(event).screen == Screen::Terminal <==> session.screen == Screen::Terminal || (
        session.screen == Screen::ListView && event == NavEvent::Cancel),
{
    if let Screen::DetailView(i) = session.screen {
        assert(session.step(event).screen != Screen::Terminal);
    }
}

/// Cancelling at the story list ends the session and opens nothing.
pub proof fn lemma_cancel_at_list_opens_nothing(session: NavigationView)
    requires
        session.screen == Screen::ListView,
    ensures
        session.step(NavEvent::Cancel).screen == Screen::Terminal,
        session.effect(NavEvent::Cancel) is None,
{
}

/// An address is opened only from a detail view, and opening one leaves the
/// same story's detail view on screen.
pub proof fn lemma_opening_stays_in_detail_view(session: NavigationView, event: NavEvent)
    requires
        session.wf(),
        session.effect(event) is Some,
    ensures
        session.screen is DetailView,
        session.step(event) == session,
{
}

/// In the detail view of a story that has an address, the first action opens
/// exactly that address.
pub proof fn lemma_first_action_opens_story_address(session: NavigationView, i: usize)
    requires
        session.wf(),
        session.screen == Screen::DetailView(i),
        session.stories[i as int].url is Some,
    ensures
        session.effect(NavEvent::Select(0)) == session.stories[i as int].url,
        session.step(NavEvent::Select(0)) == session,
{
    lemma_actions_shape(session.stories[i as int]);
}

/// In every detail view the last action, and no other, leads back to the
/// story list; it opens nothing.
pub proof fn lemma_only_last_action_goes_back(session: NavigationView, i: usize, a: usize)
    requires
        session.wf(),
        session.screen == Screen::DetailView(i),
    ensures
        session.step(NavEvent::Select(a)).screen == Screen::ListView <==> a + 1
            == session.menu().len(),
        a + 1 == session.menu().len() ==> session.effect(NavEvent::Select(a)) is None,
{
    lemma_actions_shape(session.stories[i as int]);
}

/// The lines of the story list: each story under its 1-based position.
pub open spec fn list_lines(stories: Seq<StoryView>) -> Seq<Seq<char>> {
    Seq::new(stories.len(), |i: int| stories[i].list_line((i + 1) as nat))
}

/// The characters of each string.
pub open spec fn text_views(lines: Seq<String>) -> Seq<Seq<char>> {
    lines.map_values(|line: String| line@)
}

/// The question above the story list.
pub open spec fn list_prompt_text(story_type: HackerNewsStoryType) -> Seq<char> {
    "Select a '"@ + story_type.name_text() + "' story item to view more"@
}

/// Builds the question above the story list.
pub fn list_prompt(story_type: &HackerNewsStoryType) -> (r: String)
    ensures
        r@ == list_prompt_text(*story_type),
{
    let mut out: String = String::from_str("Select a '");
    out.append(story_type.full_name());
    out.append("' story item to view more");
    out
}

/// Formats every story for the list, numbering them from one.
pub fn format_story_list(stories: &Vec<StoryItem>) -> (r: Vec<String>)
    ensures
        text_views(r@) == list_lines(story_views(stories@)),
{
    let mut lines: Vec<String> = Vec::new();
    let mut i: usize = 0;
    while i < stories.len()
        invariant
            i <= stories.len(),
            lines@.len() == i,
            forall|k: int|
                0 <= k < i ==> (#[trigger] lines@[k])@ == stories@[k]@.list_line((k + 1) as nat),
        decreases stories.len() - i,
    {
        let line: String = stories[i].format_for_list(i + 1);
        lines.push(line);
        i = i + 1;
    }
    assert(text_views(lines@) =~= list_lines(story_views(stories@)));
    lines
}

/// A browsing session over a collection of stories.
pub struct Navigation {
    stories: Vec<StoryItem>,
    screen: Screen,
}

impl View for Navigation {
    type V = NavigationView;

    closed spec fn view(&self) -> NavigationView {
        NavigationView { stories: story_views(self.stories@), screen: self.screen }
    }
}

impl Navigation {
    #[verifier::type_invariant]
    spec fn inv(&self) -> bool {
        self@.wf()
    }

    /// Starts a session on the story list.
    pub fn new(stories: Vec<StoryItem>) -> (r: Self)
        ensures
            r@ == (NavigationView { stories: story_views(stories@), screen: Screen::ListView }),
            r@.wf(),
    {
        Navigation { stories, screen: Screen::ListView }
    }

    /// The screen to show now.
    pub fn screen(&self) -> (r: Screen)
        ensures
            r == self@.screen,
            self@.wf(),
    {
        proof {
            use_type_invariant(self);
        }
        self.screen
    }

    /// The stories of the session, in list order.
    pub fn stories(&self) -> (r: &Vec<StoryItem>)
        ensures
            story_views(r@) == self@.stories,
    {
        &self.stories
    }

    /// The story whose actions are on screen, if a detail view is.
    pub fn selected(&self) -> (r: Option<&StoryItem>)
        ensures
            match self@.screen {
                Screen::DetailView(i) => i < self@.stories.len() && r is Some && r.unwrap()@
                    == self@.stories[i as int],
                _ => r is None,
            },
    {
        proof {
            use_type_invariant(self);
        }
        match self.screen {
            Screen::DetailView(i) => Some(&self.stories[i]),
            _ => None,
        }
    }

    /// Takes the user's choice: moves to the next screen and hands back the
    /// address to open, if the choice opens one.
    pub fn step(&mut self, event: NavEvent) -> (effect: Option<String>)
        ensures
            final(self)@ == old(self)@.step(event),
            text_view(effect) == old(self)@.effect(event),
            final(self)@.wf(),
    {
        proof {
            use_type_invariant(&*self);
        }
        match self.screen {
            Screen::ListView => {
                match event {
                    NavEvent::Select(i) => {
                        if i < self.stories.len() {
                            self.screen = Screen::DetailView(i);
                        }
                    },
                    NavEvent::Cancel => {
                        self.screen = Screen::Terminal;
                    },
                }
                None
            },
            Screen::DetailView(i) => {
                let actions: Vec<StoryAction> = self.stories[i].actions();
                match event {
                    NavEvent::Select(a) => {
                        if a < actions.len() {
                            assert(action_views(actions@)[a as int] == actions@[a as int]@);
                            match &actions[a] {
                                StoryAction::Back => {
                                    self.screen = Screen::ListView;
                                    None
                                },
                                action => action.target(),
                            }
                        } else {
                            None
                        }
                    },
                    NavEvent::Cancel => None,
                }
            },
            Screen::Terminal => None,
        }
    }
}

} // verus!
