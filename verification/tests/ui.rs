use hn_stories::story::{HackerNewsStoryType, StoryItem};
use hn_stories::ui::{format_story_list, list_prompt, NavEvent, Navigation, Screen};

fn full_story(id: u64) -> StoryItem {
    StoryItem {
        id,
        by: Some("pg".to_string()),
        url: Some(format!("https://example.com/{}", id)),
        score: Some(10),
        title: Some(format!("Story {}", id)),
    }
}

fn bare_story(id: u64) -> StoryItem {
    StoryItem { id, by: None, url: None, score: None, title: None }
}

#[test]
fn session_starts_at_the_story_list() {
    let nav = Navigation::new(vec![full_story(1)]);
    assert_eq!(nav.screen(), Screen::ListView);
    assert!(nav.selected().is_none());
    assert_eq!(nav.stories().len(), 1);
}

#[test]
fn cancel_at_the_list_ends_the_session_without_effect() {
    let mut nav = Navigation::new(vec![full_story(1)]);
    let effect = nav.step(NavEvent::Cancel);
    assert_eq!(effect, None);
    assert_eq!(nav.screen(), Screen::Terminal);
}

#[test]
fn ended_session_stays_ended() {
    let mut nav = Navigation::new(vec![full_story(1)]);
    nav.step(NavEvent::Cancel);
    assert_eq!(nav.step(NavEvent::Select(0)), None);
    assert_eq!(nav.screen(), Screen::Terminal);
    assert_eq!(nav.step(NavEvent::Cancel), None);
    assert_eq!(nav.screen(), Screen::Terminal);
}

#[test]
fn open_url_hands_out_the_exact_address_and_stays_in_the_detail_view() {
    let mut nav = Navigation::new(vec![full_story(1)]);
    assert_eq!(nav.step(NavEvent::Select(0)), None);
    assert_eq!(nav.screen(), Screen::DetailView(0));
    assert_eq!(nav.selected().map(|story| story.id), Some(1));

    let effect = nav.step(NavEvent::Select(0));
    assert_eq!(effect, Some("https://example.com/1".to_string()));
    assert_eq!(nav.screen(), Screen::DetailView(0));
    assert_eq!(nav.selected().map(|story| story.id), Some(1));
}

#[test]
fn every_opening_action_stays_in_the_detail_view() {
    let mut nav = Navigation::new(vec![full_story(1), full_story(2)]);
    nav.step(NavEvent::Select(1));
    assert_eq!(nav.screen(), Screen::DetailView(1));
    assert_eq!(nav.step(NavEvent::Select(0)), Some("https://example.com/2".to_string()));
    assert_eq!(nav.screen(), Screen::DetailView(1));
    assert_eq!(
        nav.step(NavEvent::Select(1)),
        Some("https://news.ycombinator.com/item?id=2".to_string())
    );
    assert_eq!(nav.screen(), Screen::DetailView(1));
    assert_eq!(
        nav.step(NavEvent::Select(2)),
        Some("https://news.ycombinator.com/user?id=pg".to_string())
    );
    assert_eq!(nav.screen(), Screen::DetailView(1));
}

#[test]
fn back_returns_to_the_list_and_opens_nothing() {
    let mut nav = Navigation::new(vec![full_story(1), bare_story(2)]);
    nav.step(NavEvent::Select(0));
    assert_eq!(nav.step(NavEvent::Select(3)), None);
    assert_eq!(nav.screen(), Screen::ListView);

    nav.step(NavEvent::Select(1));
    assert_eq!(nav.screen(), Screen::DetailView(1));
    assert_eq!(
        nav.step(NavEvent::Select(0)),
        Some("https://news.ycombinator.com/item?id=2".to_string())
    );
    assert_eq!(nav.step(NavEvent::Select(1)), None);
    assert_eq!(nav.screen(), Screen::ListView);

    assert_eq!(nav.step(NavEvent::Cancel), None);
    assert_eq!(nav.screen(), Screen::Terminal);
}

#[test]
fn cancel_in_a_detail_view_does_not_leave_it() {
    let mut nav = Navigation::new(vec![full_story(1)]);
    nav.step(NavEvent::Select(0));
    assert_eq!(nav.step(NavEvent::Cancel), None);
    assert_eq!(nav.screen(), Screen::DetailView(0));
}

#[test]
fn choices_beyond_the_menu_change_nothing() {
    let mut nav = Navigation::new(vec![bare_story(1)]);
    assert_eq!(nav.step(NavEvent::Select(1)), None);
    assert_eq!(nav.screen(), Screen::ListView);
    nav.step(NavEvent::Select(0));
    assert_eq!(nav.step(NavEvent::Select(2)), None);
    assert_eq!(nav.screen(), Screen::DetailView(0));

    let mut empty = Navigation::new(Vec::new());
    assert_eq!(empty.step(NavEvent::Select(0)), None);
    assert_eq!(empty.screen(), Screen::ListView);
}

#[test]
fn story_list_is_numbered_from_one() {
    let lines = format_story_list(&vec![full_story(7), bare_story(8), full_story(9)]);
    assert_eq!(
        lines,
        vec![
            "1. Story 7 (https://example.com/7) [10 points by pg]".to_string(),
            "2. No Title (No URL) [0 points by Unknown]".to_string(),
            "3. Story 9 (https://example.com/9) [10 points by pg]".to_string(),
        ]
    );
    assert!(format_story_list(&Vec::new()).is_empty());
}

#[test]
fn list_prompt_names_the_story_type() {
    assert_eq!(list_prompt(&HackerNewsStoryType::T), "Select a 'Top' story item to view more");
    assert_eq!(list_prompt(&HackerNewsStoryType::J), "Select a 'Jobs' story item to view more");
}
